//! The resolver session's composition of all registries: priority-based
//! conflict resolution and dispatch of script execution to the winning
//! registry.

use vstd::prelude::*;

use crate::config::ScriptBucketDefinition;
use crate::errors::RunError;
use crate::script_registry::{
    spec_bin_script_path, spec_root_script_path, PreparedRun, ScriptRegistry,
};

verus! {

/// The priority of the candidate at position `k` of `candidates`, each an
/// index into `registries`.
pub open spec fn candidate_priority(
    registries: Seq<ScriptRegistry>,
    candidates: Seq<usize>,
    k: int,
) -> int {
    registries[candidates[k] as int]@.priority
}

/// Whether the candidate at position `k` has the highest priority among
/// all of `candidates`.
pub open spec fn is_top_candidate(
    registries: Seq<ScriptRegistry>,
    candidates: Seq<usize>,
    k: int,
) -> bool {
    forall|l: int|
        0 <= l < candidates.len() ==> candidate_priority(registries, candidates, l)
            <= candidate_priority(registries, candidates, k)
}

/// Applies the resolution policy to the candidate registries, given by
/// index: no candidate fails with `ScriptNotFound`; a candidate of
/// strictly highest priority wins, shadowing the rest; two or more
/// candidates sharing the highest priority fail with
/// `AmbiguousResolution`, since silently picking between equally-weighted
/// sources would hide a configuration problem.
pub fn resolve_candidates(registries: &Vec<ScriptRegistry>, candidates: &Vec<usize>) -> (r: Result<
    usize,
    RunError,
>)
    requires
        forall|k: int| 0 <= k < candidates@.len() ==> candidates@[k] < registries@.len(),
        forall|k: int, l: int| 0 <= k < l < candidates@.len() ==> candidates@[k] != candidates@[l],
    ensures
        (match r {
            Ok(w) => exists|k: int|
                0 <= k < candidates@.len() && candidates@[k] == w && is_top_candidate(
                    registries@,
                    candidates@,
                    k,
                ) && (forall|l: int|
                    0 <= l < candidates@.len() && l != k ==> candidate_priority(
                        registries@,
                        candidates@,
                        l,
                    ) < candidate_priority(registries@, candidates@, k)),
            Err(RunError::ScriptNotFound) => candidates@.len() == 0,
            Err(RunError::AmbiguousResolution) => exists|k: int, l: int|
                0 <= k < l < candidates@.len() && is_top_candidate(registries@, candidates@, k)
                    && candidate_priority(registries@, candidates@, k) == candidate_priority(
                    registries@,
                    candidates@,
                    l,
                ),
            Err(RunError::ScriptExecution { .. }) => false,
        }),
{
    let n = candidates.len();
    if n == 0 {
        return Err(RunError::ScriptNotFound);
    }
    let mut best_k: usize = 0;
    let mut tie: bool = false;
    let mut k: usize = 1;
    while k < n
        invariant
            n == candidates@.len(),
            1 <= k <= n,
            best_k < k,
            forall|j: int| 0 <= j < candidates@.len() ==> candidates@[j] < registries@.len(),
            forall|l: int|
                0 <= l < k ==> candidate_priority(registries@, candidates@, l)
                    <= candidate_priority(registries@, candidates@, best_k as int),
            tie <==> exists|l: int|
                0 <= l < k && l != best_k && candidate_priority(registries@, candidates@, l)
                    == candidate_priority(registries@, candidates@, best_k as int),
        decreases n - k,
    {
        let ck = candidates[k];
        let cb = candidates[best_k];
        let pk = registries[ck].priority();
        let pb = registries[cb].priority();
        if pk > pb {
            proof {
                assert(forall|l: int|
                    0 <= l < k + 1 && l != k ==> candidate_priority(registries@, candidates@, l)
                        < candidate_priority(registries@, candidates@, k as int));
            }
            best_k = k;
            tie = false;
        } else if pk == pb {
            proof {
                let ghost w: int = k as int;
                assert(0 <= w && w < k + 1 && w != best_k as int && candidate_priority(
                    registries@,
                    candidates@,
                    w,
                ) == candidate_priority(registries@, candidates@, best_k as int));
            }
            tie = true;
        }
        k += 1;
    }
    if tie {
        proof {
            let l = choose|l: int|
                0 <= l < n && l != best_k && candidate_priority(registries@, candidates@, l)
                    == candidate_priority(registries@, candidates@, best_k as int);
            if l < best_k {
                assert(is_top_candidate(registries@, candidates@, l));
            }
        }
        Err(RunError::AmbiguousResolution)
    } else {
        proof {
            assert(is_top_candidate(registries@, candidates@, best_k as int));
        }
        Ok(candidates[best_k])
    }
}

/// An ordered list of registries, one per configured bucket; immutable
/// after construction.
pub struct MultiRegistry {
    registries: Vec<ScriptRegistry>,
}

impl View for MultiRegistry {
    type V = Seq<<ScriptRegistry as View>::V>;

    closed spec fn view(&self) -> Seq<<ScriptRegistry as View>::V> {
        self.registries@.map_values(|r: ScriptRegistry| r@)
    }
}

impl MultiRegistry {
    /// Builds one registry per bucket definition, in order, each bound to
    /// the local path its source reified to. Reification runs before this
    /// point, and a failed one aborts the whole session build (fail-fast),
    /// so the composition only ever holds materialized registries.
    pub fn initialize(conf: Vec<&ScriptBucketDefinition>, resolved_paths: Vec<String>) -> (r:
        MultiRegistry)
        requires
            conf@.len() == resolved_paths@.len(),
        ensures
            r@.len() == conf@.len(),
            forall|i: int|
                0 <= i < conf@.len() ==> r@[i].priority == conf@[i].priority as int && r@[i].path
                    == resolved_paths@[i]@,
    {
        let n = conf.len();
        let mut registries: Vec<ScriptRegistry> = Vec::new();
        let mut i: usize = 0;
        let mut paths = resolved_paths;
        let ghost all_paths = paths@;
        while i < n
            invariant
                n == conf@.len(),
                n == all_paths.len(),
                i <= n,
                paths@ == all_paths.skip(i as int),
                registries@.len() == i,
                forall|j: int| #![trigger registries@[j]]
                    0 <= j < i ==> registries@[j]@.priority == conf@[j].priority as int
                        && registries@[j]@.path == all_paths[j]@,
            decreases n - i,
        {
            proof {
                assert(all_paths.skip(i as int)[0] == all_paths[i as int]);
                assert(all_paths.skip(i as int).remove(0) =~= all_paths.skip(i + 1));
            }
            let path = paths.remove(0);
            let reg = ScriptRegistry::initialize(conf[i], path);
            let ghost regs_before = registries@;
            registries.push(reg);
            proof {
                assert(registries@[i as int] == reg);
                assert(forall|j: int| 0 <= j < i ==> registries@[j] == regs_before[j]);
                assert(forall|j: int| #![trigger registries@[j]]
                    0 <= j < i + 1 ==> registries@[j]@.priority == conf@[j].priority as int
                        && registries@[j]@.path == all_paths[j]@);
            }
            i += 1;
        }
        let r = MultiRegistry { registries };
        proof {
            assert forall|j: int| 0 <= j < conf@.len() implies r@[j].priority == conf@[
                j
            ].priority as int && r@[j].path == resolved_paths@[j]@ by {
                assert(r@[j] == r.registries@[j]@);
            }
        }
        r
    }

    /// Resolves and prepares script `name`: the registries whose probe
    /// finds the script are the candidates; the resolution policy of
    /// [`resolve_candidates`] picks the winner or fails, and the winner's
    /// preparation is handed back unchanged. No script is prepared — so
    /// none can be spawned — unless resolution succeeds. The prepared run
    /// forwards `args` verbatim and runs in `working_dir`.
    pub fn run_script(&self, name: &str, args: &[String], working_dir: &str) -> (r: Result<
        PreparedRun,
        RunError,
    >)
        ensures
            (match r {
                Ok(p) => p@.args == args@.map_values(|s: String| s@) && p@.working_dir
                    == working_dir@ && exists|i: int|
                    0 <= i < self@.len() && (p@.program == spec_root_script_path(
                        self@[i].path,
                        name@,
                    ) || p@.program == spec_bin_script_path(self@[i].path, name@)),
                Err(e) => e == RunError::ScriptNotFound || e == RunError::AmbiguousResolution,
            }),
    {
        let n = self.registries.len();
        let mut candidates: Vec<usize> = Vec::new();
        let mut i: usize = 0;
        while i < n
            invariant
                n == self.registries@.len(),
                i <= n,
                forall|k: int| 0 <= k < candidates@.len() ==> candidates@[k] < i,
                forall|k: int, l: int|
                    0 <= k < l < candidates@.len() ==> candidates@[k] < candidates@[l],
            decreases n - i,
        {
            if self.registries[i].has_script(name) {
                candidates.push(i);
            }
            i += 1;
        }
        match resolve_candidates(&self.registries, &candidates) {
            Err(e) => Err(e),
            Ok(w) => {
                proof {
                    assert(self@[w as int] == self.registries@[w as int]@);
                }
                self.registries[w].run_script(name, args, working_dir)
            },
        }
    }
}

} // verus!

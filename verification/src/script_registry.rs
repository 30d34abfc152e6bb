//! One bucket's runtime registry: the materialized, read-only view of its
//! reified source, answering "do you have script X" and preparing script
//! invocations.

use vstd::prelude::*;

use crate::config::ScriptBucketDefinition;
use crate::errors::RunError;

verus! {

/// Where a script resolves under a registry's path: directly at the root,
/// or under `bin/`.
#[derive(Debug, Clone, Copy, PartialEq, Eq, Structural)]
pub enum ScriptLocation {
    Root,
    Bin,
}

/// Relies on std::path::Path::is_file: whether a regular file exists at
/// `path`. The result depends on the file system at the moment of the
/// call, so nothing is promised of it.
#[verifier::external_body]
fn probe_regular_file(path: &str) -> (r: bool) {
    std::path::Path::new(path).is_file()
}

/// Which location a script resolves to, given where probing found a
/// regular file: the direct location when the root holds one, else `bin/`
/// when it holds one, else nowhere.
pub open spec fn spec_script_location(in_root: bool, in_bin: bool) -> Option<ScriptLocation> {
    if in_root {
        Some(ScriptLocation::Root)
    } else if in_bin {
        Some(ScriptLocation::Bin)
    } else {
        None
    }
}

/// Resolves the probe results into a script's location: a location is
/// found exactly when either probe found a file, the direct path checked
/// before `bin/`, the first match winning; where neither location holds a
/// file, no name resolves.
pub fn script_location(in_root: bool, in_bin: bool) -> (r: Option<ScriptLocation>)
    ensures
        r == spec_script_location(in_root, in_bin),
        r is Some <==> (in_root || in_bin),
{
    if in_root {
        Some(ScriptLocation::Root)
    } else if in_bin {
        Some(ScriptLocation::Bin)
    } else {
        None
    }
}

/// The path of script `name` directly under `base`.
pub open spec fn spec_root_script_path(base: Seq<char>, name: Seq<char>) -> Seq<char> {
    base + "/"@ + name
}

/// The path of script `name` under `base`'s `bin/` directory.
pub open spec fn spec_bin_script_path(base: Seq<char>, name: Seq<char>) -> Seq<char> {
    base + "/bin/"@ + name
}

/// A resolved script invocation, ready to be spawned: the program's path,
/// the forwarded arguments, and the directory the process runs in — the
/// caller's working directory, not the registry's checkout.
#[derive(Debug, Clone)]
pub struct PreparedRun {
    pub program: String,
    pub args: Vec<String>,
    pub working_dir: String,
}

/// Mathematical model of a [`PreparedRun`].
#[verifier::ext_equal]
pub struct PreparedRunView {
    pub program: Seq<char>,
    pub args: Seq<Seq<char>>,
    pub working_dir: Seq<char>,
}

impl View for PreparedRun {
    type V = PreparedRunView;

    open spec fn view(&self) -> PreparedRunView {
        PreparedRunView {
            program: self.program@,
            args: self.args@.map_values(|s: String| s@),
            working_dir: self.working_dir@,
        }
    }
}

/// What a finished script process means for the caller: exit status zero
/// is success; any other exit is a `ScriptExecution` error carrying the
/// process's status unchanged.
pub fn script_completion(success: bool, status: Option<i32>) -> (r: Result<(), RunError>)
    ensures
        success <==> r is Ok,
        !success ==> r == Result::<(), RunError>::Err(RunError::ScriptExecution { status }),
{
    if success {
        Ok(())
    } else {
        Err(RunError::ScriptExecution { status })
    }
}

/// The runtime object owning one bucket's materialized local path and its
/// configured priority; immutable once built.
pub struct ScriptRegistry {
    priority: usize,
    path: String,
}

/// Mathematical model of a [`ScriptRegistry`].
#[verifier::ext_equal]
pub struct ScriptRegistryView {
    pub priority: int,
    pub path: Seq<char>,
}

impl View for ScriptRegistry {
    type V = ScriptRegistryView;

    closed spec fn view(&self) -> ScriptRegistryView {
        ScriptRegistryView { priority: self.priority as int, path: self.path@ }
    }
}

impl ScriptRegistry {
    /// Builds the registry for one bucket, bound to the local path the
    /// bucket's source reified to. Reification runs before this point and
    /// a failed one aborts the build of the session that needed it, so a
    /// registry only ever exists for a materialized source.
    pub fn initialize(conf: &ScriptBucketDefinition, resolved_path: String) -> (r: ScriptRegistry)
        ensures
            r@.priority == conf.priority as int,
            r@.path == resolved_path@,
    {
        ScriptRegistry { priority: conf.priority, path: resolved_path }
    }

    /// The bucket's configured priority, used only for cross-registry
    /// tie-breaking.
    pub fn priority(&self) -> (r: usize)
        ensures
            r as int == self@.priority,
    {
        self.priority
    }

    /// The on-disk path script `name` resolves to, if a probe finds a
    /// regular file for it: the direct path is checked before `bin/`, and
    /// the first existing match wins. Which branch holds depends on the
    /// file system at the moment of the call.
    pub fn script_path(&self, name: &str) -> (r: Option<String>)
        ensures
            (r matches Some(p) ==> p@ == spec_root_script_path(self@.path, name@) || p@
                == spec_bin_script_path(self@.path, name@)),
    {
        let direct = self.path.clone().concat("/").concat(name);
        let bin = self.path.clone().concat("/bin/").concat(name);
        proof {
            assert(direct@ =~= spec_root_script_path(self@.path, name@));
            assert(bin@ =~= spec_bin_script_path(self@.path, name@));
        }
        let in_root = probe_regular_file(direct.as_str());
        let in_bin = probe_regular_file(bin.as_str());
        match script_location(in_root, in_bin) {
            Some(ScriptLocation::Root) => Some(direct),
            Some(ScriptLocation::Bin) => Some(bin),
            None => None,
        }
    }

    /// True when probing finds a regular file for `name` either directly
    /// under the resolved path or under its `bin/` directory. The answer
    /// depends on the file system at the moment of the call.
    pub fn has_script(&self, name: &str) -> (r: bool) {
        self.script_path(name).is_some()
    }

    /// Resolves `name` the same way as `has_script` and prepares its
    /// invocation: the resolved file as the program, `args` forwarded
    /// verbatim, and `working_dir` — the caller's own directory, not the
    /// registry's path — as the process's current directory. Fails with
    /// `ScriptNotFound` when neither location holds the file at probe
    /// time, guarding independently against a race or misuse.
    pub fn run_script(&self, name: &str, args: &[String], working_dir: &str) -> (r: Result<
        PreparedRun,
        RunError,
    >)
        ensures
            (match r {
                Ok(p) => (p@.program == spec_root_script_path(self@.path, name@) || p@.program
                    == spec_bin_script_path(self@.path, name@)) && p@.args == args@.map_values(
                    |s: String| s@,
                ) && p@.working_dir == working_dir@,
                Err(e) => e == RunError::ScriptNotFound,
            }),
    {
        match self.script_path(name) {
            None => Err(RunError::ScriptNotFound),
            Some(program) => {
                let mut forwarded: Vec<String> = Vec::new();
                let n = args.len();
                let mut i: usize = 0;
                while i < n
                    invariant
                        n == args@.len(),
                        i <= n,
                        forwarded@.len() == i,
                        forall|j: int| 0 <= j < i ==> forwarded@[j]@ == args@[j]@,
                    decreases n - i,
                {
                    forwarded.push(args[i].clone());
                    i += 1;
                }
                proof {
                    assert(forwarded@.map_values(|s: String| s@) =~= args@.map_values(
                        |s: String| s@,
                    ));
                }
                Ok(
                    PreparedRun {
                        program,
                        args: forwarded,
                        working_dir: working_dir.to_owned(),
                    },
                )
            },
        }
    }
}

} // verus!

//! The bucket configuration model: source descriptors, bucket definitions,
//! the two parse paths that normalize a shorthand string or a structured
//! object into one shape, and the ordered view of a configuration's buckets.

use vstd::prelude::*;

use crate::errors::ConfigError;
use crate::strutil::find_char;

verus! {

/// A git-backed source: a remote URL and a branch, tag or commit-ish
/// reference pinned within it.
#[derive(Debug, Clone)]
pub struct GitSourceConfig {
    pub url: String,
    pub reference: String,
}

/// Mathematical model of a [`GitSourceConfig`].
pub struct GitSourceConfigView {
    pub url: Seq<char>,
    pub reference: Seq<char>,
}

impl GitSourceConfigView {
    /// The descriptor's invariant: URL and reference are both non-empty.
    pub open spec fn wf(&self) -> bool {
        self.url.len() > 0 && self.reference.len() > 0
    }
}

impl View for GitSourceConfig {
    type V = GitSourceConfigView;

    open spec fn view(&self) -> GitSourceConfigView {
        GitSourceConfigView { url: self.url@, reference: self.reference@ }
    }
}

/// The source behind a bucket; git repositories are the one kind currently
/// handled.
#[derive(Debug, Clone)]
pub enum ScriptSource {
    Git(GitSourceConfig),
}

/// Mathematical model of a [`ScriptSource`].
pub enum ScriptSourceView {
    Git(GitSourceConfigView),
}

impl View for ScriptSource {
    type V = ScriptSourceView;

    open spec fn view(&self) -> ScriptSourceView {
        match self {
            ScriptSource::Git(g) => ScriptSourceView::Git(g@),
        }
    }
}

/// A bucket as the core consumes it: a priority used only for
/// cross-registry tie-breaking, and the source it materializes.
#[derive(Debug, Clone)]
pub struct ScriptBucketDefinition {
    pub priority: usize,
    pub source: ScriptSource,
}

/// Mathematical model of a bucket definition, shared with
/// [`InnerScriptBucketDefinition`].
pub struct BucketDefinitionView {
    pub priority: int,
    pub source: ScriptSourceView,
}

impl View for ScriptBucketDefinition {
    type V = BucketDefinitionView;

    open spec fn view(&self) -> BucketDefinitionView {
        BucketDefinitionView { priority: self.priority as int, source: self.source@ }
    }
}

/// The shape both parse paths produce before normalization; the priority
/// defaults to zero where the authored form names none.
#[derive(Debug, Clone)]
pub struct InnerScriptBucketDefinition {
    pub priority: usize,
    pub source: ScriptSource,
}

impl View for InnerScriptBucketDefinition {
    type V = BucketDefinitionView;

    open spec fn view(&self) -> BucketDefinitionView {
        BucketDefinitionView { priority: self.priority as int, source: self.source@ }
    }
}

/// The two authored forms of a bucket: a shorthand string or a structured
/// object, both normalizing into the same definition.
#[derive(Debug, Clone)]
pub enum ScriptBucketDefinitionDes {
    FromStr(InnerScriptBucketDefinition),
    FromObj(InnerScriptBucketDefinition),
}

impl View for ScriptBucketDefinitionDes {
    type V = BucketDefinitionView;

    open spec fn view(&self) -> BucketDefinitionView {
        match self {
            ScriptBucketDefinitionDes::FromStr(inner) => inner@,
            ScriptBucketDefinitionDes::FromObj(inner) => inner@,
        }
    }
}

impl From<ScriptBucketDefinitionDes> for ScriptBucketDefinition {
    /// Either authored form yields the definition it carries, unchanged.
    fn from(value: ScriptBucketDefinitionDes) -> (r: ScriptBucketDefinition) {
        match value {
            ScriptBucketDefinitionDes::FromStr(InnerScriptBucketDefinition { priority, source }) => {
                ScriptBucketDefinition { priority, source }
            },
            ScriptBucketDefinitionDes::FromObj(InnerScriptBucketDefinition { priority, source }) => {
                ScriptBucketDefinition { priority, source }
            },
        }
    }
}

impl vstd::std_specs::convert::FromSpecImpl<ScriptBucketDefinitionDes> for ScriptBucketDefinition {
    open spec fn obeys_from_spec() -> bool {
        true
    }

    open spec fn from_spec(t: ScriptBucketDefinitionDes) -> ScriptBucketDefinition {
        match t {
            ScriptBucketDefinitionDes::FromStr(inner) => ScriptBucketDefinition {
                priority: inner.priority,
                source: inner.source,
            },
            ScriptBucketDefinitionDes::FromObj(inner) => ScriptBucketDefinition {
                priority: inner.priority,
                source: inner.source,
            },
        }
    }
}

/// Mathematical model of a [`ConfigError`].
pub enum ConfigErrorView {
    MissingTypeSeparator,
    UnknownSourceType { source_type: Seq<char> },
    MissingRefSeparator,
    EmptySourceField,
}

impl View for ConfigError {
    type V = ConfigErrorView;

    open spec fn view(&self) -> ConfigErrorView {
        match self {
            ConfigError::MissingTypeSeparator => ConfigErrorView::MissingTypeSeparator,
            ConfigError::UnknownSourceType { source_type } => ConfigErrorView::UnknownSourceType {
                source_type: source_type@,
            },
            ConfigError::MissingRefSeparator => ConfigErrorView::MissingRefSeparator,
            ConfigError::EmptySourceField => ConfigErrorView::EmptySourceField,
        }
    }
}

/// Index of the first occurrence of `c` in `s`, or `-1` when `s` holds none.
pub open spec fn first_index_of(s: Seq<char>, c: char) -> int
    decreases s.len(),
{
    if s.len() == 0 {
        -1
    } else if s[0] == c {
        0
    } else {
        let r = first_index_of(s.drop_first(), c);
        if r < 0 {
            -1
        } else {
            r + 1
        }
    }
}

pub proof fn lemma_first_index_found(s: Seq<char>, c: char, i: int)
    requires
        0 <= i < s.len(),
        s[i] == c,
        forall|j: int| 0 <= j < i ==> s[j] != c,
    ensures
        first_index_of(s, c) == i,
    decreases i,
{
    if i > 0 {
        lemma_first_index_found(s.drop_first(), c, i - 1);
    }
}

pub proof fn lemma_first_index_absent(s: Seq<char>, c: char)
    requires
        forall|j: int| 0 <= j < s.len() ==> s[j] != c,
    ensures
        first_index_of(s, c) == -1,
    decreases s.len(),
{
    if s.len() > 0 {
        lemma_first_index_absent(s.drop_first(), c);
    }
}

/// What parsing `"<url>#<reference>"` yields: the text before the first `#`
/// as the URL and the text after it as the reference. No `#`, an empty URL
/// or an empty reference is an error: the descriptor's invariant asks for
/// both parts non-empty.
pub open spec fn spec_parse_git_source(s: Seq<char>) -> Result<
    GitSourceConfigView,
    ConfigErrorView,
> {
    let h = first_index_of(s, '#');
    if h < 0 {
        Err(ConfigErrorView::MissingRefSeparator)
    } else if h == 0 || h + 1 == s.len() {
        Err(ConfigErrorView::EmptySourceField)
    } else {
        Ok(
            GitSourceConfigView {
                url: s.subrange(0, h),
                reference: s.subrange(h + 1, s.len() as int),
            },
        )
    }
}

/// What parsing the shorthand `"<type>:<rest>"` yields: for the type `git`,
/// the definition `rest` parses to with priority zero; otherwise the
/// matching error.
pub open spec fn spec_parse_bucket_shorthand(s: Seq<char>) -> Result<
    BucketDefinitionView,
    ConfigErrorView,
> {
    let ci = first_index_of(s, ':');
    if ci < 0 {
        Err(ConfigErrorView::MissingTypeSeparator)
    } else if s.subrange(0, ci) == "git"@ {
        match spec_parse_git_source(s.subrange(ci + 1, s.len() as int)) {
            Ok(g) => Ok(BucketDefinitionView { priority: 0, source: ScriptSourceView::Git(g) }),
            Err(e) => Err(e),
        }
    } else {
        Err(ConfigErrorView::UnknownSourceType { source_type: s.subrange(0, ci) })
    }
}

impl GitSourceConfig {
    /// Splits `"<url>#<reference>"` at its first `#`; fails when none
    /// occurs, or when either part is empty.
    pub fn from_str(s: &str) -> (r: Result<GitSourceConfig, ConfigError>)
        ensures
            match (r, spec_parse_git_source(s@)) {
                (Ok(v), Ok(sv)) => v@ == sv,
                (Err(e), Err(se)) => e@ == se,
                _ => false,
            },
            (r matches Ok(v) ==> v@.wf()),
    {
        match find_char(s, '#') {
            None => {
                proof {
                    lemma_first_index_absent(s@, '#');
                }
                Err(ConfigError::MissingRefSeparator)
            },
            Some(hi) => {
                proof {
                    lemma_first_index_found(s@, '#', hi as int);
                }
                let n = s.unicode_len();
                if hi == 0 || hi + 1 == n {
                    return Err(ConfigError::EmptySourceField);
                }
                let url = s.substring_char(0, hi).to_owned();
                let reference = s.substring_char(hi + 1, n).to_owned();
                Ok(GitSourceConfig { url, reference })
            },
        }
    }
}

impl InnerScriptBucketDefinition {
    /// Parses the shorthand `"git:<url>#<reference>"` into a definition
    /// with priority zero; any other source type, an empty URL or an empty
    /// reference is rejected.
    pub fn from_str(s: &str) -> (r: Result<InnerScriptBucketDefinition, ConfigError>)
        ensures
            match (r, spec_parse_bucket_shorthand(s@)) {
                (Ok(v), Ok(sv)) => v@ == sv,
                (Err(e), Err(se)) => e@ == se,
                _ => false,
            },
            (r matches Ok(v) ==> (v@.source matches ScriptSourceView::Git(g) && g.wf())),
    {
        match find_char(s, ':') {
            None => {
                proof {
                    lemma_first_index_absent(s@, ':');
                }
                Err(ConfigError::MissingTypeSeparator)
            },
            Some(ci) => {
                proof {
                    lemma_first_index_found(s@, ':', ci as int);
                    reveal_strlit("git");
                }
                let n = s.unicode_len();
                let is_git = ci == 3 && s.get_char(0) == 'g' && s.get_char(1) == 'i'
                    && s.get_char(2) == 't';
                proof {
                    if is_git {
                        assert(s@.subrange(0, ci as int) =~= "git"@);
                    } else {
                        if ci == 3 {
                            assert(s@.subrange(0, 3)[0] == s@[0]);
                            assert(s@.subrange(0, 3)[1] == s@[1]);
                            assert(s@.subrange(0, 3)[2] == s@[2]);
                        }
                    }
                }
                if is_git {
                    let rest = s.substring_char(ci + 1, n);
                    match GitSourceConfig::from_str(rest) {
                        Ok(g) => Ok(
                            InnerScriptBucketDefinition {
                                priority: 0,
                                source: ScriptSource::Git(g),
                            },
                        ),
                        Err(e) => Err(e),
                    }
                } else {
                    let source_type = s.substring_char(0, ci).to_owned();
                    Err(ConfigError::UnknownSourceType { source_type })
                }
            },
        }
    }
}

/// Every valid shorthand normalizes exactly as the equivalent structured
/// object does: for any non-empty URL without `#` and any non-empty
/// reference, parsing `"git:<url>#<reference>"` yields the definition with
/// that URL, that reference and priority zero.
pub proof fn lemma_shorthand_matches_structured(url: Seq<char>, reference: Seq<char>)
    requires
        url.len() > 0,
        reference.len() > 0,
        forall|j: int| 0 <= j < url.len() ==> url[j] != '#',
    ensures
        spec_parse_bucket_shorthand("git:"@ + url + "#"@ + reference) == Ok::<
            BucketDefinitionView,
            ConfigErrorView,
        >(
            BucketDefinitionView {
                priority: 0,
                source: ScriptSourceView::Git(GitSourceConfigView { url, reference }),
            },
        ),
{
    reveal_strlit("git:");
    reveal_strlit("git");
    reveal_strlit("#");
    let s = "git:"@ + url + "#"@ + reference;
    assert(s[0] == 'g' && s[1] == 'i' && s[2] == 't' && s[3] == ':');
    lemma_first_index_found(s, ':', 3);
    assert(s.subrange(0, 3) =~= "git"@);
    let rest = s.subrange(4, s.len() as int);
    assert(rest =~= url + "#"@ + reference);
    assert(rest[url.len() as int] == '#');
    assert(forall|j: int| 0 <= j < url.len() ==> rest[j] == url[j] && rest[j] != '#');
    lemma_first_index_found(rest, '#', url.len() as int);
    assert(rest.subrange(0, url.len() as int) =~= url);
    assert(rest.subrange(url.len() as int + 1, rest.len() as int) =~= reference);
}

/// One named entry of a configuration's bucket table; a disabled bucket is
/// authored as an absent definition and filtered out before the core sees
/// it.
#[derive(Debug, Clone)]
pub struct NamedBucket {
    pub name: String,
    pub definition: Option<ScriptBucketDefinition>,
}

/// The merged configuration the excluded loading collaborator produces: the
/// named bucket entries, in their merged order, with distinct names.
#[derive(Debug, Clone)]
pub struct RunThatConfig {
    pub buckets: Vec<NamedBucket>,
}

/// The definitions of the entries of `s` that hold one, in order.
pub open spec fn defined_buckets(s: Seq<NamedBucket>) -> Seq<BucketDefinitionView>
    decreases s.len(),
{
    if s.len() == 0 {
        Seq::empty()
    } else {
        defined_buckets(s.drop_last()) + (match s.last().definition {
            Some(d) => seq![d@],
            None => Seq::empty(),
        })
    }
}

impl RunThatConfig {
    /// Names of the entries are pairwise distinct, as the mapping they were
    /// merged from guarantees.
    pub open spec fn wf(&self) -> bool {
        forall|i: int, j: int|
            0 <= i < j < self.buckets@.len() ==> self.buckets@[i].name@ != self.buckets@[j].name@
    }

    /// The enabled bucket definitions, sorted by ascending priority: the
    /// result is a reordering of exactly the entries that hold a
    /// definition.
    pub fn buckets(&self) -> (r: Vec<&ScriptBucketDefinition>)
        ensures
            r@.map_values(|b: &ScriptBucketDefinition| b@).to_multiset() == defined_buckets(
                self.buckets@,
            ).to_multiset(),
            forall|i: int, j: int| 0 <= i < j < r@.len() ==> r@[i].priority <= r@[j].priority,
    {
        let ghost all = self.buckets@;
        let mut out: Vec<&ScriptBucketDefinition> = Vec::new();
        let n = self.buckets.len();
        let mut i: usize = 0;
        proof {
            assert(all.subrange(0, 0) =~= Seq::<NamedBucket>::empty());
            assert(out@.map_values(|b: &ScriptBucketDefinition| b@) =~= defined_buckets(
                all.subrange(0, 0),
            ));
        }
        while i < n
            invariant
                n == all.len(),
                i <= n,
                all == self.buckets@,
                out@.map_values(|b: &ScriptBucketDefinition| b@).to_multiset() == defined_buckets(
                    all.subrange(0, i as int),
                ).to_multiset(),
                forall|p: int, q: int| 0 <= p < q < out@.len() ==> out@[p].priority <= out@[q].priority,
            decreases n - i,
        {
            proof {
                assert(all.subrange(0, i + 1).drop_last() =~= all.subrange(0, i as int));
                assert(all.subrange(0, i + 1).last() == all[i as int]);
            }
            let ghost prev = defined_buckets(all.subrange(0, i as int));
            match &self.buckets[i].definition {
                Some(def) => {
                    insert_sorted(&mut out, def);
                    proof {
                        broadcast use vstd::seq_lib::group_to_multiset_ensures;

                        assert(defined_buckets(all.subrange(0, i + 1)) =~= prev.push(def@));
                        assert(prev.push(def@).to_multiset() =~= prev.to_multiset().insert(def@));
                    }
                },
                None => {
                    proof {
                        assert(defined_buckets(all.subrange(0, i + 1)) =~= defined_buckets(
                            all.subrange(0, i as int),
                        ));
                    }
                },
            }
            i += 1;
        }
        proof {
            assert(all.subrange(0, n as int) =~= all);
        }
        out
    }
}

proof fn lemma_insert_to_multiset<A>(s: Seq<A>, i: int, x: A)
    requires
        0 <= i <= s.len(),
    ensures
        s.insert(i, x).to_multiset() == s.to_multiset().insert(x),
{
    broadcast use vstd::seq_lib::group_to_multiset_ensures;

    let t = s.insert(i, x);
    assert(t.remove(i) =~= s);
    assert(t[i] == x);
    assert(s.to_multiset() == t.to_multiset().remove(x));
    assert(t.to_multiset().contains(x));
    assert(t.to_multiset() =~= s.to_multiset().insert(x)) by {
        assert(forall|a: A|
            #[trigger] t.to_multiset().count(a) == s.to_multiset().insert(x).count(a)) by {
            assert(forall|a: A| #[trigger]
                s.to_multiset().count(a) == t.to_multiset().remove(x).count(a));
        }
    }
}

/// Places `x` into the priority-sorted list `out`, before the first entry
/// of strictly greater priority, keeping the list sorted.
fn insert_sorted<'a>(out: &mut Vec<&'a ScriptBucketDefinition>, x: &'a ScriptBucketDefinition)
    requires
        forall|p: int, q: int|
            0 <= p < q < old(out)@.len() ==> old(out)@[p].priority <= old(out)@[q].priority,
    ensures
        final(out)@.map_values(|b: &ScriptBucketDefinition| b@).to_multiset() == old(
            out,
        )@.map_values(|b: &ScriptBucketDefinition| b@).to_multiset().insert(x@),
        forall|p: int, q: int|
            0 <= p < q < final(out)@.len() ==> final(out)@[p].priority <= final(out)@[q].priority,
{
    let n = out.len();
    let mut k: usize = 0;
    while k < n && out[k].priority <= x.priority
        invariant
            n == out@.len(),
            k <= n,
            forall|p: int, q: int| 0 <= p < q < out@.len() ==> out@[p].priority <= out@[q].priority,
            forall|p: int| 0 <= p < k ==> out@[p].priority <= x.priority,
        decreases n - k,
    {
        k += 1;
    }
    let ghost before = out@;
    out.insert(k, x);
    proof {
        assert(out@ =~= before.insert(k as int, x));
        lemma_insert_to_multiset(
            before.map_values(|b: &ScriptBucketDefinition| b@),
            k as int,
            x@,
        );
        assert(out@.map_values(|b: &ScriptBucketDefinition| b@) =~= before.map_values(
            |b: &ScriptBucketDefinition| b@,
        ).insert(k as int, x@));
        assert(forall|p: int, q: int|
            0 <= p < q < out@.len() ==> out@[p].priority <= out@[q].priority) by {
            assert(forall|p: int| 0 <= p < k ==> out@[p] == before[p]);
            assert(forall|p: int| k < p < out@.len() ==> out@[p] == before[p - 1]);
            assert(out@[k as int] == x);
            assert(forall|p: int| k <= p < before.len() ==> x.priority <= before[p].priority);
        }
    }
}

} // verus!

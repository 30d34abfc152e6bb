//! The source reifier: turns a git source descriptor into a local worktree
//! directory through a persistent, freshness-bounded cache.
//!
//! The reifier's policy is a verified state machine. A [`ReifySession`]
//! holds where the session stands; each [`ReifyAction`] names one piece of
//! outside work (a directory probe, a git subprocess, a metadata read or
//! write); an unverified driver performs the action and reports what
//! happened as a [`ReifyEvent`]. Every decision — when the cache is fresh,
//! what to clone or pull, which worktree to hand back, how far the pinned
//! reference drifted — is taken inside [`ReifySession::step`], whose
//! contract pins each transition.

use vstd::prelude::*;

use crate::cache::{spec_is_stale, CacheMeta};
use crate::config::GitSourceConfig;
use crate::errors::SourceError;
use crate::strutil::{
    count_nonempty_lines, has_suffix, last_index_of, lemma_last_index_absent,
    lemma_last_index_found, rfind_char, spec_count_nonempty_lines, spec_trim_blank, trim_blank,
};

verus! {

/// Hexadecimal SHA-256 digest of a string's bytes; a function of the
/// characters alone.
pub uninterp spec fn sha256_hex(s: Seq<char>) -> Seq<char>;

/// Relies on sha256::digest, which hex-encodes the SHA-256 digest of the
/// input's bytes: 64 characters, depending on the input alone.
#[verifier::external_body]
fn sha256_hex_digest(s: &str) -> (r: String)
    ensures
        r@ == sha256_hex(s@),
        r@.len() == 64,
{
    sha256::digest(s)
}

/// Relies on dirs::cache_dir: the platform's cache root, if it defines one.
/// The result depends on the environment, so nothing is promised of it.
#[verifier::external_body]
fn platform_cache_dir() -> (r: Option<String>) {
    dirs::cache_dir().map(|p| p.to_string_lossy().into_owned())
}

/// Relies on std::time::SystemTime::now and chrono's conversion from it:
/// the current time as a Unix timestamp in whole seconds, negative for a
/// clock before the epoch. The result depends on the clock, so nothing is
/// promised of it.
#[verifier::external_body]
fn current_unix_time() -> (r: i64) {
    chrono::DateTime::<chrono::Utc>::from(std::time::SystemTime::now()).timestamp()
}

/// The last path segment of `url`, with a trailing `.git` stripped: the
/// repository's short name.
pub open spec fn spec_repo_name(url: Seq<char>) -> Seq<char> {
    let chunk = url.subrange(last_index_of(url, '/') + 1, url.len() as int);
    if chunk.len() >= 4 && chunk.subrange(chunk.len() - 4, chunk.len() as int) == ".git"@ {
        chunk.subrange(0, chunk.len() - 4)
    } else {
        chunk
    }
}

/// The cache directory for `url` under the cache root `root`:
/// `<root>/run-that/git/<repo-name>-<sha256(url)>`. The digest keeps two
/// URLs with one trailing segment apart.
pub open spec fn spec_cache_dir(root: Seq<char>, url: Seq<char>) -> Seq<char> {
    root + "/run-that/git/"@ + spec_repo_name(url) + "-"@ + sha256_hex(url)
}

/// The metadata file of a cache directory.
pub open spec fn spec_meta_path(cache_dir: Seq<char>) -> Seq<char> {
    cache_dir + "/meta.toml"@
}

/// The base clone of a cache directory, shared by every reference of the
/// URL.
pub open spec fn spec_head_dir(cache_dir: Seq<char>) -> Seq<char> {
    cache_dir + "/HEAD"@
}

/// The worktree directory of one reference under a cache directory.
pub open spec fn spec_ref_dir(cache_dir: Seq<char>, reference: Seq<char>) -> Seq<char> {
    cache_dir + "/"@ + reference
}

/// The last path segment of `url`, with a trailing `.git` stripped.
pub fn repo_name_of(url: &str) -> (r: String)
    ensures
        r@ == spec_repo_name(url@),
{
    let n = url.unicode_len();
    let start: usize = match rfind_char(url, '/') {
        Some(i) => {
            proof {
                lemma_last_index_found(url@, '/', i as int);
            }
            i + 1
        },
        None => {
            proof {
                lemma_last_index_absent(url@, '/');
            }
            0
        },
    };
    let chunk = url.substring_char(start, n);
    proof {
        reveal_strlit(".git");
    }
    let m = chunk.unicode_len();
    if has_suffix(chunk, ".git") {
        chunk.substring_char(0, m - 4).to_owned()
    } else {
        chunk.to_owned()
    }
}

impl GitSourceConfig {
    /// The repository's short name: the URL's last path segment without a
    /// trailing `.git`.
    pub fn repo_name(&self) -> (r: String)
        ensures
            r@ == spec_repo_name(self.url@),
    {
        repo_name_of(self.url.as_str())
    }

    /// The hex SHA-256 digest of the URL, the collision-resistant part of
    /// the cache directory's name.
    pub fn repo_hash(&self) -> (r: String)
        ensures
            r@ == sha256_hex(self.url@),
            r@.len() == 64,
    {
        sha256_hex_digest(self.url.as_str())
    }

    /// The cache directory this URL maps to under the cache root `root`.
    pub fn cache_dir_under(&self, root: &str) -> (r: String)
        ensures
            r@ == spec_cache_dir(root@, self.url@),
    {
        let name = self.repo_name();
        let hash = self.repo_hash();
        let r = root.to_owned().concat("/run-that/git/").concat(name.as_str()).concat(
            "-",
        ).concat(hash.as_str());
        proof {
            assert(r@ =~= spec_cache_dir(root@, self.url@));
        }
        r
    }

    /// Computes the cache directory for this URL under the platform cache
    /// root, or under `/tmp` where the platform names none.
    pub fn build_cache_path(&self) -> (r: String)
        ensures
            exists|root: Seq<char>| r@ == spec_cache_dir(root, self.url@),
    {
        let root = match platform_cache_dir() {
            Some(dir) => dir,
            None => "/tmp".to_owned(),
        };
        let r = self.cache_dir_under(root.as_str());
        proof {
            assert(r@ == spec_cache_dir(root@, self.url@));
        }
        r
    }

    /// Opens a reification session for this source, together with the
    /// first action its driver must perform: ensuring the cache directory
    /// exists. The descriptor must be well-formed: an empty URL or
    /// reference never reaches the core, since both parse paths reject it.
    pub fn begin_reify(&self) -> (r: (ReifySession, ReifyAction))
        requires
            self@.wf(),
        ensures
            r.0.wf(),
            r.0.url@ == self.url@,
            r.0.reference@ == self.reference@,
            r.0.phase is AwaitCacheDir,
            (r.1 matches ReifyAction::EnsureCacheDir { path } && path@ == r.0.cache_path@),
    {
        let root = match platform_cache_dir() {
            Some(dir) => dir,
            None => "/tmp".to_owned(),
        };
        let cache_path = self.cache_dir_under(root.as_str());
        let now = current_unix_time();
        let session = ReifySession {
            url: self.url.clone(),
            reference: self.reference.clone(),
            cache_path: cache_path.clone(),
            root: Ghost(root@),
            now,
            phase: ReifyPhase::AwaitCacheDir,
        };
        let action = ReifyAction::EnsureCacheDir { path: cache_path };
        (session, action)
    }
}

/// A source that can be materialized into a local directory through a
/// reification session.
pub trait RepoSource {
    /// The descriptor satisfies its invariant and may be reified.
    spec fn descriptor_wf(&self) -> bool;

    /// Opens the session that reifies this source, returning it with the
    /// first action its driver must perform.
    fn reify(&self) -> (r: (ReifySession, ReifyAction))
        requires
            self.descriptor_wf(),
        ensures
            r.0.wf(),
            r.0.phase is AwaitCacheDir,
            (r.1 matches ReifyAction::EnsureCacheDir { path } && path@ == r.0.cache_path@),
    ;
}

impl RepoSource for GitSourceConfig {
    open spec fn descriptor_wf(&self) -> bool {
        self@.wf()
    }

    fn reify(&self) -> (r: (ReifySession, ReifyAction)) {
        self.begin_reify()
    }
}

/// What reading the cache metadata file found.
#[derive(Debug, Clone, Copy, PartialEq, Eq, Structural)]
pub enum MetaReadResult {
    /// No metadata file exists: the cache is cold.
    Absent,
    /// The metadata file was read and parsed.
    Present { meta: CacheMeta },
    /// The metadata file exists but could not be read or parsed.
    Unreadable,
}

/// Where a reification session stands: which outside result it waits for.
#[derive(Debug)]
pub enum ReifyPhase {
    /// Waiting for the cache directory tree to be created.
    AwaitCacheDir,
    /// Waiting for the cache metadata to be read.
    AwaitMeta,
    /// Metadata was present; waiting for the worktree probe that the
    /// freshness policy combines with the metadata's age.
    AwaitFreshWorktreeProbe { last_update: i64 },
    /// An update is due; waiting to learn whether the base clone exists.
    AwaitHeadProbe,
    /// Waiting for `git clone` of the base clone.
    AwaitClone,
    /// Waiting for `git pull --ff-only` in the base clone.
    AwaitPull,
    /// Waiting for the refreshed metadata to be written.
    AwaitMetaStore,
    /// The cache was fresh; waiting for the skip notice to be shown.
    AwaitNoticeAck,
    /// Waiting to learn whether the reference's worktree exists.
    AwaitWorktreeProbe,
    /// Waiting for `git worktree add` of the reference's worktree.
    AwaitWorktreeAdd,
    /// Waiting for `git rev-parse HEAD` in the worktree.
    AwaitHashHead,
    /// Waiting for `git rev-parse origin/HEAD` in the worktree.
    AwaitHashOrigin { head_hash: String },
    /// Waiting for `git rev-list` over the drifted commit range.
    AwaitRevList,
    /// The worktree path was handed back.
    Finished,
    /// The session aborted with a `SourceError`.
    Failed,
}

/// One piece of outside work the session's driver must perform next.
#[derive(Debug)]
pub enum ReifyAction {
    /// Create the directory tree at `path`.
    EnsureCacheDir { path: String },
    /// Read the metadata file at `path`.
    LoadMeta { path: String },
    /// Report whether a directory exists at `path`.
    ProbeWorktree { path: String },
    /// Report whether a directory exists at `path`.
    ProbeHeadDir { path: String },
    /// Run `git clone <url> <dest>`.
    CloneHead { url: String, dest: String },
    /// Run `git pull --ff-only` with `dir` as current directory.
    PullHead { dir: String },
    /// Write `meta` to the metadata file at `path`.
    StoreMeta { path: String, meta: CacheMeta },
    /// Tell the user the cached clone of `repo_name` is fresh and the
    /// network update is skipped.
    ShowSkipNotice { repo_name: String },
    /// Run `git worktree add <worktree_dir> <reference>` with `head_dir` as
    /// current directory.
    AddWorktree { head_dir: String, worktree_dir: String, reference: String },
    /// Run `git rev-parse <commit_ref>` with `dir` as current directory.
    RevParse { dir: String, commit_ref: String },
    /// Run `git rev-list <range>` with `dir` as current directory.
    RevList { dir: String, range: String },
    /// Reification succeeded: `path` holds the reference's checked-out
    /// tree. When `drift_behind` carries a count, warn that the pinned
    /// reference is that many commits apart from `origin/HEAD`.
    Finish { path: String, drift_behind: Option<usize> },
    /// Reification failed; the session is over.
    Fail { error: SourceError },
}

/// What the driver observed while performing the requested action.
#[derive(Debug)]
pub enum ReifyEvent {
    /// Whether creating the cache directory tree succeeded.
    DirEnsured { ok: bool },
    /// What reading the metadata file found.
    MetaLoaded { result: MetaReadResult },
    /// Whether the probed directory exists.
    Probed { exists: bool },
    /// How a git subprocess without interesting output ended: `success` is
    /// exit status zero; `status` is the exit code, `None` when the process
    /// was ended by a signal.
    GitFinished { success: bool, status: Option<i32> },
    /// Whether writing the metadata file succeeded.
    MetaStored { ok: bool },
    /// The skip notice was shown.
    NoticeShown,
    /// What `git rev-parse` printed on success, or `None` with the exit
    /// code when it failed.
    RevParsed { output: Option<String>, status: Option<i32> },
    /// What `git rev-list` printed on success, or `None` with the exit
    /// code when it failed.
    RevListed { output: Option<String>, status: Option<i32> },
}

/// Mathematical model of a [`ReifyPhase`].
#[verifier::ext_equal]
pub enum ReifyPhaseView {
    AwaitCacheDir,
    AwaitMeta,
    AwaitFreshWorktreeProbe { last_update: int },
    AwaitHeadProbe,
    AwaitClone,
    AwaitPull,
    AwaitMetaStore,
    AwaitNoticeAck,
    AwaitWorktreeProbe,
    AwaitWorktreeAdd,
    AwaitHashHead,
    AwaitHashOrigin { head_hash: Seq<char> },
    AwaitRevList,
    Finished,
    Failed,
}

impl View for ReifyPhase {
    type V = ReifyPhaseView;

    open spec fn view(&self) -> ReifyPhaseView {
        match self {
            ReifyPhase::AwaitCacheDir => ReifyPhaseView::AwaitCacheDir,
            ReifyPhase::AwaitMeta => ReifyPhaseView::AwaitMeta,
            ReifyPhase::AwaitFreshWorktreeProbe { last_update } => {
                ReifyPhaseView::AwaitFreshWorktreeProbe { last_update: *last_update as int }
            },
            ReifyPhase::AwaitHeadProbe => ReifyPhaseView::AwaitHeadProbe,
            ReifyPhase::AwaitClone => ReifyPhaseView::AwaitClone,
            ReifyPhase::AwaitPull => ReifyPhaseView::AwaitPull,
            ReifyPhase::AwaitMetaStore => ReifyPhaseView::AwaitMetaStore,
            ReifyPhase::AwaitNoticeAck => ReifyPhaseView::AwaitNoticeAck,
            ReifyPhase::AwaitWorktreeProbe => ReifyPhaseView::AwaitWorktreeProbe,
            ReifyPhase::AwaitWorktreeAdd => ReifyPhaseView::AwaitWorktreeAdd,
            ReifyPhase::AwaitHashHead => ReifyPhaseView::AwaitHashHead,
            ReifyPhase::AwaitHashOrigin { head_hash } => ReifyPhaseView::AwaitHashOrigin {
                head_hash: head_hash@,
            },
            ReifyPhase::AwaitRevList => ReifyPhaseView::AwaitRevList,
            ReifyPhase::Finished => ReifyPhaseView::Finished,
            ReifyPhase::Failed => ReifyPhaseView::Failed,
        }
    }
}

/// Mathematical model of a [`ReifyAction`].
#[verifier::ext_equal]
pub enum ReifyActionView {
    EnsureCacheDir { path: Seq<char> },
    LoadMeta { path: Seq<char> },
    ProbeWorktree { path: Seq<char> },
    ProbeHeadDir { path: Seq<char> },
    CloneHead { url: Seq<char>, dest: Seq<char> },
    PullHead { dir: Seq<char> },
    StoreMeta { path: Seq<char>, last_update: int },
    ShowSkipNotice { repo_name: Seq<char> },
    AddWorktree { head_dir: Seq<char>, worktree_dir: Seq<char>, reference: Seq<char> },
    RevParse { dir: Seq<char>, commit_ref: Seq<char> },
    RevList { dir: Seq<char>, range: Seq<char> },
    Finish { path: Seq<char>, drift_behind: Option<int> },
    Fail { error: SourceError },
}

impl View for ReifyAction {
    type V = ReifyActionView;

    open spec fn view(&self) -> ReifyActionView {
        match self {
            ReifyAction::EnsureCacheDir { path } => ReifyActionView::EnsureCacheDir {
                path: path@,
            },
            ReifyAction::LoadMeta { path } => ReifyActionView::LoadMeta { path: path@ },
            ReifyAction::ProbeWorktree { path } => ReifyActionView::ProbeWorktree { path: path@ },
            ReifyAction::ProbeHeadDir { path } => ReifyActionView::ProbeHeadDir { path: path@ },
            ReifyAction::CloneHead { url, dest } => ReifyActionView::CloneHead {
                url: url@,
                dest: dest@,
            },
            ReifyAction::PullHead { dir } => ReifyActionView::PullHead { dir: dir@ },
            ReifyAction::StoreMeta { path, meta } => ReifyActionView::StoreMeta {
                path: path@,
                last_update: meta.last_update as int,
            },
            ReifyAction::ShowSkipNotice { repo_name } => ReifyActionView::ShowSkipNotice {
                repo_name: repo_name@,
            },
            ReifyAction::AddWorktree { head_dir, worktree_dir, reference } => {
                ReifyActionView::AddWorktree {
                    head_dir: head_dir@,
                    worktree_dir: worktree_dir@,
                    reference: reference@,
                }
            },
            ReifyAction::RevParse { dir, commit_ref } => ReifyActionView::RevParse {
                dir: dir@,
                commit_ref: commit_ref@,
            },
            ReifyAction::RevList { dir, range } => ReifyActionView::RevList {
                dir: dir@,
                range: range@,
            },
            ReifyAction::Finish { path, drift_behind } => ReifyActionView::Finish {
                path: path@,
                drift_behind: match drift_behind {
                    Some(d) => Some(*d as int),
                    None => None,
                },
            },
            ReifyAction::Fail { error } => ReifyActionView::Fail { error: *error },
        }
    }
}

/// Mathematical model of a [`ReifyEvent`].
#[verifier::ext_equal]
pub enum ReifyEventView {
    DirEnsured { ok: bool },
    MetaLoaded { result: MetaReadResult },
    Probed { exists: bool },
    GitFinished { success: bool, status: Option<i32> },
    MetaStored { ok: bool },
    NoticeShown,
    RevParsed { output: Option<Seq<char>>, status: Option<i32> },
    RevListed { output: Option<Seq<char>>, status: Option<i32> },
}

impl View for ReifyEvent {
    type V = ReifyEventView;

    open spec fn view(&self) -> ReifyEventView {
        match self {
            ReifyEvent::DirEnsured { ok } => ReifyEventView::DirEnsured { ok: *ok },
            ReifyEvent::MetaLoaded { result } => ReifyEventView::MetaLoaded { result: *result },
            ReifyEvent::Probed { exists } => ReifyEventView::Probed { exists: *exists },
            ReifyEvent::GitFinished { success, status } => ReifyEventView::GitFinished {
                success: *success,
                status: *status,
            },
            ReifyEvent::MetaStored { ok } => ReifyEventView::MetaStored { ok: *ok },
            ReifyEvent::NoticeShown => ReifyEventView::NoticeShown,
            ReifyEvent::RevParsed { output, status } => ReifyEventView::RevParsed {
                output: match output {
                    Some(s) => Some(s@),
                    None => None,
                },
                status: *status,
            },
            ReifyEvent::RevListed { output, status } => ReifyEventView::RevListed {
                output: match output {
                    Some(s) => Some(s@),
                    None => None,
                },
                status: *status,
            },
        }
    }
}

/// One in-progress reification: the descriptor being materialized, the
/// cache directory it maps to, the time the session started, and the phase
/// the session stands in.
pub struct ReifySession {
    pub url: String,
    pub reference: String,
    pub cache_path: String,
    pub root: Ghost<Seq<char>>,
    pub now: i64,
    pub phase: ReifyPhase,
}

/// Mathematical model of a [`ReifySession`].
#[verifier::ext_equal]
pub struct ReifySessionView {
    pub url: Seq<char>,
    pub reference: Seq<char>,
    pub cache_path: Seq<char>,
    pub root: Seq<char>,
    pub now: int,
    pub phase: ReifyPhaseView,
}

impl View for ReifySession {
    type V = ReifySessionView;

    open spec fn view(&self) -> ReifySessionView {
        ReifySessionView {
            url: self.url@,
            reference: self.reference@,
            cache_path: self.cache_path@,
            root: self.root@,
            now: self.now as int,
            phase: self.phase@,
        }
    }
}

impl ReifySession {
    /// The cache directory is the one the session's URL maps to under the
    /// session's cache root.
    pub open spec fn wf(&self) -> bool {
        self.cache_path@ == spec_cache_dir(self.root@, self.url@)
    }

    /// The metadata file of this session's cache directory.
    fn meta_path(&self) -> (r: String)
        ensures
            r@ == spec_meta_path(self.cache_path@),
    {
        self.cache_path.clone().concat("/meta.toml")
    }

    /// The base clone directory of this session's cache directory.
    fn head_dir(&self) -> (r: String)
        ensures
            r@ == spec_head_dir(self.cache_path@),
    {
        self.cache_path.clone().concat("/HEAD")
    }

    /// The worktree directory of this session's reference.
    fn ref_dir(&self) -> (r: String)
        ensures
            r@ == spec_ref_dir(self.cache_path@, self.reference@),
    {
        let r = self.cache_path.clone().concat("/").concat(self.reference.as_str());
        proof {
            assert(r@ =~= spec_ref_dir(self.cache_path@, self.reference@));
        }
        r
    }
}

impl ReifySessionView {
    /// This session, standing in `phase`.
    pub open spec fn with_phase(self, phase: ReifyPhaseView) -> ReifySessionView {
        ReifySessionView { phase, ..self }
    }
}

/// The failed session and the action reporting `error`.
pub open spec fn spec_fail(pre: ReifySessionView, error: SourceError) -> (
    ReifySessionView,
    ReifyActionView,
) {
    (pre.with_phase(ReifyPhaseView::Failed), ReifyActionView::Fail { error })
}

/// Whether a session standing in `phase` expects the event `e`: the
/// driver's report must answer the action the session last issued.
pub open spec fn spec_accepts(phase: ReifyPhaseView, e: ReifyEventView) -> bool {
    match (phase, e) {
        (ReifyPhaseView::AwaitCacheDir, ReifyEventView::DirEnsured { .. }) => true,
        (ReifyPhaseView::AwaitMeta, ReifyEventView::MetaLoaded { .. }) => true,
        (ReifyPhaseView::AwaitFreshWorktreeProbe { .. }, ReifyEventView::Probed { .. }) => true,
        (ReifyPhaseView::AwaitHeadProbe, ReifyEventView::Probed { .. }) => true,
        (ReifyPhaseView::AwaitClone, ReifyEventView::GitFinished { .. }) => true,
        (ReifyPhaseView::AwaitPull, ReifyEventView::GitFinished { .. }) => true,
        (ReifyPhaseView::AwaitMetaStore, ReifyEventView::MetaStored { .. }) => true,
        (ReifyPhaseView::AwaitNoticeAck, ReifyEventView::NoticeShown) => true,
        (ReifyPhaseView::AwaitWorktreeProbe, ReifyEventView::Probed { .. }) => true,
        (ReifyPhaseView::AwaitWorktreeAdd, ReifyEventView::GitFinished { .. }) => true,
        (ReifyPhaseView::AwaitHashHead, ReifyEventView::RevParsed { .. }) => true,
        (ReifyPhaseView::AwaitHashOrigin { .. }, ReifyEventView::RevParsed { .. }) => true,
        (ReifyPhaseView::AwaitRevList, ReifyEventView::RevListed { .. }) => true,
        _ => false,
    }
}

/// The reifier's transition relation: from the session `pre` and the
/// driver's report `e` to the session after the step and the next action.
///
/// The policy it encodes: a failed directory creation, metadata read or
/// write, or git subprocess aborts the session with the matching
/// `SourceError`; a cold cache (no metadata), a stale one (older than a
/// day) or a missing worktree triggers one base-clone update (clone when
/// the base clone is absent, fast-forward pull when present) followed by a
/// metadata refresh; a fresh cache with an existing worktree skips the
/// network entirely; a missing worktree is added against the base clone;
/// and the finished session hands back the reference's worktree directory,
/// with the commit distance between the worktree's `HEAD` and
/// `origin/HEAD` when they differ by at least one commit.
pub open spec fn spec_step(pre: ReifySessionView, e: ReifyEventView) -> (
    ReifySessionView,
    ReifyActionView,
) {
    let meta_path = spec_meta_path(pre.cache_path);
    let head_dir = spec_head_dir(pre.cache_path);
    let ref_dir = spec_ref_dir(pre.cache_path, pre.reference);
    match (pre.phase, e) {
        (ReifyPhaseView::AwaitCacheDir, ReifyEventView::DirEnsured { ok }) => if ok {
            (
                pre.with_phase(ReifyPhaseView::AwaitMeta),
                ReifyActionView::LoadMeta { path: meta_path },
            )
        } else {
            spec_fail(pre, SourceError::CacheDirCreation)
        },
        (ReifyPhaseView::AwaitMeta, ReifyEventView::MetaLoaded { result }) => match result {
            MetaReadResult::Unreadable => spec_fail(pre, SourceError::MetadataRead),
            MetaReadResult::Absent => (
                pre.with_phase(ReifyPhaseView::AwaitHeadProbe),
                ReifyActionView::ProbeHeadDir { path: head_dir },
            ),
            MetaReadResult::Present { meta } => (
                pre.with_phase(
                    ReifyPhaseView::AwaitFreshWorktreeProbe {
                        last_update: meta.last_update as int,
                    },
                ),
                ReifyActionView::ProbeWorktree { path: ref_dir },
            ),
        },
        (
            ReifyPhaseView::AwaitFreshWorktreeProbe { last_update },
            ReifyEventView::Probed { exists },
        ) => if spec_is_stale(last_update, pre.now) || !exists {
            (
                pre.with_phase(ReifyPhaseView::AwaitHeadProbe),
                ReifyActionView::ProbeHeadDir { path: head_dir },
            )
        } else {
            (
                pre.with_phase(ReifyPhaseView::AwaitNoticeAck),
                ReifyActionView::ShowSkipNotice { repo_name: spec_repo_name(pre.url) },
            )
        },
        (ReifyPhaseView::AwaitHeadProbe, ReifyEventView::Probed { exists }) => if exists {
            (pre.with_phase(ReifyPhaseView::AwaitPull), ReifyActionView::PullHead { dir: head_dir })
        } else {
            (
                pre.with_phase(ReifyPhaseView::AwaitClone),
                ReifyActionView::CloneHead { url: pre.url, dest: head_dir },
            )
        },
        (ReifyPhaseView::AwaitClone, ReifyEventView::GitFinished { success, status }) => if success {
            (
                pre.with_phase(ReifyPhaseView::AwaitMetaStore),
                ReifyActionView::StoreMeta { path: meta_path, last_update: pre.now },
            )
        } else {
            spec_fail(pre, SourceError::CloneFailed { status })
        },
        (ReifyPhaseView::AwaitPull, ReifyEventView::GitFinished { success, status }) => if success {
            (
                pre.with_phase(ReifyPhaseView::AwaitMetaStore),
                ReifyActionView::StoreMeta { path: meta_path, last_update: pre.now },
            )
        } else {
            spec_fail(pre, SourceError::PullFailed { status })
        },
        (ReifyPhaseView::AwaitMetaStore, ReifyEventView::MetaStored { ok }) => if ok {
            (
                pre.with_phase(ReifyPhaseView::AwaitWorktreeProbe),
                ReifyActionView::ProbeWorktree { path: ref_dir },
            )
        } else {
            spec_fail(pre, SourceError::MetadataWrite)
        },
        (ReifyPhaseView::AwaitNoticeAck, ReifyEventView::NoticeShown) => (
            pre.with_phase(ReifyPhaseView::AwaitHashHead),
            ReifyActionView::RevParse { dir: ref_dir, commit_ref: "HEAD"@ },
        ),
        (ReifyPhaseView::AwaitWorktreeProbe, ReifyEventView::Probed { exists }) => if exists {
            (
                pre.with_phase(ReifyPhaseView::AwaitHashHead),
                ReifyActionView::RevParse { dir: ref_dir, commit_ref: "HEAD"@ },
            )
        } else {
            (
                pre.with_phase(ReifyPhaseView::AwaitWorktreeAdd),
                ReifyActionView::AddWorktree {
                    head_dir,
                    worktree_dir: ref_dir,
                    reference: pre.reference,
                },
            )
        },
        (ReifyPhaseView::AwaitWorktreeAdd, ReifyEventView::GitFinished { success, status }) => {
            if success {
                (
                    pre.with_phase(ReifyPhaseView::AwaitHashHead),
                    ReifyActionView::RevParse { dir: ref_dir, commit_ref: "HEAD"@ },
                )
            } else {
                spec_fail(pre, SourceError::WorktreeAddFailed { status })
            }
        },
        (ReifyPhaseView::AwaitHashHead, ReifyEventView::RevParsed { output, status }) => {
            match output {
                None => spec_fail(pre, SourceError::RevParseFailed { status }),
                Some(out) => (
                    pre.with_phase(
                        ReifyPhaseView::AwaitHashOrigin { head_hash: spec_trim_blank(out) },
                    ),
                    ReifyActionView::RevParse { dir: ref_dir, commit_ref: "origin/HEAD"@ },
                ),
            }
        },
        (
            ReifyPhaseView::AwaitHashOrigin { head_hash },
            ReifyEventView::RevParsed { output, status },
        ) => match output {
            None => spec_fail(pre, SourceError::RevParseFailed { status }),
            Some(out) => if head_hash == spec_trim_blank(out) {
                (
                    pre.with_phase(ReifyPhaseView::Finished),
                    ReifyActionView::Finish { path: ref_dir, drift_behind: None },
                )
            } else {
                (
                    pre.with_phase(ReifyPhaseView::AwaitRevList),
                    ReifyActionView::RevList {
                        dir: ref_dir,
                        range: head_hash + "..."@ + spec_trim_blank(out),
                    },
                )
            },
        },
        (ReifyPhaseView::AwaitRevList, ReifyEventView::RevListed { output, status }) => {
            match output {
                None => spec_fail(pre, SourceError::RevListFailed { status }),
                Some(out) => (
                    pre.with_phase(ReifyPhaseView::Finished),
                    ReifyActionView::Finish {
                        path: ref_dir,
                        drift_behind: if spec_count_nonempty_lines(out) > 0 {
                            Some(spec_count_nonempty_lines(out) as int)
                        } else {
                            None
                        },
                    },
                ),
            }
        },
        _ => spec_fail(pre, SourceError::CacheDirCreation),
    }
}

impl ReifySession {
    /// Takes the driver's report on the last action and decides the next
    /// one; every transition is exactly what [`spec_step`] states.
    pub fn step(&mut self, event: ReifyEvent) -> (a: ReifyAction)
        requires
            spec_accepts(old(self)@.phase, event@),
        ensures
            final(self)@ == spec_step(old(self)@, event@).0,
            a@ == spec_step(old(self)@, event@).1,
    {
        let (new_phase, action): (ReifyPhase, ReifyAction) = match (&self.phase, event) {
            (ReifyPhase::AwaitCacheDir, ReifyEvent::DirEnsured { ok }) => if ok {
                (ReifyPhase::AwaitMeta, ReifyAction::LoadMeta { path: self.meta_path() })
            } else {
                (ReifyPhase::Failed, ReifyAction::Fail { error: SourceError::CacheDirCreation })
            },
            (ReifyPhase::AwaitMeta, ReifyEvent::MetaLoaded { result }) => match result {
                MetaReadResult::Unreadable => (
                    ReifyPhase::Failed,
                    ReifyAction::Fail { error: SourceError::MetadataRead },
                ),
                MetaReadResult::Absent => (
                    ReifyPhase::AwaitHeadProbe,
                    ReifyAction::ProbeHeadDir { path: self.head_dir() },
                ),
                MetaReadResult::Present { meta } => (
                    ReifyPhase::AwaitFreshWorktreeProbe { last_update: meta.last_update },
                    ReifyAction::ProbeWorktree { path: self.ref_dir() },
                ),
            },
            (ReifyPhase::AwaitFreshWorktreeProbe { last_update }, ReifyEvent::Probed { exists }) => {
                let meta = CacheMeta { last_update: *last_update };
                if meta.is_stale(self.now) || !exists {
                    (ReifyPhase::AwaitHeadProbe, ReifyAction::ProbeHeadDir { path: self.head_dir() })
                } else {
                    (
                        ReifyPhase::AwaitNoticeAck,
                        ReifyAction::ShowSkipNotice { repo_name: repo_name_of(self.url.as_str()) },
                    )
                }
            },
            (ReifyPhase::AwaitHeadProbe, ReifyEvent::Probed { exists }) => if exists {
                (ReifyPhase::AwaitPull, ReifyAction::PullHead { dir: self.head_dir() })
            } else {
                (
                    ReifyPhase::AwaitClone,
                    ReifyAction::CloneHead { url: self.url.clone(), dest: self.head_dir() },
                )
            },
            (ReifyPhase::AwaitClone, ReifyEvent::GitFinished { success, status }) => if success {
                (
                    ReifyPhase::AwaitMetaStore,
                    ReifyAction::StoreMeta {
                        path: self.meta_path(),
                        meta: CacheMeta { last_update: self.now },
                    },
                )
            } else {
                (ReifyPhase::Failed, ReifyAction::Fail { error: SourceError::CloneFailed { status } })
            },
            (ReifyPhase::AwaitPull, ReifyEvent::GitFinished { success, status }) => if success {
                (
                    ReifyPhase::AwaitMetaStore,
                    ReifyAction::StoreMeta {
                        path: self.meta_path(),
                        meta: CacheMeta { last_update: self.now },
                    },
                )
            } else {
                (ReifyPhase::Failed, ReifyAction::Fail { error: SourceError::PullFailed { status } })
            },
            (ReifyPhase::AwaitMetaStore, ReifyEvent::MetaStored { ok }) => if ok {
                (ReifyPhase::AwaitWorktreeProbe, ReifyAction::ProbeWorktree { path: self.ref_dir() })
            } else {
                (ReifyPhase::Failed, ReifyAction::Fail { error: SourceError::MetadataWrite })
            },
            (ReifyPhase::AwaitNoticeAck, ReifyEvent::NoticeShown) => (
                ReifyPhase::AwaitHashHead,
                ReifyAction::RevParse { dir: self.ref_dir(), commit_ref: "HEAD".to_owned() },
            ),
            (ReifyPhase::AwaitWorktreeProbe, ReifyEvent::Probed { exists }) => if exists {
                (
                    ReifyPhase::AwaitHashHead,
                    ReifyAction::RevParse { dir: self.ref_dir(), commit_ref: "HEAD".to_owned() },
                )
            } else {
                (
                    ReifyPhase::AwaitWorktreeAdd,
                    ReifyAction::AddWorktree {
                        head_dir: self.head_dir(),
                        worktree_dir: self.ref_dir(),
                        reference: self.reference.clone(),
                    },
                )
            },
            (ReifyPhase::AwaitWorktreeAdd, ReifyEvent::GitFinished { success, status }) => {
                if success {
                    (
                        ReifyPhase::AwaitHashHead,
                        ReifyAction::RevParse { dir: self.ref_dir(), commit_ref: "HEAD".to_owned() },
                    )
                } else {
                    (
                        ReifyPhase::Failed,
                        ReifyAction::Fail { error: SourceError::WorktreeAddFailed { status } },
                    )
                }
            },
            (ReifyPhase::AwaitHashHead, ReifyEvent::RevParsed { output, status }) => match output {
                None => (
                    ReifyPhase::Failed,
                    ReifyAction::Fail { error: SourceError::RevParseFailed { status } },
                ),
                Some(out) => (
                    ReifyPhase::AwaitHashOrigin { head_hash: trim_blank(out.as_str()) },
                    ReifyAction::RevParse {
                        dir: self.ref_dir(),
                        commit_ref: "origin/HEAD".to_owned(),
                    },
                ),
            },
            (ReifyPhase::AwaitHashOrigin { head_hash }, ReifyEvent::RevParsed { output, status }) => {
                match output {
                    None => (
                        ReifyPhase::Failed,
                        ReifyAction::Fail { error: SourceError::RevParseFailed { status } },
                    ),
                    Some(out) => {
                        let origin_hash = trim_blank(out.as_str());
                        if *head_hash == origin_hash {
                            (
                                ReifyPhase::Finished,
                                ReifyAction::Finish { path: self.ref_dir(), drift_behind: None },
                            )
                        } else {
                            let range = head_hash.clone().concat("...").concat(
                                origin_hash.as_str(),
                            );
                            (
                                ReifyPhase::AwaitRevList,
                                ReifyAction::RevList { dir: self.ref_dir(), range },
                            )
                        }
                    },
                }
            },
            (ReifyPhase::AwaitRevList, ReifyEvent::RevListed { output, status }) => match output {
                None => (
                    ReifyPhase::Failed,
                    ReifyAction::Fail { error: SourceError::RevListFailed { status } },
                ),
                Some(out) => {
                    let d = count_nonempty_lines(out.as_str());
                    let drift_behind = if d > 0 {
                        Some(d)
                    } else {
                        None
                    };
                    (
                        ReifyPhase::Finished,
                        ReifyAction::Finish { path: self.ref_dir(), drift_behind },
                    )
                },
            },
            _ => (ReifyPhase::Failed, ReifyAction::Fail { error: SourceError::CacheDirCreation }),
        };
        self.phase = new_phase;
        action
    }
}

/// Actions that reach the network: updating the base clone by `git clone`
/// or `git pull`.
pub open spec fn is_network_action(a: ReifyActionView) -> bool {
    a is CloneHead || a is PullHead
}

/// Phases from which a session can issue no further network action.
pub open spec fn network_free_phase(phase: ReifyPhaseView) -> bool {
    match phase {
        ReifyPhaseView::AwaitNoticeAck => true,
        ReifyPhaseView::AwaitHashHead => true,
        ReifyPhaseView::AwaitHashOrigin { .. } => true,
        ReifyPhaseView::AwaitRevList => true,
        ReifyPhaseView::Finished => true,
        ReifyPhaseView::Failed => true,
        _ => false,
    }
}

/// A session that finds its metadata fresh and its worktree present skips
/// the network update and enters a phase from which none can follow.
pub proof fn lemma_fresh_cache_skips_network(pre: ReifySessionView, e: ReifyEventView)
    requires
        (pre.phase matches ReifyPhaseView::AwaitFreshWorktreeProbe { last_update } &&
        !spec_is_stale(last_update, pre.now)),
        (e matches ReifyEventView::Probed { exists: true }),
    ensures
        !is_network_action(spec_step(pre, e).1),
        network_free_phase(spec_step(pre, e).0.phase),
{
}

/// Once a session stands in a network-free phase, no step issues a network
/// action, and every phase it can reach is network-free again: with
/// [`lemma_fresh_cache_skips_network`], a reification whose cache is
/// fresh and whose worktree exists performs no network update at all.
pub proof fn lemma_network_free_preserved(pre: ReifySessionView, e: ReifyEventView)
    requires
        network_free_phase(pre.phase),
    ensures
        !is_network_action(spec_step(pre, e).1),
        network_free_phase(spec_step(pre, e).0.phase),
{
}

/// A step changes only the session's phase: the descriptor, the cache
/// directory and the session's clock reading stay what they were.
pub proof fn lemma_step_keeps_identity(pre: ReifySessionView, e: ReifyEventView)
    ensures
        spec_step(pre, e).0.url == pre.url,
        spec_step(pre, e).0.reference == pre.reference,
        spec_step(pre, e).0.cache_path == pre.cache_path,
        spec_step(pre, e).0.root == pre.root,
        spec_step(pre, e).0.now == pre.now,
{
}

/// Whenever a session finishes, the path it hands back is the reference's
/// worktree directory under the session's cache directory — a function of
/// the cache root, the URL and the reference alone.
pub proof fn lemma_finish_path_pinned(pre: ReifySessionView, e: ReifyEventView)
    ensures
        (match spec_step(pre, e).1 {
            ReifyActionView::Finish { path, .. } => path == spec_ref_dir(
                pre.cache_path,
                pre.reference,
            ),
            _ => true,
        }),
{
}

/// Reifying the same URL and reference under the same cache root a second
/// time hands back the same worktree path: any two finishing steps of two
/// such sessions agree on the returned path.
pub proof fn lemma_repeated_reify_same_path(
    pre1: ReifySessionView,
    e1: ReifyEventView,
    pre2: ReifySessionView,
    e2: ReifyEventView,
)
    requires
        pre1.url == pre2.url,
        pre1.reference == pre2.reference,
        pre1.root == pre2.root,
        pre1.cache_path == spec_cache_dir(pre1.root, pre1.url),
        pre2.cache_path == spec_cache_dir(pre2.root, pre2.url),
    ensures
        (match (spec_step(pre1, e1).1, spec_step(pre2, e2).1) {
            (
                ReifyActionView::Finish { path: p1, .. },
                ReifyActionView::Finish { path: p2, .. },
            ) => p1 == p2,
            _ => true,
        }),
{
}

proof fn lemma_append_distinct(p: Seq<char>, a: Seq<char>, b: Seq<char>)
    requires
        a != b,
    ensures
        p + a != p + b,
{
    if a.len() == b.len() {
        assert(!(forall|k: int| 0 <= k < a.len() ==> a[k] == b[k])) by {
            if forall|k: int| 0 <= k < a.len() ==> a[k] == b[k] {
                assert(a =~= b);
            }
        }
        let k = choose|k: int| 0 <= k < a.len() && a[k] != b[k];
        if p + a == p + b {
            assert((p + a)[p.len() + k] == a[k]);
            assert((p + b)[p.len() + k] == b[k]);
        }
    } else {
        assert((p + a).len() != (p + b).len());
    }
}

/// Two sessions for one URL under one cache root work against the same
/// base clone, whatever their references.
pub proof fn lemma_head_clone_shared(s1: ReifySessionView, s2: ReifySessionView)
    requires
        s1.cache_path == spec_cache_dir(s1.root, s1.url),
        s2.cache_path == spec_cache_dir(s2.root, s2.url),
        s1.root == s2.root,
        s1.url == s2.url,
    ensures
        spec_head_dir(s1.cache_path) == spec_head_dir(s2.cache_path),
{
}

/// Two sessions for one URL under one cache root but distinct references
/// resolve to distinct worktree directories.
pub proof fn lemma_worktrees_distinct(s1: ReifySessionView, s2: ReifySessionView)
    requires
        s1.cache_path == spec_cache_dir(s1.root, s1.url),
        s2.cache_path == spec_cache_dir(s2.root, s2.url),
        s1.root == s2.root,
        s1.url == s2.url,
        s1.reference != s2.reference,
    ensures
        spec_ref_dir(s1.cache_path, s1.reference) != spec_ref_dir(s2.cache_path, s2.reference),
{
    lemma_append_distinct(s1.cache_path + "/"@, s1.reference, s2.reference);
}

} // verus!

//! Error taxonomy of the launcher core. Every error is terminal for the
//! invocation that raised it; none is caught and retried internally.

use vstd::prelude::*;

verus! {

/// A bucket definition that could not be understood.
#[derive(Debug, Clone, PartialEq, Eq)]
pub enum ConfigError {
    /// A shorthand bucket string holds no `:` between the source type and
    /// the rest.
    MissingTypeSeparator,
    /// The source type named before the `:` of a shorthand bucket string is
    /// not one this launcher handles.
    UnknownSourceType { source_type: String },
    /// A git shorthand holds no `#` between the URL and the reference.
    MissingRefSeparator,
    /// A git source names an empty URL or an empty reference; both must be
    /// non-empty.
    EmptySourceField,
}

/// A failure while materializing a source into a local directory. Git
/// failures carry the subprocess's exit code, `None` when the process was
/// ended by a signal.
#[derive(Debug, Clone, PartialEq, Eq)]
pub enum SourceError {
    /// The cache directory tree could not be created.
    CacheDirCreation,
    /// The cache metadata file exists but could not be read or parsed.
    MetadataRead,
    /// The cache metadata file could not be written.
    MetadataWrite,
    /// `git clone` of the base clone exited non-zero.
    CloneFailed { status: Option<i32> },
    /// `git pull --ff-only` in the base clone exited non-zero.
    PullFailed { status: Option<i32> },
    /// `git worktree add` for the requested reference exited non-zero.
    WorktreeAddFailed { status: Option<i32> },
    /// `git rev-parse` of a commit reference exited non-zero.
    RevParseFailed { status: Option<i32> },
    /// `git rev-list` over a commit range exited non-zero.
    RevListFailed { status: Option<i32> },
}

/// A failure while resolving or running a named script.
#[derive(Debug, Clone, PartialEq, Eq)]
pub enum RunError {
    /// No registry holds the requested script.
    ScriptNotFound,
    /// Two or more registries hold the script at the same highest priority.
    AmbiguousResolution,
    /// The script ran and exited non-zero; carries its exit code, `None`
    /// when the process was ended by a signal.
    ScriptExecution { status: Option<i32> },
}

} // verus!

//! The error kinds surfaced by the staging, commit and push
//! operations, together with the engine-level cause where the engine
//! supplied one.

use vstd::prelude::*;

use crate::git::error_message;

verus! {

/// Every failure of an operation is reported as one of these kinds.
/// All of them are terminal for the operation that returned them: no
/// operation retries anything.
#[derive(Clone, Copy, Debug, PartialEq, Eq, Structural)]
pub enum OpError {
    /// No repository was supplied and none could be discovered from the
    /// current working directory.
    RepositoryNotFound,
    /// The repository's index could not be opened while staging.
    IndexAccessError,
    /// A path could not be staged.
    AddFailure,
    /// The staged index could not be written back to disk.
    IndexWriteError,
    /// `user.name` or `user.email` was absent or unreadable from the
    /// repository configuration.
    IdentityMissing,
    /// The operator cancelled the interactive selection menu.
    SelectionAborted,
    /// The interactive commit-message flow was cancelled, so no commit
    /// was attempted.
    CommitAborted,
    /// The index could not be snapshotted into a tree object.
    TreeWriteError,
    /// The commit object could not be created.
    CommitCreationError,
    /// HEAD could not be resolved to a branch at push time.
    DetachedOrUnbornHead,
    /// No `remote.origin.url` is configured for the repository.
    NoRemoteConfigured,
    /// The `origin` remote does not exist.
    RemoteNotFound,
    /// The push itself was rejected (authentication, non-fast-forward,
    /// or transport failure); the engine-level cause is not interpreted
    /// further.
    PushRejected,
}

/// A failed operation: the kind it was wrapped into, and the
/// engine-level cause, surfaced uninterpreted — empty where the library
/// itself decided the failure and no engine call was involved.
#[derive(Debug)]
pub struct OpFailure {
    /// Which of the error kinds this failure was wrapped into.
    pub kind: OpError,
    /// The engine's own message, carried through unread.
    pub cause: String,
}

/// Wraps an engine error into the given kind, carrying its message.
pub fn engine_failure(kind: OpError, e: &git2::Error) -> (f: OpFailure)
    ensures
        f.kind == kind,
{
    OpFailure { kind, cause: error_message(e) }
}

/// A failure the library decided on its own: no engine cause exists.
pub fn own_failure(kind: OpError) -> (f: OpFailure)
    ensures
        f.kind == kind,
        f.cause@.len() == 0,
{
    OpFailure { kind, cause: String::new() }
}

} // verus!

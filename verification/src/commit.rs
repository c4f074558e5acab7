//! The commit operation: reads the author identity from configuration,
//! resolves the commit message, snapshots the index into a tree,
//! determines the parent, and writes the new commit.

use vstd::prelude::*;

use crate::errors::{engine_failure, own_failure, OpError, OpFailure};
use crate::git::{
    config_get_string, create_commit, find_tree, index_write_tree, reference_peel_to_commit,
    repo_config, repo_head, repo_index, signature_now,
};
use crate::message::{resolve_message, MessageInput};
use crate::repository::get_current_repository;

verus! {

/// Creates a commit in `repo`, or in the discovered repository when
/// none is supplied.
///
/// With `debug` set the fixed placeholder message is used and `input`
/// is ignored; otherwise the message is assembled from `input`, and an
/// absent `input` — the operator cancelled the interactive flow —
/// aborts the commit, while a present one never does. The author
/// identity is read before anything is written, so a missing identity
/// leaves the index, tree store and HEAD untouched. On success HEAD
/// points at the new commit, whose id is returned.
pub fn commit(
    repo: Option<&git2::Repository>,
    debug: bool,
    input: Option<&MessageInput>,
) -> (res: Result<git2::Oid, OpFailure>)
    ensures
        res matches Err(f) ==> (f.kind == OpError::RepositoryNotFound
            || f.kind == OpError::IdentityMissing || f.kind == OpError::CommitAborted
            || f.kind == OpError::TreeWriteError || f.kind == OpError::CommitCreationError),
        repo is Some ==> (res matches Err(f) ==> f.kind != OpError::RepositoryNotFound),
        debug ==> !(res matches Err(f) && f.kind == OpError::CommitAborted),
        !debug && input is Some ==> !(res matches Err(f) && f.kind == OpError::CommitAborted),
        !debug && input is None ==> (res matches Err(f)
            && (f.kind == OpError::CommitAborted || f.kind == OpError::IdentityMissing
                || f.kind == OpError::RepositoryNotFound)),
{
    match repo {
        Some(current) => commit_in(current, debug, input),
        None => match get_current_repository() {
            Ok(owned) => commit_in(&owned, debug, input),
            Err(e) => Err(engine_failure(OpError::RepositoryNotFound, &e)),
        },
    }
}

/// Reads the author identity — `user.name` and `user.email` — from the
/// repository configuration. Both keys must resolve; any failure is
/// `IdentityMissing`. Reading mutates nothing, so a caller about to
/// gather interactive answers may check the identity first.
pub fn read_identity(repo: &git2::Repository) -> (res: Result<(String, String), OpFailure>)
    ensures
        res matches Err(f) ==> f.kind == OpError::IdentityMissing,
{
    let config = match repo_config(repo) {
        Ok(config) => config,
        Err(e) => return Err(engine_failure(OpError::IdentityMissing, &e)),
    };
    let name = match config_get_string(&config, "user.name") {
        Ok(name) => name,
        Err(e) => return Err(engine_failure(OpError::IdentityMissing, &e)),
    };
    let email = match config_get_string(&config, "user.email") {
        Ok(email) => email,
        Err(e) => return Err(engine_failure(OpError::IdentityMissing, &e)),
    };
    Ok((name, email))
}

/// Creates a commit in one resolved repository.
fn commit_in(
    repo: &git2::Repository,
    debug: bool,
    input: Option<&MessageInput>,
) -> (res: Result<git2::Oid, OpFailure>)
    ensures
        res matches Err(f) ==> (f.kind == OpError::IdentityMissing
            || f.kind == OpError::CommitAborted || f.kind == OpError::TreeWriteError
            || f.kind == OpError::CommitCreationError),
        debug ==> !(res matches Err(f) && f.kind == OpError::CommitAborted),
        !debug && input is Some ==> !(res matches Err(f) && f.kind == OpError::CommitAborted),
        !debug && input is None ==> (res matches Err(f)
            && (f.kind == OpError::CommitAborted || f.kind == OpError::IdentityMissing)),
{
    let (name, email) = match read_identity(repo) {
        Ok(identity) => identity,
        Err(f) => return Err(f),
    };

    let commit_message = match resolve_message(debug, input) {
        Ok(message) => message,
        // the cancelled selection aborts the whole commit
        Err(_) => return Err(own_failure(OpError::CommitAborted)),
    };

    let mut index = match repo_index(repo) {
        Ok(index) => index,
        Err(e) => return Err(engine_failure(OpError::TreeWriteError, &e)),
    };
    let tree_oid = match index_write_tree(&mut index) {
        Ok(oid) => oid,
        Err(e) => return Err(engine_failure(OpError::TreeWriteError, &e)),
    };
    let tree = match find_tree(repo, tree_oid) {
        Ok(tree) => tree,
        Err(e) => return Err(engine_failure(OpError::TreeWriteError, &e)),
    };

    let parents = match collect_parents(repo) {
        Ok(parents) => parents,
        Err(f) => return Err(f),
    };

    let signature = match signature_now(name.as_str(), email.as_str()) {
        Ok(signature) => signature,
        Err(e) => return Err(engine_failure(OpError::CommitCreationError, &e)),
    };

    match create_commit(repo, "HEAD", &signature, commit_message.as_str(), &tree, &parents) {
        Ok(oid) => Ok(oid),
        Err(e) => Err(engine_failure(OpError::CommitCreationError, &e)),
    }
}

/// The ancestry of a commit about to be written, given what HEAD
/// resolved to: the resolved commit is the sole parent, and an unborn
/// branch — nothing resolved — leaves the parent list empty, denoting
/// the repository's first commit rather than an error.
pub fn ancestry_of<'r>(resolved_head: Option<git2::Commit<'r>>) -> (parents: Vec<git2::Commit<'r>>)
    ensures
        resolved_head matches Some(prior) ==> (parents@.len() == 1 && parents@[0] == prior),
        resolved_head is None ==> parents@.len() == 0,
{
    match resolved_head {
        Some(prior) => {
            let mut parents: Vec<git2::Commit<'r>> = Vec::new();
            parents.push(prior);
            parents
        },
        None => Vec::new(),
    }
}

/// Resolves HEAD and determines the parent list: a HEAD that does not
/// resolve at all means an unborn branch and an empty list; a HEAD
/// whose reference cannot be peeled to a commit is a failure.
fn collect_parents<'r>(repo: &'r git2::Repository) -> (res: Result<Vec<git2::Commit<'r>>, OpFailure>)
    ensures
        res matches Ok(parents) ==> parents@.len() <= 1,
        res matches Err(f) ==> f.kind == OpError::CommitCreationError,
{
    match repo_head(repo) {
        Err(_) => Ok(ancestry_of(None)),
        Ok(head) => match reference_peel_to_commit(&head) {
            Ok(parent) => Ok(ancestry_of(Some(parent))),
            Err(e) => Err(engine_failure(OpError::CommitCreationError, &e)),
        },
    }
}

} // verus!

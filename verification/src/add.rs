//! The staging operation: normalizes a list of paths and commits them
//! to the repository's index.

use vstd::prelude::*;

use crate::errors::{engine_failure, OpError, OpFailure};
use crate::git::{index_add_all, index_write, repo_index};
use crate::paths::normalize_paths;
use crate::repository::get_current_repository;

verus! {

/// Stages the given paths in the index of `repo`, or of the discovered
/// repository when none is supplied. Each path is first normalized by
/// stripping a leading `./` or `.\` prefix; the normalized paths are
/// handed to the engine as pathspecs, and the index is then written
/// back to disk. Entries staged before a failing step stay staged:
/// there is no rollback.
pub fn add(files: &Vec<String>, repo: Option<&git2::Repository>) -> (res: Result<(), OpFailure>)
    ensures
        res matches Err(f) ==> (f.kind == OpError::RepositoryNotFound
            || f.kind == OpError::IndexAccessError || f.kind == OpError::AddFailure
            || f.kind == OpError::IndexWriteError),
        repo is Some ==> (res matches Err(f) ==> f.kind != OpError::RepositoryNotFound),
{
    match repo {
        Some(current) => add_in(current, files),
        None => match get_current_repository() {
            Ok(owned) => add_in(&owned, files),
            Err(e) => Err(engine_failure(OpError::RepositoryNotFound, &e)),
        },
    }
}

/// Stages the normalized form of every given path in the index of one
/// resolved repository.
fn add_in(repo: &git2::Repository, files: &Vec<String>) -> (res: Result<(), OpFailure>)
    ensures
        res matches Err(f) ==> (f.kind == OpError::IndexAccessError
            || f.kind == OpError::AddFailure || f.kind == OpError::IndexWriteError),
{
    let mut index = match repo_index(repo) {
        Ok(index) => index,
        Err(e) => return Err(engine_failure(OpError::IndexAccessError, &e)),
    };
    let corrected_files = normalize_paths(files);
    match index_add_all(&mut index, &corrected_files) {
        Ok(_) => {},
        Err(e) => return Err(engine_failure(OpError::AddFailure, &e)),
    }
    match index_write(&mut index) {
        Ok(_) => Ok(()),
        Err(e) => Err(engine_failure(OpError::IndexWriteError, &e)),
    }
}

} // verus!

//! Resolution of the repository an operation works on.

use vstd::prelude::*;

verus! {

/// Discovers the enclosing repository by walking upward from the
/// current working directory.
///
/// Relies on `git2::Repository::discover`: whether a repository is
/// found depends on where the process runs, so nothing is promised of
/// the outcome; callers treat a failure as `RepositoryNotFound`.
#[verifier::external_body]
pub fn get_current_repository() -> Result<git2::Repository, git2::Error> {
    git2::Repository::discover(".")
}

} // verus!

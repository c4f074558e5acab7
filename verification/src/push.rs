//! The push operation: computes the refspec for the current branch,
//! selects a credential strategy for the configured remote URL, and
//! transmits the branch to the `origin` remote.

use vstd::prelude::*;

use crate::creds::{select_strategy, CredentialStrategy};
use crate::errors::{engine_failure, own_failure, OpError, OpFailure};
use crate::git::{
    config_get_string, create_https_callback, create_ssh_callbacks, find_remote, remote_push,
    repo_config, repo_head, reference_is_branch, reference_shorthand,
};
use crate::repository::get_current_repository;

verus! {

/// The same-name refspec mapping a local branch to the identically
/// named remote branch.
pub open spec fn refspec_spec(branch: Seq<char>) -> Seq<char> {
    "refs/heads/"@ + branch + ":refs/heads/"@ + branch
}

/// Builds the refspec for one branch name.
pub fn make_refspec(branch: &str) -> (r: String)
    ensures
        r@ == refspec_spec(branch@),
{
    let mut r = String::from_str("refs/heads/");
    r.append(branch);
    r.append(":refs/heads/");
    r.append(branch);
    r
}

/// Pushes the current branch of `repo`, or of the discovered
/// repository when none is supplied, to its `origin` remote under the
/// same branch name. A single attempt is made; any failure is
/// surfaced, never retried. The remote URL is read from configuration
/// before the remote is looked up and before anything touches the
/// network, so a repository with no configured `origin` fails on that
/// resolution alone.
pub fn push(repo: Option<&git2::Repository>) -> (res: Result<(), OpFailure>)
    ensures
        res matches Err(f) ==> (f.kind == OpError::RepositoryNotFound
            || f.kind == OpError::DetachedOrUnbornHead || f.kind == OpError::NoRemoteConfigured
            || f.kind == OpError::RemoteNotFound || f.kind == OpError::PushRejected),
        repo is Some ==> (res matches Err(f) ==> f.kind != OpError::RepositoryNotFound),
{
    match repo {
        Some(current) => push_in(current),
        None => match get_current_repository() {
            Ok(owned) => push_in(&owned),
            Err(e) => Err(engine_failure(OpError::RepositoryNotFound, &e)),
        },
    }
}

/// Pushes the current branch of one resolved repository. HEAD must
/// resolve to a local branch: an unborn HEAD does not resolve, and a
/// detached HEAD resolves to no branch; both fail before anything else
/// is done.
fn push_in(repo: &git2::Repository) -> (res: Result<(), OpFailure>)
    ensures
        res matches Err(f) ==> (f.kind == OpError::DetachedOrUnbornHead
            || f.kind == OpError::NoRemoteConfigured || f.kind == OpError::RemoteNotFound
            || f.kind == OpError::PushRejected),
{
    let head = match repo_head(repo) {
        Ok(head) => head,
        Err(e) => return Err(engine_failure(OpError::DetachedOrUnbornHead, &e)),
    };
    if !reference_is_branch(&head) {
        // detached HEAD: the reference resolves, but to no branch
        return Err(own_failure(OpError::DetachedOrUnbornHead));
    }
    let branch = match reference_shorthand(&head) {
        Ok(branch) => branch,
        Err(e) => return Err(engine_failure(OpError::DetachedOrUnbornHead, &e)),
    };
    let refspec = make_refspec(branch.as_str());

    let config = match repo_config(repo) {
        Ok(config) => config,
        Err(e) => return Err(engine_failure(OpError::NoRemoteConfigured, &e)),
    };
    let url = match config_get_string(&config, "remote.origin.url") {
        Ok(url) => url,
        Err(e) => return Err(engine_failure(OpError::NoRemoteConfigured, &e)),
    };

    let callbacks = match select_strategy(url.as_str()) {
        CredentialStrategy::SshAgent => create_ssh_callbacks(),
        CredentialStrategy::CredentialHelper => {
            let helper_config = match repo_config(repo) {
                Ok(config) => config,
                Err(e) => return Err(engine_failure(OpError::NoRemoteConfigured, &e)),
            };
            create_https_callback(helper_config)
        },
    };

    let mut origin = match find_remote(repo, "origin") {
        Ok(origin) => origin,
        Err(e) => return Err(engine_failure(OpError::RemoteNotFound, &e)),
    };

    match remote_push(&mut origin, refspec.as_str(), callbacks) {
        Ok(_) => Ok(()),
        Err(e) => Err(engine_failure(OpError::PushRejected, &e)),
    }
}

} // verus!

//! The trusted interface to the version-control engine (the `git2`
//! crate). Every item here is believed, not proved: each wrapper's body
//! makes exactly the engine call its doc comment names, and nothing is
//! promised of a result that depends on the state of the repository on
//! disk — callers match on what comes back.

use vstd::prelude::*;

use crate::creds::username_or_default;

verus! {

#[verifier::external_type_specification]
#[verifier::external_body]
pub struct ExRepository(git2::Repository);

#[verifier::external_type_specification]
#[verifier::external_body]
pub struct ExGitError(git2::Error);

#[verifier::external_type_specification]
#[verifier::external_body]
pub struct ExOid(git2::Oid);

#[verifier::external_type_specification]
#[verifier::external_body]
pub struct ExIndex(git2::Index);

#[verifier::external_type_specification]
#[verifier::external_body]
pub struct ExConfig(git2::Config);

#[verifier::external_type_specification]
#[verifier::external_body]
pub struct ExTree<'a>(git2::Tree<'a>);

#[verifier::external_type_specification]
#[verifier::external_body]
pub struct ExCommit<'a>(git2::Commit<'a>);

#[verifier::external_type_specification]
#[verifier::external_body]
pub struct ExSignature<'a>(git2::Signature<'a>);

#[verifier::external_type_specification]
#[verifier::external_body]
pub struct ExReference<'a>(git2::Reference<'a>);

#[verifier::external_type_specification]
#[verifier::external_body]
pub struct ExRemote<'a>(git2::Remote<'a>);

#[verifier::external_type_specification]
#[verifier::external_body]
pub struct ExRemoteCallbacks<'a>(git2::RemoteCallbacks<'a>);

/// Relies on `git2::Error::message`: the engine's description of what
/// went wrong, surfaced to the caller uninterpreted.
#[verifier::external_body]
pub(crate) fn error_message(e: &git2::Error) -> String {
    e.message().to_owned()
}

/// Relies on `git2::Reference::is_branch`: whether the reference is a
/// local branch — false among else for a detached HEAD.
#[verifier::external_body]
pub(crate) fn reference_is_branch(reference: &git2::Reference<'_>) -> bool {
    reference.is_branch()
}

/// Relies on `git2::Repository::config`: the configuration scoped to
/// the repository, or the engine's error.
#[verifier::external_body]
pub(crate) fn repo_config(repo: &git2::Repository) -> Result<git2::Config, git2::Error> {
    repo.config()
}

/// Relies on `git2::Config::get_string`: the value of the named key,
/// or an error when the key is absent or unreadable.
#[verifier::external_body]
pub(crate) fn config_get_string(
    config: &git2::Config,
    key: &str,
) -> Result<String, git2::Error> {
    config.get_string(key)
}

/// Relies on `git2::Repository::index`: the repository's index, or an
/// error when it cannot be opened.
#[verifier::external_body]
pub(crate) fn repo_index(repo: &git2::Repository) -> Result<git2::Index, git2::Error> {
    repo.index()
}

/// Relies on `git2::Index::add_all` with the default add option and no
/// callback: stages everything the given pathspecs match.
#[verifier::external_body]
pub(crate) fn index_add_all(
    index: &mut git2::Index,
    paths: &Vec<String>,
) -> Result<(), git2::Error> {
    index.add_all(
        paths.iter().map(|p| p.as_str()),
        git2::IndexAddOption::DEFAULT,
        None,
    )
}

/// Relies on `git2::Index::write`: writes the index back to disk.
#[verifier::external_body]
pub(crate) fn index_write(index: &mut git2::Index) -> Result<(), git2::Error> {
    index.write()
}

/// Relies on `git2::Index::write_tree`: snapshots the index into a
/// tree object and returns the tree's id.
#[verifier::external_body]
pub(crate) fn index_write_tree(index: &mut git2::Index) -> Result<git2::Oid, git2::Error> {
    index.write_tree()
}

/// Relies on `git2::Repository::find_tree`: looks the tree object up
/// by its id.
#[verifier::external_body]
pub(crate) fn find_tree<'r>(
    repo: &'r git2::Repository,
    oid: git2::Oid,
) -> Result<git2::Tree<'r>, git2::Error> {
    repo.find_tree(oid)
}

/// Relies on `git2::Repository::head`: the reference HEAD points at,
/// or an error — among else on an unborn branch.
#[verifier::external_body]
pub(crate) fn repo_head<'r>(
    repo: &'r git2::Repository,
) -> Result<git2::Reference<'r>, git2::Error> {
    repo.head()
}

/// Relies on `git2::Reference::shorthand`: the branch's short name.
#[verifier::external_body]
pub(crate) fn reference_shorthand(
    reference: &git2::Reference<'_>,
) -> Result<String, git2::Error> {
    match reference.shorthand() {
        Ok(name) => Ok(name.to_owned()),
        Err(e) => Err(e),
    }
}

/// Relies on `git2::Reference::peel_to_commit`: the commit the
/// reference resolves to.
#[verifier::external_body]
pub(crate) fn reference_peel_to_commit<'r>(
    reference: &git2::Reference<'r>,
) -> Result<git2::Commit<'r>, git2::Error> {
    reference.peel_to_commit()
}

/// Relies on `git2::Signature::now`: a signature for the given name
/// and email, timestamped at call time.
#[verifier::external_body]
pub(crate) fn signature_now(
    name: &str,
    email: &str,
) -> Result<git2::Signature<'static>, git2::Error> {
    git2::Signature::now(name, email)
}

/// Relies on `git2::Repository::commit`: creates the commit object
/// with the given message, tree and parents, author and committer both
/// the given signature, and advances the named reference to it.
#[verifier::external_body]
pub(crate) fn create_commit<'r>(
    repo: &git2::Repository,
    update_ref: &str,
    signature: &git2::Signature<'_>,
    message: &str,
    tree: &git2::Tree<'r>,
    parents: &Vec<git2::Commit<'r>>,
) -> Result<git2::Oid, git2::Error> {
    let parent_refs: Vec<&git2::Commit<'_>> = parents.iter().collect();
    repo.commit(Some(update_ref), signature, signature, message, tree, &parent_refs)
}

/// Relies on `git2::Repository::find_remote`: the named remote, or an
/// error when it does not exist.
#[verifier::external_body]
pub(crate) fn find_remote<'r>(
    repo: &'r git2::Repository,
    name: &str,
) -> Result<git2::Remote<'r>, git2::Error> {
    repo.find_remote(name)
}

/// Relies on `git2::RemoteCallbacks::credentials` and
/// `git2::Cred::ssh_key_from_agent`: a callback set whose credential
/// callback asks the running SSH agent for a key under the hinted
/// username, `git` when no hint is given.
#[verifier::external_body]
pub(crate) fn create_ssh_callbacks() -> git2::RemoteCallbacks<'static> {
    let mut callbacks = git2::RemoteCallbacks::new();
    callbacks.credentials(|_url, username_from_url, _allowed_types| {
        git2::Cred::ssh_key_from_agent(username_or_default(username_from_url))
    });
    callbacks
}

/// Relies on `git2::RemoteCallbacks::credentials` and
/// `git2::Cred::credential_helper`: a callback set whose credential
/// callback defers to the helper programs named by the given
/// configuration.
#[verifier::external_body]
pub(crate) fn create_https_callback(config: git2::Config) -> git2::RemoteCallbacks<'static> {
    let mut callbacks = git2::RemoteCallbacks::new();
    callbacks.credentials(move |url, username_from_url, _allowed_types| {
        git2::Cred::credential_helper(&config, url, username_from_url)
    });
    callbacks
}

/// Relies on `git2::Remote::push` with `git2::PushOptions` carrying
/// the given callbacks: one push attempt of the single refspec; no
/// retry on failure.
#[verifier::external_body]
pub(crate) fn remote_push(
    remote: &mut git2::Remote<'_>,
    refspec: &str,
    callbacks: git2::RemoteCallbacks<'static>,
) -> Result<(), git2::Error> {
    let mut options = git2::PushOptions::new();
    options.remote_callbacks(callbacks);
    remote.push(&[refspec], Some(&mut options))
}

} // verus!

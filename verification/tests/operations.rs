use std::path::Path;

use git2::{Repository, Signature};
use glyphit::errors::OpError;
use glyphit::message::MessageInput;

fn create_file(dir: &Path, name: &str) -> tempfile::NamedTempFile {
    tempfile::Builder::new()
        .prefix(name)
        .rand_bytes(0)
        .tempfile_in(dir)
        .unwrap()
}

fn set_identity(repo: &Repository) {
    let mut config = repo.config().unwrap();
    config.set_str("user.name", "Test User").unwrap();
    config.set_str("user.email", "test@example.com").unwrap();
}

#[test]
fn test_add() {
    // create temp dir and init empty repo (avoiding collision)
    let temp_dir = tempfile::tempdir().unwrap();
    let repo = &Repository::init(temp_dir.path()).unwrap();

    // create a dummy file
    let _file = create_file(temp_dir.path(), "dummy.txt");

    let files = vec!["dummy.txt".to_string()];

    glyphit::add::add(&files, Some(repo)).unwrap();

    // check index contains dummy.txt
    let index = repo.index().unwrap();
    assert!(index.get_path(Path::new("dummy.txt"), 0).is_some());
}

#[test]
fn test_add_lists_every_path_at_stage_zero() {
    let temp_dir = tempfile::tempdir().unwrap();
    let repo = &Repository::init(temp_dir.path()).unwrap();
    let _a = create_file(temp_dir.path(), "a.txt");
    let _b = create_file(temp_dir.path(), "b.txt");

    let files = vec!["a.txt".to_string(), "b.txt".to_string()];
    glyphit::add::add(&files, Some(repo)).unwrap();

    let index = repo.index().unwrap();
    assert!(index.get_path(Path::new("a.txt"), 0).is_some());
    assert!(index.get_path(Path::new("b.txt"), 0).is_some());
}

#[test]
fn test_add_prefixed_and_bare_paths_stage_alike() {
    let temp_dir = tempfile::tempdir().unwrap();
    let repo = &Repository::init(temp_dir.path()).unwrap();
    let _a = create_file(temp_dir.path(), "a.txt");

    glyphit::add::add(&vec!["./a.txt".to_string()], Some(repo)).unwrap();
    let index = repo.index().unwrap();
    assert!(index.get_path(Path::new("a.txt"), 0).is_some());
    let before = index.len();

    glyphit::add::add(&vec!["a.txt".to_string()], Some(repo)).unwrap();
    glyphit::add::add(&vec![".\\a.txt".to_string()], Some(repo)).unwrap();
    let index = repo.index().unwrap();
    assert_eq!(index.len(), before);
    assert!(index.get_path(Path::new("a.txt"), 0).is_some());
}

#[test]
fn test_add_rejects_unstageable_path() {
    let temp_dir = tempfile::tempdir().unwrap();
    let repo = &Repository::init(temp_dir.path()).unwrap();

    let files = vec!["bad\0path".to_string()];
    let err = glyphit::add::add(&files, Some(repo)).unwrap_err();
    assert_eq!(err.kind, OpError::AddFailure);
}

#[test]
fn test_commit() {
    let temp_dir = tempfile::tempdir().unwrap();
    let repo = Repository::init(temp_dir.path()).unwrap();

    let _file = create_file(temp_dir.path(), "initial.txt");

    glyphit::add::add(&vec!["initial.txt".to_string()], Some(&repo)).unwrap();

    set_identity(&repo);

    let tree;
    let signature = Signature::now("Test User", "test@example.com").unwrap();
    let mut index = repo.index().unwrap();
    let tree_id = index.write_tree().unwrap();
    tree = repo.find_tree(tree_id).unwrap();
    repo.commit(Some("HEAD"), &signature, &signature, "Initial commit", &tree, &[])
        .unwrap();

    let result = glyphit::commit::commit(Some(&repo), true, None);

    assert!(result.is_ok());

    let head = repo.head().unwrap();
    let commit = head.peel_to_commit().unwrap();
    assert_eq!(commit.message().unwrap(), "unit testing");
}

#[test]
fn test_commit_on_unborn_branch_has_no_parent() {
    let temp_dir = tempfile::tempdir().unwrap();
    let repo = Repository::init(temp_dir.path()).unwrap();
    set_identity(&repo);

    let oid = glyphit::commit::commit(Some(&repo), true, None).unwrap();

    let commit = repo.find_commit(oid).unwrap();
    assert_eq!(commit.parent_count(), 0);
    assert_eq!(commit.message().unwrap(), "unit testing");
    assert_eq!(repo.head().unwrap().peel_to_commit().unwrap().id(), oid);
}

#[test]
fn test_commit_with_existing_head_has_one_parent() {
    let temp_dir = tempfile::tempdir().unwrap();
    let repo = Repository::init(temp_dir.path()).unwrap();
    set_identity(&repo);

    let first = glyphit::commit::commit(Some(&repo), true, None).unwrap();
    let second = glyphit::commit::commit(Some(&repo), true, None).unwrap();

    let commit = repo.find_commit(second).unwrap();
    assert_eq!(commit.parent_count(), 1);
    assert_eq!(commit.parent(0).unwrap().id(), first);
}

#[test]
fn test_commit_without_identity_fails_and_writes_nothing() {
    let temp_dir = tempfile::tempdir().unwrap();
    let repo = Repository::init(temp_dir.path()).unwrap();

    let result = glyphit::commit::commit(Some(&repo), true, None);

    assert_eq!(result.unwrap_err().kind, OpError::IdentityMissing);
    // HEAD is still unborn: nothing was committed.
    assert!(repo.head().is_err());
    // No tree was written from the (empty) index either.
    assert!(repo.odb().unwrap().refresh().is_ok());
    let mut object_count = 0;
    repo.odb()
        .unwrap()
        .foreach(|_| {
            object_count += 1;
            true
        })
        .unwrap();
    assert_eq!(object_count, 0);
}

#[test]
fn test_commit_interactive_message_reaches_the_commit() {
    let temp_dir = tempfile::tempdir().unwrap();
    let repo = Repository::init(temp_dir.path()).unwrap();
    set_identity(&repo);

    let input = MessageInput {
        label: "🐛 :bug: Fix a bug".to_string(),
        title: " Fix the parser ".to_string(),
        body: "It mis-read empty input.".to_string(),
        breaking: "None".to_string(),
    };
    let oid = glyphit::commit::commit(Some(&repo), false, Some(&input)).unwrap();

    let commit = repo.find_commit(oid).unwrap();
    assert_eq!(
        commit.message().unwrap(),
        "🐛Fix the parser\nIt mis-read empty input.\nBREAKING CHANGES: None\n"
    );
}

#[test]
fn test_commit_aborted_interactive_flow() {
    let temp_dir = tempfile::tempdir().unwrap();
    let repo = Repository::init(temp_dir.path()).unwrap();
    set_identity(&repo);

    let result = glyphit::commit::commit(Some(&repo), false, None);
    assert_eq!(result.unwrap_err().kind, OpError::CommitAborted);
    assert!(repo.head().is_err());
}

#[test]
fn test_ancestry_keeps_the_resolved_commit() {
    let temp_dir = tempfile::tempdir().unwrap();
    let repo = Repository::init(temp_dir.path()).unwrap();
    set_identity(&repo);
    let oid = glyphit::commit::commit(Some(&repo), true, None).unwrap();

    let prior = repo.find_commit(oid).unwrap();
    let parents = glyphit::commit::ancestry_of(Some(prior));
    assert_eq!(parents.len(), 1);
    assert_eq!(parents[0].id(), oid);

    let unborn: Option<git2::Commit> = None;
    assert_eq!(glyphit::commit::ancestry_of(unborn).len(), 0);
}

#[test]
fn test_push() {
    let temp_dir = tempfile::tempdir().unwrap();
    let repo = Repository::init(temp_dir.path()).unwrap();

    let _file = create_file(temp_dir.path(), "initial.txt");

    glyphit::add::add(&vec!["initial.txt".to_string()], Some(&repo)).unwrap();

    set_identity(&repo);

    let tree;
    let signature = Signature::now("Test User", "test@example.com").unwrap();
    let mut index = repo.index().unwrap();
    let tree_id = index.write_tree().unwrap();
    tree = repo.find_tree(tree_id).unwrap();
    repo.commit(Some("HEAD"), &signature, &signature, "Initial commit", &tree, &[])
        .unwrap();

    let _ = glyphit::commit::commit(Some(&repo), true, None);

    let result = glyphit::push::push(Some(&repo));

    // we expect a fail due the absence of a real remote
    assert!(result.is_err());
}

#[test]
fn test_push_without_origin_fails_on_remote_resolution() {
    let temp_dir = tempfile::tempdir().unwrap();
    let repo = Repository::init(temp_dir.path()).unwrap();
    set_identity(&repo);
    glyphit::commit::commit(Some(&repo), true, None).unwrap();

    let err = glyphit::push::push(Some(&repo)).unwrap_err();
    assert_eq!(err.kind, OpError::NoRemoteConfigured);
}

#[test]
fn test_push_on_detached_head_fails() {
    let temp_dir = tempfile::tempdir().unwrap();
    let repo = Repository::init(temp_dir.path()).unwrap();
    set_identity(&repo);
    let oid = glyphit::commit::commit(Some(&repo), true, None).unwrap();
    repo.set_head_detached(oid).unwrap();

    let err = glyphit::push::push(Some(&repo)).unwrap_err();
    assert_eq!(err.kind, OpError::DetachedOrUnbornHead);
}

#[test]
fn test_push_on_unborn_head_fails() {
    let temp_dir = tempfile::tempdir().unwrap();
    let repo = Repository::init(temp_dir.path()).unwrap();

    let err = glyphit::push::push(Some(&repo)).unwrap_err();
    assert_eq!(err.kind, OpError::DetachedOrUnbornHead);
}

#[test]
fn test_push_to_unreachable_remote_is_rejected() {
    let temp_dir = tempfile::tempdir().unwrap();
    let repo = Repository::init(temp_dir.path()).unwrap();
    set_identity(&repo);
    glyphit::commit::commit(Some(&repo), true, None).unwrap();

    let missing = temp_dir.path().join("no-such-remote");
    repo.remote("origin", missing.to_str().unwrap()).unwrap();

    let err = glyphit::push::push(Some(&repo)).unwrap_err();
    assert_eq!(err.kind, OpError::PushRejected);
    // the engine-level cause is carried through uninterpreted
    assert!(!err.cause.is_empty());
}

#[test]
fn test_end_to_end_add_commit_push() {
    let temp_dir = tempfile::tempdir().unwrap();
    let repo = Repository::init(temp_dir.path()).unwrap();
    set_identity(&repo);
    let _a = create_file(temp_dir.path(), "a.txt");

    glyphit::add::add(&vec!["a.txt".to_string()], Some(&repo)).unwrap();
    let index = repo.index().unwrap();
    assert!(index.get_path(Path::new("a.txt"), 0).is_some());

    let oid = glyphit::commit::commit(Some(&repo), true, None).unwrap();
    let head = repo.head().unwrap().peel_to_commit().unwrap();
    assert_eq!(head.id(), oid);
    assert_eq!(head.message().unwrap(), "unit testing");

    let err = glyphit::push::push(Some(&repo)).unwrap_err();
    assert_eq!(err.kind, OpError::NoRemoteConfigured);
}

//! End-to-end scans of real object stores, built with the git2 crate.
//!
//! Repositories are created deterministically (fixed signatures and
//! timestamps) under the temporary directory, so a re-run stores the same
//! objects again and the counts stay stable.

use git2::ObjectType;
use git2::Repository;
use git2::Signature;
use git2::Time;

use gitstats::analysis::analyze_repositories;
use gitstats::analysis::analyze_repository;
use gitstats::analysis::AnalysisError;
use gitstats::analysis::ContributionRatio;

fn signature(name: &str, email: &str) -> Signature<'static> {
    Signature::new(name, email, &Time::new(1690000000, 0)).unwrap()
}

fn empty_tree(repo: &Repository) -> git2::Tree<'_> {
    let tree_id = repo.treebuilder(None).unwrap().write().unwrap();
    repo.find_tree(tree_id).unwrap()
}

fn add_commit(repo: &Repository, name: &str, email: &str, message: &str) {
    let tree = empty_tree(repo);
    let sig = signature(name, email);
    repo.commit(None, &sig, &sig, message, &tree, &[]).unwrap();
}

#[test]
fn empty_store_has_undefined_ratio() {
    Repository::init("/tmp/gs_empty").unwrap();
    let result = analyze_repository("/tmp/gs_empty", "Alice", "a@x.com").unwrap();
    assert_eq!(result.total_commits, 0);
    assert_eq!(result.matching_commits, 0);
    assert_eq!(result.contribution_ratio(), ContributionRatio::Undefined);
}

#[test]
fn blobs_and_trees_never_move_the_counters() {
    let repo = Repository::init("/tmp/gs_mixed").unwrap();
    for i in 0u32..100u32 {
        repo.blob(format!("blob number {}", i).as_bytes()).unwrap();
    }
    add_commit(&repo, "Alice", "a@x.com", "one");
    add_commit(&repo, "Bob", "b@x.com", "two");
    add_commit(&repo, "Bob", "b@x.com", "three");
    let result = analyze_repository("/tmp/gs_mixed", "Alice", "a@x.com").unwrap();
    assert_eq!(result.total_commits, 3);
    assert_eq!(result.matching_commits, 1);
    assert_eq!(
        result.contribution_ratio(),
        ContributionRatio::Defined { matching: 1, total: 3 }
    );
}

#[test]
fn matching_commit_is_counted() {
    let repo = Repository::init("/tmp/gs_match").unwrap();
    add_commit(&repo, "Alice", "a@x.com", "mine");
    let result = analyze_repository("/tmp/gs_match", "Alice", "a@x.com").unwrap();
    assert_eq!(result.total_commits, 1);
    assert_eq!(result.matching_commits, 1);
}

#[test]
fn other_identity_is_not_counted() {
    let repo = Repository::init("/tmp/gs_other").unwrap();
    add_commit(&repo, "Bob", "b@x.com", "theirs");
    let result = analyze_repository("/tmp/gs_other", "Alice", "a@x.com").unwrap();
    assert_eq!(result.total_commits, 1);
    assert_eq!(result.matching_commits, 0);
}

#[test]
fn commit_without_committer_record_raises_total_only() {
    let repo = Repository::init("/tmp/gs_malformed").unwrap();
    let odb = repo.odb().unwrap();
    let body = b"tree 4b825dc642cb6eb9a060e54bf8d69288fbee4904\n\nno header here\n";
    odb.write(ObjectType::Commit, body).unwrap();
    let result = analyze_repository("/tmp/gs_malformed", "Alice", "a@x.com").unwrap();
    assert_eq!(result.total_commits, 1);
    assert_eq!(result.matching_commits, 0);
}

#[test]
fn unopenable_path_fails_alone_and_siblings_succeed() {
    let alpha = Repository::init("/tmp/gs_batch_a").unwrap();
    add_commit(&alpha, "Alice", "a@x.com", "a");
    let beta = Repository::init("/tmp/gs_batch_b").unwrap();
    add_commit(&beta, "Bob", "b@x.com", "b");
    let paths = vec![
        "/tmp/gs_batch_a".to_string(),
        "/tmp/gs_batch_missing".to_string(),
        "/tmp/gs_batch_b".to_string(),
    ];
    let results = analyze_repositories(&paths, "Alice", "a@x.com");
    assert_eq!(results.len(), 3);
    assert!(results[0].is_ok());
    assert!(matches!(results[1], Err(AnalysisError::RepositoryOpen { .. })));
    assert!(results[2].is_ok());
    let first = results[0].as_ref().unwrap();
    assert_eq!(first.path, "/tmp/gs_batch_a");
    assert_eq!(first.matching_commits, 1);
    let third = results[2].as_ref().unwrap();
    assert_eq!(third.matching_commits, 0);
    assert_eq!(third.total_commits, 1);
}

#[test]
fn open_failure_reports_a_message() {
    let result = analyze_repository("/tmp/gs_not_there", "Alice", "a@x.com");
    match result {
        Err(err) => assert!(!err.describe().is_empty()),
        Ok(_) => panic!("expected an open failure"),
    }
}

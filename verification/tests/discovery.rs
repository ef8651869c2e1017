//! Discovery over modelled directory trees.

use gitstats::locate::find_repositories;
use gitstats::locate::FsNode;
use gitstats::locate::RepoPath;

fn dir(name: &str, entries: Vec<FsNode>) -> FsNode {
    FsNode::Dir { name: name.to_string(), entries }
}

fn file(name: &str) -> FsNode {
    FsNode::File { name: name.to_string() }
}

fn components(path: &RepoPath) -> Vec<&str> {
    path.components.iter().map(|c| c.as_str()).collect()
}

#[test]
fn single_metadata_dir_at_depth_three() {
    let root = dir(
        "root",
        vec![
            file("readme.txt"),
            dir(
                "a",
                vec![file("notes"), dir("b", vec![dir(".git", vec![file("HEAD")]), file("x")])],
            ),
        ],
    );
    let found = find_repositories(&root);
    assert_eq!(found.len(), 1);
    assert_eq!(components(&found[0]), vec!["a", "b", ".git"]);
}

#[test]
fn single_metadata_dir_at_depth_one() {
    let root = dir("root", vec![dir(".git", vec![])]);
    let found = find_repositories(&root);
    assert_eq!(found.len(), 1);
    assert_eq!(components(&found[0]), vec![".git"]);
}

#[test]
fn nested_fake_metadata_dir_is_never_entered() {
    let root = dir(
        "root",
        vec![dir(
            "repo",
            vec![dir(".git", vec![dir(".git", vec![]), dir("objects", vec![dir(".git", vec![])])])],
        )],
    );
    let found = find_repositories(&root);
    assert_eq!(found.len(), 1);
    assert_eq!(components(&found[0]), vec!["repo", ".git"]);
}

#[test]
fn tree_without_metadata_dirs_yields_nothing() {
    let root = dir(
        "root",
        vec![
            file("a"),
            dir("x", vec![dir("y", vec![file("z")])]),
            dir("empty", vec![]),
        ],
    );
    let found = find_repositories(&root);
    assert_eq!(found.len(), 0);
}

#[test]
fn file_named_like_metadata_dir_is_ignored() {
    let root = dir("root", vec![file(".git"), dir("w", vec![file(".git")])]);
    let found = find_repositories(&root);
    assert_eq!(found.len(), 0);
}

#[test]
fn metadata_dir_name_is_case_sensitive() {
    let root = dir("root", vec![dir(".Git", vec![]), dir(".GIT", vec![])]);
    let found = find_repositories(&root);
    assert_eq!(found.len(), 0);
}

#[test]
fn several_repositories_are_all_found() {
    let root = dir(
        "root",
        vec![
            dir("one", vec![dir(".git", vec![])]),
            dir("deep", vec![dir("er", vec![dir(".git", vec![])])]),
            dir("plain", vec![file("data")]),
        ],
    );
    let found = find_repositories(&root);
    assert_eq!(found.len(), 2);
    assert_eq!(components(&found[0]), vec!["one", ".git"]);
    assert_eq!(components(&found[1]), vec!["deep", "er", ".git"]);
}

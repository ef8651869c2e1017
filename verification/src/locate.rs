//! Repository discovery over a modelled directory tree.
//!
//! The tree is walked depth-first.  A directory whose name is the reserved
//! metadata name marks its parent as a repository root: the metadata
//! directory itself is recorded and never entered, so nothing below it —
//! however it is named — can add further roots.  Every other directory is
//! entered; files are ignored.

use vstd::prelude::*;

verus! {

/// The reserved name of the metadata directory that marks a repository.
pub open spec fn metadata_dir_name() -> Seq<char> {
    seq!['.', 'g', 'i', 't']
}

/// One node of the modelled directory tree: a plain file, or a directory
/// with the nodes it holds.
pub enum FsNode {
    File { name: String },
    Dir { name: String, entries: Vec<FsNode> },
}

/// The path of one discovered repository: the metadata directory's path,
/// as name components from (and excluding) the traversal root.
pub struct RepoPath {
    pub components: Vec<String>,
}

impl View for RepoPath {
    type V = Seq<Seq<char>>;

    open spec fn view(&self) -> Seq<Seq<char>> {
        self.components@.map_values(|c: String| c@)
    }
}

/// The views of a sequence of discovered paths.
pub open spec fn path_views(paths: Seq<RepoPath>) -> Seq<Seq<Seq<char>>> {
    paths.map_values(|p: RepoPath| p@)
}

/// Every path of `paths` with the component `name` put in front.
pub open spec fn prepend_to_all(name: Seq<char>, paths: Seq<Seq<Seq<char>>>) -> Seq<
    Seq<Seq<char>>,
> {
    paths.map_values(|p: Seq<Seq<char>>| seq![name] + p)
}

/// The repository paths found among `entries[i ..]`, in traversal order.
pub open spec fn discovered_from(entries: Seq<FsNode>, i: int) -> Seq<Seq<Seq<char>>>
    decreases entries, entries.len() - i,
{
    if i < 0 || i >= entries.len() {
        Seq::empty()
    } else {
        discovered_under(entries[i]) + discovered_from(entries, i + 1)
    }
}

/// The repository paths found at or under one directory entry.  A metadata
/// directory is itself the one result and is not entered; any other
/// directory contributes whatever lies below it, behind its own name.
pub open spec fn discovered_under(node: FsNode) -> Seq<Seq<Seq<char>>>
    decreases node, 0int,
{
    match node {
        FsNode::File { .. } => Seq::empty(),
        FsNode::Dir { name, entries } => {
            if name@ == metadata_dir_name() {
                seq![seq![name@]]
            } else {
                prepend_to_all(name@, discovered_from(entries@, 0))
            }
        },
    }
}

/// The repository paths discovered when traversal starts by listing
/// `root`'s entries.  The root's own name is never examined: discovery
/// reports what lies inside the given directory.
pub open spec fn spec_discovered(root: FsNode) -> Seq<Seq<Seq<char>>> {
    match root {
        FsNode::File { .. } => Seq::empty(),
        FsNode::Dir { name: _, entries } => discovered_from(entries@, 0),
    }
}

/// Whether `name` is the reserved metadata directory name.
fn is_metadata_name(name: &String) -> (r: bool)
    ensures
        r == (name@ == metadata_dir_name()),
{
    proof {
        reveal_strlit(".git");
    }
    let pattern: String = ".git".to_owned();
    assert(pattern@ =~= metadata_dir_name());
    *name == pattern
}

/// Copies `path` with the component `name` put in front.
fn prepend_component(name: &String, path: &RepoPath) -> (r: RepoPath)
    ensures
        r@ == seq![name@] + path@,
{
    let mut components: Vec<String> = Vec::new();
    components.push(name.clone());
    let mut j: usize = 0;
    while j < path.components.len()
        invariant
            j <= path.components@.len(),
            components@.len() == j + 1,
            components@.map_values(|c: String| c@) =~= (seq![name@] + path@).subrange(
                0,
                j + 1 as int,
            ),
        decreases path.components@.len() - j,
    {
        components.push(path.components[j].clone());
        assert(components@.map_values(|c: String| c@) =~= (seq![name@] + path@).subrange(
            0,
            j + 2 as int,
        ));
        j = j + 1;
    }
    let r = RepoPath { components };
    assert(r@ =~= seq![name@] + path@);
    r
}

/// The discovery pass over one entry vector: records every metadata
/// directory it meets, walks into every other directory, and skips files.
fn find_in_entries(entries: &Vec<FsNode>) -> (r: Vec<RepoPath>)
    ensures
        path_views(r@) == discovered_from(entries@, 0),
    decreases entries@,
{
    let mut found: Vec<RepoPath> = Vec::new();
    let mut i: usize = 0;
    while i < entries.len()
        invariant
            i <= entries@.len(),
            discovered_from(entries@, 0) =~= path_views(found@) + discovered_from(
                entries@,
                i as int,
            ),
        decreases entries@.len() - i,
    {
        let ghost pre = path_views(found@);
        match &entries[i] {
            FsNode::File { name: _ } => {
                assert(path_views(found@) =~= pre + discovered_under(entries@[i as int]));
            },
            FsNode::Dir { name, entries: children } => {
                if is_metadata_name(name) {
                    let mut components: Vec<String> = Vec::new();
                    components.push(name.clone());
                    let path = RepoPath { components };
                    assert(path@ =~= seq![name@]);
                    found.push(path);
                    assert(path_views(found@) =~= pre + discovered_under(entries@[i as int]));
                } else {
                    let below = find_in_entries(children);
                    let ghost target = prepend_to_all(name@, discovered_from(children@, 0));
                    let mut k: usize = 0;
                    while k < below.len()
                        invariant
                            k <= below@.len(),
                            path_views(below@) == discovered_from(children@, 0),
                            target == prepend_to_all(name@, discovered_from(children@, 0)),
                            target.len() == below@.len(),
                            path_views(found@) =~~= pre + target.subrange(0, k as int),
                        decreases below@.len() - k,
                    {
                        let extended = prepend_component(name, &below[k]);
                        let ghost before = found@;
                        found.push(extended);
                        assert(path_views(found@) =~~= path_views(before).push(extended@));
                        assert(path_views(below@)[k as int] == below@[k as int]@);
                        assert(extended@ == target[k as int]);
                        assert(target.subrange(0, k + 1 as int) =~~= target.subrange(
                            0,
                            k as int,
                        ).push(target[k as int]));
                        assert(path_views(found@) =~~= pre + target.subrange(0, k + 1 as int));
                        k = k + 1;
                    }
                    assert(target.subrange(0, target.len() as int) =~= target);
                    assert(path_views(found@) =~= pre + discovered_under(entries@[i as int]));
                }
            },
        }
        i = i + 1;
    }
    assert(discovered_from(entries@, i as int) =~= Seq::<Seq<Seq<char>>>::empty());
    assert(path_views(found@) =~= discovered_from(entries@, 0));
    found
}

/// Discovers every repository under `root`: the path of each metadata
/// directory met on a depth-first walk of the tree, as components below
/// `root`, in traversal order.
pub fn find_repositories(root: &FsNode) -> (r: Vec<RepoPath>)
    requires
        root is Dir,
    ensures
        path_views(r@) == spec_discovered(*root),
{
    match root {
        FsNode::Dir { name: _, entries } => find_in_entries(entries),
        FsNode::File { name: _ } => Vec::new(),
    }
}

/// How many metadata directories `entries[i ..]` hold anywhere, nested
/// ones included.
pub open spec fn metadata_count_from(entries: Seq<FsNode>, i: int) -> nat
    decreases entries, entries.len() - i,
{
    if i < 0 || i >= entries.len() {
        0
    } else {
        metadata_count_under(entries[i]) + metadata_count_from(entries, i + 1)
    }
}

/// How many metadata directories `node` holds anywhere, itself included.
pub open spec fn metadata_count_under(node: FsNode) -> nat
    decreases node, 0int,
{
    match node {
        FsNode::File { .. } => 0,
        FsNode::Dir { name, entries } => (if name@ == metadata_dir_name() {
            1nat
        } else {
            0nat
        }) + metadata_count_from(entries@, 0),
    }
}

proof fn lemma_discovered_count_under(node: FsNode)
    ensures
        metadata_count_under(node) == 0 ==> discovered_under(node).len() == 0,
        metadata_count_under(node) == 1 ==> discovered_under(node).len() == 1,
    decreases node, 0int,
{
    match node {
        FsNode::File { .. } => {
        },
        FsNode::Dir { name, entries } => {
            lemma_discovered_count_from(entries@, 0);
        },
    }
}

proof fn lemma_discovered_count_from(entries: Seq<FsNode>, i: int)
    ensures
        metadata_count_from(entries, i) == 0 ==> discovered_from(entries, i).len() == 0,
        metadata_count_from(entries, i) == 1 ==> discovered_from(entries, i).len() == 1,
    decreases entries, entries.len() - i,
{
    if 0 <= i < entries.len() {
        lemma_discovered_count_under(entries[i]);
        lemma_discovered_count_from(entries, i + 1);
    }
}

/// A tree holding exactly one metadata directory — at whatever depth,
/// and among whatever files and other directories — yields exactly one
/// discovered root.
pub proof fn lemma_single_metadata_gives_single_root(root: FsNode)
    requires
        root is Dir,
        metadata_count_from(root->Dir_entries@, 0) == 1,
    ensures
        spec_discovered(root).len() == 1,
{
    lemma_discovered_count_from(root->Dir_entries@, 0);
}

/// A tree holding no metadata directory anywhere yields no roots at
/// all.
pub proof fn lemma_no_metadata_gives_no_roots(root: FsNode)
    requires
        root is Dir,
        metadata_count_from(root->Dir_entries@, 0) == 0,
    ensures
        spec_discovered(root).len() == 0,
{
    lemma_discovered_count_from(root->Dir_entries@, 0);
}

/// A located metadata directory is terminal.  Whatever it holds —
/// even a nested fake metadata directory — it contributes exactly one
/// root, its own, so its contents can never add a second one.
pub proof fn lemma_metadata_dir_never_entered(
    name: String,
    inside: Vec<FsNode>,
    other: Vec<FsNode>,
)
    requires
        name@ == metadata_dir_name(),
    ensures
        discovered_under(FsNode::Dir { name, entries: inside }) == discovered_under(
            FsNode::Dir { name, entries: other },
        ),
        discovered_under(FsNode::Dir { name, entries: inside }) == seq![seq![name@]],
{
}

} // verus!

//! Commit-count attribution over a repository's object store.
//!
//! Every object of the store is inspected exactly once; only objects of
//! kind commit move the counters.  A commit always raises the total; it
//! raises the matching count exactly when its committer record begins with
//! the expected prefix built from the target identity.

use vstd::prelude::*;

use crate::commit::build_commit_prefix;
use crate::commit::commit_matches;
use crate::commit::expected_prefix;
use crate::commit::spec_commit_matches;
use crate::git_store;
use crate::git_store::lossy_decoding;

verus! {

/// The kind of an object held in a repository's object store.
#[derive(Clone, Copy, Debug, PartialEq, Eq, Structural)]
pub enum ObjectKind {
    /// A commit object; the only kind that participates in attribution.
    Commit,
    /// A tree object.
    Tree,
    /// A blob object.
    Blob,
    /// An annotated tag object.
    Tag,
    /// Any other kind the store may hold now or in the future.
    Other,
}

/// One inspected object, as the counters see it: its kind and the decoded
/// text of its body.
pub type ObjectView = (ObjectKind, Seq<char>);

/// How many of the objects are commits.
pub open spec fn total_count(objs: Seq<ObjectView>) -> nat
    decreases objs.len(),
{
    if objs.len() == 0 {
        0
    } else {
        total_count(objs.drop_last()) + if objs.last().0 is Commit {
            1nat
        } else {
            0nat
        }
    }
}

/// How many of the objects are commits whose committer record begins with
/// `prefix`.
pub open spec fn matching_count(objs: Seq<ObjectView>, prefix: Seq<char>) -> nat
    decreases objs.len(),
{
    if objs.len() == 0 {
        0
    } else {
        matching_count(objs.drop_last(), prefix) + if objs.last().0 is Commit
            && spec_commit_matches(objs.last().1, prefix) {
            1nat
        } else {
            0nat
        }
    }
}

/// Inspecting one more object raises the total exactly when the object is
/// a commit, and the matching count exactly when it is a commit whose
/// committer record begins with `prefix`.
pub proof fn lemma_counts_push(objs: Seq<ObjectView>, obj: ObjectView, prefix: Seq<char>)
    ensures
        total_count(objs.push(obj)) == total_count(objs) + if obj.0 is Commit {
            1nat
        } else {
            0nat
        },
        matching_count(objs.push(obj), prefix) == matching_count(objs, prefix) + if obj.0 is Commit
            && spec_commit_matches(obj.1, prefix) {
            1nat
        } else {
            0nat
        },
{
    assert(objs.push(obj).drop_last() =~= objs);
    assert(objs.push(obj).last() == obj);
}

/// Matching commits never outnumber commits: for every object sequence and
/// every prefix, `matching_count` is at most `total_count`.
pub proof fn lemma_matching_at_most_total(objs: Seq<ObjectView>, prefix: Seq<char>)
    ensures
        matching_count(objs, prefix) <= total_count(objs),
    decreases objs.len(),
{
    if objs.len() > 0 {
        lemma_matching_at_most_total(objs.drop_last(), prefix);
    }
}

/// Objects of any kind but commit leave both counters exactly where they
/// were.
pub proof fn lemma_non_commit_leaves_counts(objs: Seq<ObjectView>, obj: ObjectView, prefix: Seq<
    char,
>)
    requires
        !(obj.0 is Commit),
    ensures
        total_count(objs.push(obj)) == total_count(objs),
        matching_count(objs.push(obj), prefix) == matching_count(objs, prefix),
{
    lemma_counts_push(objs, obj, prefix);
}

/// A commit with no committer record raises the total but never the
/// matching count, whatever identity the prefix was built from.
pub proof fn lemma_no_committer_line_never_matches(
    objs: Seq<ObjectView>,
    body: Seq<char>,
    name: Seq<char>,
    email: Seq<char>,
)
    requires
        crate::commit::spec_committer_line(body) is None,
    ensures
        total_count(objs.push((ObjectKind::Commit, body))) == total_count(objs) + 1,
        matching_count(objs.push((ObjectKind::Commit, body)), expected_prefix(name, email))
            == matching_count(objs, expected_prefix(name, email)),
{
    lemma_counts_push(objs, (ObjectKind::Commit, body), expected_prefix(name, email));
}

/// The outcome of one repository analysis: the repository's path and the
/// two counters.  `matching_commits` never exceeds `total_commits`.
#[derive(Debug)]
pub struct AnalysisResult {
    /// The path the repository was opened at.
    pub path: String,
    /// How many commit objects the store holds.
    pub total_commits: u64,
    /// How many of them are attributed to the target identity.
    pub matching_commits: u64,
}

/// The contribution ratio of one repository.  A repository without commits
/// has no ratio at all; the state says so explicitly instead of passing off
/// a number.
#[derive(Clone, Copy, Debug, PartialEq, Eq, Structural)]
pub enum ContributionRatio {
    /// The store holds no commits, so no ratio is defined.
    Undefined,
    /// The ratio `matching / total`, kept as the exact pair.
    Defined { matching: u64, total: u64 },
}

impl AnalysisResult {
    /// The counters are consistent: no more matching commits than commits.
    pub open spec fn wf(self) -> bool {
        self.matching_commits <= self.total_commits
    }

    /// The repository's contribution ratio: undefined exactly when the
    /// store holds no commits, and otherwise the exact fraction
    /// `matching_commits / total_commits`.
    pub fn contribution_ratio(&self) -> (r: ContributionRatio)
        ensures
            self.total_commits == 0 <==> r is Undefined,
            self.total_commits > 0 ==> r == (ContributionRatio::Defined {
                matching: self.matching_commits,
                total: self.total_commits,
            }),
    {
        if self.total_commits == 0 {
            ContributionRatio::Undefined
        } else {
            ContributionRatio::Defined { matching: self.matching_commits, total: self.total_commits }
        }
    }
}

/// Why one repository's analysis failed.  Either failure is confined to
/// its repository: a batch run reports it and moves on.
#[derive(Debug)]
pub enum AnalysisError {
    /// The path could not be opened as a repository.
    RepositoryOpen { message: String },
    /// The object store failed while being enumerated or read.
    ObjectRead { message: String },
}

impl AnalysisError {
    /// A short human-readable account of the failure.
    pub fn describe(&self) -> (r: &String)
        ensures
            self is RepositoryOpen ==> r@ == self->RepositoryOpen_message@,
            self is ObjectRead ==> r@ == self->ObjectRead_message@,
    {
        match self {
            AnalysisError::RepositoryOpen { message } => message,
            AnalysisError::ObjectRead { message } => message,
        }
    }
}

/// The decoded views of raw store objects: each body seen through lossy
/// UTF-8 decoding, its kind unchanged.
pub open spec fn raw_views(objects: Seq<(ObjectKind, Vec<u8>)>) -> Seq<ObjectView> {
    objects.map_values(|o: (ObjectKind, Vec<u8>)| (o.0, lossy_decoding(o.1@)))
}

/// The counting pass over a store's raw contents: the exact pair of how
/// many objects are commits, and how many of those commits carry a
/// committer record beginning with `prefix`.  Every object is inspected
/// exactly once; the order of `objects` cannot change either count.
pub fn count_objects(objects: &Vec<(ObjectKind, Vec<u8>)>, prefix: &Vec<char>) -> (r: (u64, u64))
    ensures
        r.0 == total_count(raw_views(objects@)),
        r.1 == matching_count(raw_views(objects@), prefix@),
        r.1 <= r.0,
{
    let ghost all = raw_views(objects@);
    let mut total: u64 = 0;
    let mut matching: u64 = 0;
    let mut idx: usize = 0;
    while idx < objects.len()
        invariant
            idx <= objects@.len(),
            all == raw_views(objects@),
            all.len() == objects@.len(),
            total == total_count(all.subrange(0, idx as int)),
            matching == matching_count(all.subrange(0, idx as int), prefix@),
            matching <= total,
            total <= idx,
        decreases objects@.len() - idx,
    {
        let ghost seen = all.subrange(0, idx as int);
        let (kind, data) = &objects[idx];
        let is_commit = *kind == ObjectKind::Commit;
        proof {
            assert(all[idx as int] == (objects@[idx as int].0, lossy_decoding(
                objects@[idx as int].1@,
            )));
            assert(all.subrange(0, idx + 1 as int) =~= seen.push(all[idx as int]));
            lemma_counts_push(seen, all[idx as int], prefix@);
        }
        if is_commit {
            let text = git_store::decode_lossy(data);
            let text_chars = crate::commit::str_chars(text.as_str());
            let matches_identity = commit_matches(&text_chars, prefix);
            total = total + 1;
            if matches_identity {
                matching = matching + 1;
            }
        }
        idx = idx + 1;
    }
    proof {
        assert(all.subrange(0, idx as int) =~= all);
        lemma_matching_at_most_total(all, prefix@);
    }
    (total, matching)
}

/// Analyzes one repository: opens its object store read-only, reads every
/// object exactly once, and tallies total against matching commits for
/// the identity `(name, email)`.
///
/// Failures stay confined to this repository: an unopenable path comes
/// back as `RepositoryOpen`, a store that fails while being listed or
/// read as `ObjectRead`.
pub fn analyze_repository(path: &str, name: &str, email: &str) -> (r: Result<
    AnalysisResult,
    AnalysisError,
>)
    ensures
        r matches Ok(a) ==> {
            &&& a.path@ == path@
            &&& a.wf()
            &&& exists|objs: Seq<(ObjectKind, Vec<u8>)>|
                a.total_commits == total_count(#[trigger] raw_views(objs)) && a.matching_commits
                    == matching_count(raw_views(objs), expected_prefix(name@, email@))
        },
{
    let repo = match git_store::repo_open(path) {
        Ok(repo) => repo,
        Err(e) => {
            return Err(AnalysisError::RepositoryOpen { message: git_store::error_message(&e) });
        },
    };
    let odb = match git_store::repo_odb(&repo) {
        Ok(odb) => odb,
        Err(e) => {
            return Err(AnalysisError::RepositoryOpen { message: git_store::error_message(&e) });
        },
    };
    let ids = match git_store::odb_object_ids(&odb) {
        Ok(ids) => ids,
        Err(e) => {
            return Err(AnalysisError::ObjectRead { message: git_store::error_message(&e) });
        },
    };
    let mut objects: Vec<(ObjectKind, Vec<u8>)> = Vec::new();
    let mut idx: usize = 0;
    while idx < ids.len()
        invariant
            idx <= ids@.len(),
        decreases ids@.len() - idx,
    {
        match git_store::odb_read_object(&odb, &ids[idx]) {
            Ok(obj) => objects.push(obj),
            Err(e) => {
                return Err(AnalysisError::ObjectRead { message: git_store::error_message(&e) });
            },
        }
        idx = idx + 1;
    }
    let prefix = build_commit_prefix(name, email);
    let (total, matching) = count_objects(&objects, &prefix);
    Ok(AnalysisResult { path: path.to_owned(), total_commits: total, matching_commits: matching })
}

/// Analyzes every repository of the batch independently: one result per
/// path, in the same order, a failure of one repository never touching its
/// siblings.
pub fn analyze_repositories(paths: &Vec<String>, name: &str, email: &str) -> (r: Vec<
    Result<AnalysisResult, AnalysisError>,
>)
    ensures
        r@.len() == paths@.len(),
        forall|i: int|
            0 <= i < r@.len() ==> (#[trigger] r@[i] matches Ok(a) ==> a.path@ == paths@[i]@
                && a.wf()),
{
    let mut results: Vec<Result<AnalysisResult, AnalysisError>> = Vec::new();
    let mut idx: usize = 0;
    while idx < paths.len()
        invariant
            idx <= paths@.len(),
            results@.len() == idx,
            forall|i: int|
                0 <= i < idx ==> (#[trigger] results@[i] matches Ok(a) ==> a.path@ == paths@[i]@
                    && a.wf()),
        decreases paths@.len() - idx,
    {
        results.push(analyze_repository(paths[idx].as_str(), name, email));
        idx = idx + 1;
    }
    results
}

} // verus!

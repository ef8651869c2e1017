//! Parsing and matching of the committer record inside a commit object's
//! text body.
//!
//! A commit body is a sequence of newline-separated lines.  The first line
//! whose leading characters are the literal marker `committer` is the
//! authoritative committer record; a commit is attributed to an identity
//! `(name, email)` exactly when that record starts with the literal text
//! `committer {name} <{email}>` — byte for byte, case-sensitive, with no
//! normalization.

use vstd::prelude::*;
use vstd::string::StrSliceExecFns;

verus! {

/// The characters of the literal marker `committer`.
pub open spec fn committer_marker() -> Seq<char> {
    seq!['c', 'o', 'm', 'm', 'i', 't', 't', 'e', 'r']
}

/// The expected leading text of a matching committer record:
/// `committer {name} <{email}>`.
pub open spec fn expected_prefix(name: Seq<char>, email: Seq<char>) -> Seq<char> {
    committer_marker() + seq![' '] + name + seq![' ', '<'] + email + seq!['>']
}

/// `s` begins with `prefix`.
pub open spec fn starts_with(s: Seq<char>, prefix: Seq<char>) -> bool {
    prefix.len() <= s.len() && s.subrange(0, prefix.len() as int) == prefix
}

/// The index of the first newline at or after `i`, or `s.len()` if the rest
/// of `s` holds none.
pub open spec fn line_end(s: Seq<char>, i: int) -> int
    recommends
        0 <= i <= s.len(),
    decreases s.len() - i,
{
    if i < 0 || i >= s.len() {
        s.len() as int
    } else if s[i] == '\n' {
        i
    } else {
        line_end(s, i + 1)
    }
}

/// Position `i` is taken as the start of a line; the result is the first
/// line at or after it that begins with the committer marker, or `None`
/// when no remaining line does.
pub open spec fn committer_line_from(s: Seq<char>, i: int) -> Option<Seq<char>>
    recommends
        0 <= i <= s.len(),
    decreases s.len() - i,
    via committer_line_from_decreases
{
    if i < 0 || i > s.len() {
        None
    } else {
        let e = line_end(s, i);
        let line = s.subrange(i, e);
        if starts_with(line, committer_marker()) {
            Some(line)
        } else if e >= s.len() {
            None
        } else {
            committer_line_from(s, e + 1)
        }
    }
}

/// The authoritative committer record of a commit body: the first line that
/// begins with the committer marker.
pub open spec fn spec_committer_line(s: Seq<char>) -> Option<Seq<char>> {
    committer_line_from(s, 0)
}

/// A commit body matches `prefix` exactly when its committer record exists
/// and begins with `prefix`.
pub open spec fn spec_commit_matches(s: Seq<char>, prefix: Seq<char>) -> bool {
    match spec_committer_line(s) {
        Some(line) => starts_with(line, prefix),
        None => false,
    }
}

/// Matching is exact and case-sensitive.  A line begins with a prefix
/// exactly when every character of the prefix stands unchanged, in order,
/// at the line's start — no normalization of case or whitespace.
pub proof fn lemma_starts_with_characters(s: Seq<char>, prefix: Seq<char>)
    ensures
        starts_with(s, prefix) <==> (prefix.len() <= s.len() && forall|j: int|
            0 <= j < prefix.len() ==> s[j] == prefix[j]),
{
    if prefix.len() <= s.len() {
        if forall|j: int| 0 <= j < prefix.len() ==> s[j] == prefix[j] {
            assert(s.subrange(0, prefix.len() as int) =~= prefix);
        }
        if starts_with(s, prefix) {
            assert forall|j: int| 0 <= j < prefix.len() implies s[j] == prefix[j] by {
                assert(prefix[j] == s.subrange(0, prefix.len() as int)[j]);
            }
        }
    }
}

#[via_fn]
proof fn committer_line_from_decreases(s: Seq<char>, i: int) {
    if 0 <= i <= s.len() {
        lemma_line_end_bounds(s, i);
    }
}

/// `line_end` stays within `[i, s.len()]`, everything before it on the line
/// is not a newline, and it points at a newline unless it is `s.len()`.
pub proof fn lemma_line_end_bounds(s: Seq<char>, i: int)
    requires
        0 <= i <= s.len(),
    ensures
        i <= line_end(s, i) <= s.len(),
        forall|j: int| i <= j < line_end(s, i) ==> s[j] != '\n',
        line_end(s, i) < s.len() ==> s[line_end(s, i)] == '\n',
    decreases s.len() - i,
{
    if i < s.len() && s[i] != '\n' {
        lemma_line_end_bounds(s, i + 1);
    }
}

/// Finds the end of the line that starts at `start`: the index of the next
/// newline, or the length of `data` when the line is the last one.
fn find_line_end(data: &Vec<char>, start: usize) -> (r: usize)
    requires
        start <= data@.len(),
    ensures
        r == line_end(data@, start as int),
{
    let mut i: usize = start;
    while i < data.len()
        invariant
            start <= i <= data@.len(),
            line_end(data@, start as int) == line_end(data@, i as int),
        decreases data@.len() - i,
    {
        if data[i] == '\n' {
            return i;
        }
        i = i + 1;
    }
    i
}

/// Whether the characters `data[start .. end]` begin with `prefix`.
fn slice_starts_with(data: &Vec<char>, start: usize, end: usize, prefix: &Vec<char>) -> (r:
    bool)
    requires
        start <= end <= data@.len(),
    ensures
        r == starts_with(data@.subrange(start as int, end as int), prefix@),
{
    if end - start < prefix.len() {
        return false;
    }
    let mut j: usize = 0;
    while j < prefix.len()
        invariant
            0 <= j <= prefix@.len(),
            prefix@.len() <= end - start <= data@.len() - start,
            start <= end <= data@.len(),
            forall|k: int| 0 <= k < j ==> data@[start + k] == prefix@[k],
        decreases prefix@.len() - j,
    {
        if data[start + j] != prefix[j] {
            assert(data@.subrange(start as int, end as int)[j as int] != prefix@[j as int]);
            return false;
        }
        j = j + 1;
    }
    assert(data@.subrange(start as int, end as int).subrange(0, prefix@.len() as int) =~= prefix@);
    true
}

/// The executable marker `committer` as a character vector.
fn committer_marker_chars() -> (r: Vec<char>)
    ensures
        r@ == committer_marker(),
{
    let mut v: Vec<char> = Vec::new();
    v.push('c');
    v.push('o');
    v.push('m');
    v.push('m');
    v.push('i');
    v.push('t');
    v.push('t');
    v.push('e');
    v.push('r');
    assert(v@ =~= committer_marker());
    v
}

/// Extracts the authoritative committer record of a commit body: the first
/// line beginning with the literal marker `committer`, or `None` when no
/// line does.
pub fn extract_committer_line(data: &Vec<char>) -> (r: Option<Vec<char>>)
    ensures
        match r {
            Some(line) => spec_committer_line(data@) == Some(line@),
            None => spec_committer_line(data@) is None,
        },
{
    let marker = committer_marker_chars();
    let mut i: usize = 0;
    loop
        invariant
            0 <= i <= data@.len(),
            marker@ == committer_marker(),
            spec_committer_line(data@) == committer_line_from(data@, i as int),
        decreases data@.len() - i,
    {
        let e = find_line_end(data, i);
        proof {
            lemma_line_end_bounds(data@, i as int);
        }
        if slice_starts_with(data, i, e, &marker) {
            let mut line: Vec<char> = Vec::new();
            let mut j: usize = i;
            while j < e
                invariant
                    i <= j <= e <= data@.len(),
                    line@ =~= data@.subrange(i as int, j as int),
                decreases e - j,
            {
                line.push(data[j]);
                j = j + 1;
            }
            assert(line@ =~= data@.subrange(i as int, e as int));
            return Some(line);
        }
        if e == data.len() {
            return None;
        }
        i = e + 1;
    }
}

/// Appends every character of `s` to `out`.
fn append_str_chars(out: &mut Vec<char>, s: &str)
    ensures
        final(out)@ == old(out)@ + s@,
{
    let n = s.unicode_len();
    let mut i: usize = 0;
    while i < n
        invariant
            n == s@.len(),
            0 <= i <= n,
            out@ == old(out)@ + s@.subrange(0, i as int),
        decreases n - i,
    {
        out.push(s.get_char(i));
        assert(out@ =~= old(out)@ + s@.subrange(0, i + 1 as int));
        i = i + 1;
    }
    assert(out@ =~= old(out)@ + s@);
}

/// The characters of `s`, as a vector.
pub fn str_chars(s: &str) -> (r: Vec<char>)
    ensures
        r@ == s@,
{
    let mut v: Vec<char> = Vec::new();
    append_str_chars(&mut v, s);
    v
}

/// Builds the expected leading text of a matching committer record,
/// `committer {name} <{email}>`, as a character vector.
pub fn build_commit_prefix(name: &str, email: &str) -> (r: Vec<char>)
    ensures
        r@ == expected_prefix(name@, email@),
{
    let mut v = committer_marker_chars();
    v.push(' ');
    append_str_chars(&mut v, name);
    v.push(' ');
    v.push('<');
    append_str_chars(&mut v, email);
    v.push('>');
    assert(v@ =~= expected_prefix(name@, email@));
    v
}

/// Whether a commit body is attributed to the identity whose expected
/// record prefix is `prefix`: its committer record exists and begins with
/// `prefix`.
pub fn commit_matches(data: &Vec<char>, prefix: &Vec<char>) -> (r: bool)
    ensures
        r == spec_commit_matches(data@, prefix@),
{
    match extract_committer_line(data) {
        Some(line) => {
            assert(line@.subrange(0, line@.len() as int) =~= line@);
            slice_starts_with(&line, 0, line.len(), prefix)
        },
        None => false,
    }
}

} // verus!

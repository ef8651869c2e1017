//! The trusted boundary to a repository's object store.
//!
//! Everything here either declares a type of the git2 crate or wraps one of
//! its calls (or one std decoding call) behind a contract that Verus takes
//! on trust.  All decisions about what the bytes mean are made elsewhere,
//! in verified code.

use vstd::prelude::*;

use crate::analysis::ObjectKind;

verus! {

#[verifier::external_type_specification]
#[verifier::external_body]
pub struct ExRepository(git2::Repository);

#[verifier::external_type_specification]
#[verifier::external_body]
pub struct ExOdb<'repo>(git2::Odb<'repo>);

#[verifier::external_type_specification]
#[verifier::external_body]
pub struct ExGitError(git2::Error);

#[verifier::external_type_specification]
#[verifier::external_body]
pub struct ExOid(git2::Oid);

/// The text that lossy UTF-8 decoding turns a byte sequence into: a
/// function of the bytes alone.
pub uninterp spec fn lossy_decoding(bytes: Seq<u8>) -> Seq<char>;

/// Relies on git2::Repository::open: attempts to open an already-existing
/// repository at the path, and returns an error when there is none.
#[verifier::external_body]
pub(crate) fn repo_open(path: &str) -> Result<git2::Repository, git2::Error> {
    git2::Repository::open(path)
}

/// Relies on git2::Repository::odb: returns a read handle to the
/// repository's object database.
#[verifier::external_body]
pub(crate) fn repo_odb<'repo>(repo: &'repo git2::Repository) -> Result<
    git2::Odb<'repo>,
    git2::Error,
> {
    repo.odb()
}

/// Relies on git2::Odb::foreach: hands the closure every object id in the
/// database exactly once, in no promised order; the ids are collected as
/// they come.
#[verifier::external_body]
pub(crate) fn odb_object_ids(odb: &git2::Odb<'_>) -> Result<Vec<git2::Oid>, git2::Error> {
    let mut ids: Vec<git2::Oid> = Vec::new();
    odb.foreach(|oid: &git2::Oid| {
        ids.push(*oid);
        true
    })?;
    Ok(ids)
}

/// Relies on git2::Odb::read, git2::OdbObject::kind and
/// git2::OdbObject::data: reads one object and hands back its kind, each
/// variant mapped to this crate's kind, and its raw bytes.
#[verifier::external_body]
pub(crate) fn odb_read_object(odb: &git2::Odb<'_>, oid: &git2::Oid) -> Result<
    (ObjectKind, Vec<u8>),
    git2::Error,
> {
    let obj = odb.read(*oid)?;
    let kind = match obj.kind() {
        git2::ObjectType::Commit => ObjectKind::Commit,
        git2::ObjectType::Tree => ObjectKind::Tree,
        git2::ObjectType::Blob => ObjectKind::Blob,
        git2::ObjectType::Tag => ObjectKind::Tag,
        git2::ObjectType::Any => ObjectKind::Other,
    };
    Ok((kind, obj.data().to_vec()))
}

/// Relies on git2::Error::message: a human-readable account of the error.
#[verifier::external_body]
pub(crate) fn error_message(e: &git2::Error) -> String {
    e.message().to_owned()
}

/// Relies on String::from_utf8_lossy: decodes the bytes as UTF-8, mapping
/// every invalid sequence to the replacement character, so that one
/// malformed object cannot abort a scan; the result depends on the bytes
/// alone.
#[verifier::external_body]
pub(crate) fn decode_lossy(bytes: &Vec<u8>) -> (r: String)
    ensures
        r@ == lossy_decoding(bytes@),
{
    String::from_utf8_lossy(bytes).into_owned()
}

} // verus!

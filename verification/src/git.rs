//! The calls into `git2` that this library makes.
//!
//! A repository is read from disk, so two calls may answer differently.
//! Hence the types of `git2` are opaque here, and of what its functions
//! return nothing is claimed but where a contract says so: the code that
//! calls them is verified for every answer. The comment on each item names
//! the function of `git2` and says what it is called for.
use crate::commit::{is_full_id, is_readable_id, CommitId};
use vstd::prelude::*;

verus! {

/// `git2::Repository`: a repository that was opened. Opaque.
#[verifier::external_type_specification]
#[verifier::external_body]
pub struct ExRepository(git2::Repository);

/// `git2::Reference`: a reference as it was read. Opaque.
#[verifier::external_type_specification]
#[verifier::external_body]
pub struct ExReference<'repo>(git2::Reference<'repo>);

/// `git2::References`: a cursor over references. Opaque.
#[verifier::external_type_specification]
#[verifier::external_body]
pub struct ExReferences<'repo>(git2::References<'repo>);

/// `git2::Remote`: a configured remote. Opaque.
#[verifier::external_type_specification]
#[verifier::external_body]
pub struct ExRemote<'repo>(git2::Remote<'repo>);

/// `git2::Buf`: a buffer of bytes that `git2` hands out. Opaque.
#[verifier::external_type_specification]
#[verifier::external_body]
pub struct ExBuf(git2::Buf);

/// `git2::Revwalk`: a walk over the history. Opaque.
#[verifier::external_type_specification]
#[verifier::external_body]
pub struct ExRevwalk<'repo>(git2::Revwalk<'repo>);

/// `git2::Commit`: a commit as it was read. Opaque.
#[verifier::external_type_specification]
#[verifier::external_body]
pub struct ExCommit<'repo>(git2::Commit<'repo>);

/// `git2::Oid`: the identifier of an object. Opaque.
#[verifier::external_type_specification]
#[verifier::external_body]
pub struct ExOid(git2::Oid);

/// `git2::Error`: what went wrong in `git2`. Opaque.
#[verifier::external_type_specification]
#[verifier::external_body]
pub struct ExError(git2::Error);

/// `Repository::find_reference`, called for the reference of exactly this
/// name. No claim on the answer.
pub assume_specification<'repo>[ git2::Repository::find_reference ](
    repo: &'repo git2::Repository,
    name: &str,
) -> (r: Result<git2::Reference<'repo>, git2::Error>)
;

/// `Repository::find_remote`, called for the configured remote of this
/// name. No claim on the answer.
pub assume_specification<'repo>[ git2::Repository::find_remote ](
    repo: &'repo git2::Repository,
    name: &str,
) -> (r: Result<git2::Remote<'repo>, git2::Error>)
;

/// `Repository::head`, called for the reference that HEAD resolves to. No
/// claim on the answer.
pub assume_specification<'repo>[ git2::Repository::head ](repo: &'repo git2::Repository) -> (r:
    Result<git2::Reference<'repo>, git2::Error>)
;

/// `Repository::references_glob`, called for a cursor over the references
/// whose names match `glob`. No claim on the answer.
pub assume_specification<'repo>[ git2::Repository::references_glob ](
    repo: &'repo git2::Repository,
    glob: &str,
) -> (r: Result<git2::References<'repo>, git2::Error>)
;

/// `Iterator::next` of `References`, called for the next reference, a
/// failure, or the end. No claim on the answer.
pub assume_specification<'repo>[ <git2::References<'repo> as Iterator>::next ](
    listing: &mut git2::References<'repo>,
) -> (r: Option<Result<git2::Reference<'repo>, git2::Error>>)
;

/// `Repository::merge_base`, called for a best common ancestor of two
/// commits; it answers with an error where there is none. No claim on the
/// answer.
pub assume_specification[ git2::Repository::merge_base ](
    repo: &git2::Repository,
    one: git2::Oid,
    two: git2::Oid,
) -> (r: Result<git2::Oid, git2::Error>)
;

/// `Repository::revwalk`, called for a fresh history walk. No claim on the
/// answer.
pub assume_specification<'repo>[ git2::Repository::revwalk ](repo: &'repo git2::Repository) -> (r:
    Result<git2::Revwalk<'repo>, git2::Error>)
;

/// `Revwalk::push`, called to mark a commit to start the walk from. No
/// claim on the answer.
pub assume_specification<'repo>[ git2::Revwalk::<'repo>::push ](
    walk: &mut git2::Revwalk<'repo>,
    oid: git2::Oid,
) -> (r: Result<(), git2::Error>)
;

/// `Iterator::next` of `Revwalk`, called for the next commit of the walk, a
/// failure, or the end. No claim on the answer.
pub assume_specification<'repo>[ <git2::Revwalk<'repo> as Iterator>::next ](
    walk: &mut git2::Revwalk<'repo>,
) -> (r: Option<Result<git2::Oid, git2::Error>>)
;

/// `Repository::find_commit`, called for the commit of this identifier. No
/// claim on the answer.
pub assume_specification<'repo>[ git2::Repository::find_commit ](
    repo: &'repo git2::Repository,
    oid: git2::Oid,
) -> (r: Result<git2::Commit<'repo>, git2::Error>)
;

/// `Reference::symbolic_target`, called for the name that a symbolic
/// reference points to; it answers `None` for a direct reference and for a
/// name that is not valid UTF-8. No claim on the answer.
pub assume_specification<'repo, 'a>[ git2::Reference::<'repo>::symbolic_target ](
    reference: &'a git2::Reference<'repo>,
) -> (r: Option<&'a str>)
;

/// `Reference::target`, called for the object that a direct reference
/// points to. No claim on the answer.
pub assume_specification<'repo>[ git2::Reference::<'repo>::target ](
    reference: &git2::Reference<'repo>,
) -> (r: Option<git2::Oid>)
;

/// `Reference::shorthand`, called for the short name of a reference; it
/// answers `None` where that is not valid UTF-8. No claim on the answer.
pub assume_specification<'repo, 'a>[ git2::Reference::<'repo>::shorthand ](
    reference: &'a git2::Reference<'repo>,
) -> (r: Option<&'a str>)
;

/// `Reference::name`, called for the full name of a reference; it answers
/// `None` where that is not valid UTF-8. No claim on the answer.
pub assume_specification<'repo, 'a>[ git2::Reference::<'repo>::name ](
    reference: &'a git2::Reference<'repo>,
) -> (r: Option<&'a str>)
;

/// `Reference::peel_to_commit`, called for the commit that a reference
/// leads to, through tag objects where there are any. No claim on the
/// answer.
pub assume_specification<'repo>[ git2::Reference::<'repo>::peel_to_commit ](
    reference: &git2::Reference<'repo>,
) -> (r: Result<git2::Commit<'repo>, git2::Error>)
;

/// `Remote::default_branch`, called for the default branch that the remote
/// advertised when it was connected to. No claim on the answer.
pub assume_specification<'repo>[ git2::Remote::<'repo>::default_branch ](
    remote: &git2::Remote<'repo>,
) -> (r: Result<git2::Buf, git2::Error>)
;

/// `Remote::url`, called for the remote's URL; it answers `None` where that
/// is not valid UTF-8. No claim on the answer.
pub assume_specification<'repo, 'a>[ git2::Remote::<'repo>::url ](
    remote: &'a git2::Remote<'repo>,
) -> (r: Option<&'a str>)
;

/// `Buf::as_str`, called for the buffer as text; it answers `None` where
/// that is not valid UTF-8. No claim on the answer.
pub assume_specification<'a>[ git2::Buf::as_str ](buf: &'a git2::Buf) -> (r: Option<&'a str>)
;

/// `Commit::id`, called for the identifier of a commit. No claim on the
/// answer.
pub assume_specification<'repo>[ git2::Commit::<'repo>::id ](
    commit: &git2::Commit<'repo>,
) -> (r: git2::Oid)
;

/// `Commit::message`, called for the message of a commit; it answers `None`
/// where that is not valid UTF-8. No claim on the answer.
pub assume_specification<'repo, 'a>[ git2::Commit::<'repo>::message ](
    commit: &'a git2::Commit<'repo>,
) -> (r: Option<&'a str>)
;

/// `Commit::parent_count`, called for the number of parents of a commit. No
/// claim on the answer.
pub assume_specification<'repo>[ git2::Commit::<'repo>::parent_count ](
    commit: &git2::Commit<'repo>,
) -> (r: usize)
;

/// `Commit::parent_id`, called for the identifier of the `i`-th parent; it
/// answers with an error where `i` is out of range. No claim on the answer.
pub assume_specification<'repo>[ git2::Commit::<'repo>::parent_id ](
    commit: &git2::Commit<'repo>,
    i: usize,
) -> (r: Result<git2::Oid, git2::Error>)
;

/// `Oid::from_str`, called for the identifier that hexadecimal text stands
/// for. The contract claims what its documentation says: it answers with an
/// error for text that is empty, longer than forty characters, or holds
/// anything but hexadecimal digits. No claim on what it answers otherwise.
pub assume_specification[ git2::Oid::from_str ](s: &str) -> (r: Result<git2::Oid, git2::Error>)
    ensures
        !is_readable_id(s@) ==> r is Err,
;

/// `Error::message`, called for what the error says. No claim on the answer.
pub assume_specification<'a>[ git2::Error::message ](error: &'a git2::Error) -> (r: &'a str)
;

/// `Revwalk::set_sorting` with `Sort::TIME`, called so that the walk goes by
/// commit time, latest first. No claim on the answer.
#[verifier::external_body]
pub(crate) fn sort_by_time(walk: &mut git2::Revwalk<'_>) -> (r: Result<(), git2::Error>)
{
    walk.set_sorting(git2::Sort::TIME)
}

/// `Revwalk::hide`, called so that the commit and all its ancestors are left
/// out of the walk. No claim on the answer.
#[verifier::external_body]
pub(crate) fn leave_out(walk: &mut git2::Revwalk<'_>, oid: git2::Oid) -> (r: Result<
    (),
    git2::Error,
>)
{
    let exclude = git2::Revwalk::hide;
    exclude(walk, oid)
}

/// `Display` of `Oid`, through `to_string`. The contract claims that the text
/// is a full identifier: forty hexadecimal digits, the letters among them in
/// lower case.
#[verifier::external_body]
pub(crate) fn hex_of(oid: git2::Oid) -> (r: String)
    ensures
        is_full_id(r@),
{
    oid.to_string()
}

/// A commit identifier as this library holds it.
pub(crate) fn commit_id_of(oid: git2::Oid) -> (r: CommitId)
    ensures
        is_full_id(r@),
{
    CommitId { hex: hex_of(oid) }
}

/// What the error says, as an owned text.
pub(crate) fn cause_of(error: &git2::Error) -> (r: String)
{
    error.message().to_owned()
}

} // verus!

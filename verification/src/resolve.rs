//! Resolving, in a repository, what a release is made of: the latest
//! semantic-version tag, the default branch, and the commits of that branch
//! which the tag does not reach.
//!
//! The repository is only read. What it answers cannot be known beforehand,
//! so the work is done in two steps throughout: one function asks the
//! repository and hands back the answers as they came, and one decides on
//! the answers alone. Those that decide stand in `tags`, `base` and `walk`,
//! with exact contracts; those that ask stand here, and say of their answers
//! what holds whatever the repository replied.
use crate::base::{
    base_from_origin_head, base_from_remote_default, base_from_search, is_full, is_full_base,
    local_branch_name, tracking_branch_name, BaseSearch, HeadLookup, HeadReference,
    OriginHeadLookup, RemoteDefaultLookup, ResolvedBase, ORIGIN, ORIGIN_HEAD,
};
use crate::commit::{is_full_id, is_readable_id, CommitId, CommitRecord};
use crate::error::{ResolveError, WalkStep};
use crate::git::{cause_of, commit_id_of, leave_out, sort_by_time};
use crate::remote_url::{org_and_repo, org_and_repo_from_url, RemoteUrlError, UrlProblem};
use crate::tags::{pick_from_listing, TagListing, TagPick};
use crate::walk::{walk_outcome, SetupFailure, WalkAnswers, WalkEnd};
use vstd::prelude::*;

verus! {

/// The pattern that all tag references match.
pub const TAG_PATTERN: &'static str = "refs/tags/*";

/// What stands for the name of a tag whose name cannot be read.
pub const UNNAMED: &'static str = "?";

/// The tags of a repository as they were listed: the short names, and the
/// references that they belong to.
pub struct TagScan<'repo> {
    pub listing: TagListing,
    /// The references, in the order of the names.
    pub references: Vec<git2::Reference<'repo>>,
}

impl<'repo> TagScan<'repo> {
    /// There is one reference to each name.
    pub open spec fn paired(self) -> bool {
        match self.listing {
            TagListing::Unavailable { .. } => self.references.len() == 0,
            TagListing::Listed { names, .. } => self.references.len() == names.len(),
        }
    }
}

/// A tag that stands for a semantic version.
pub struct TagCandidate<'repo> {
    /// Short name and version of the tag, and where it stood in the listing.
    pub pick: TagPick,
    /// The tag reference itself.
    pub reference: git2::Reference<'repo>,
}

/// The latest tag and the commits since it.
pub struct RangeResult<'repo> {
    pub tag: TagCandidate<'repo>,
    /// The commits, latest first.
    pub commits: Vec<CommitRecord>,
}

/// The commit that the reference `name` points at directly, if there is such
/// a reference and it does.
pub fn target_of(repo: &git2::Repository, name: &str) -> (r: Option<CommitId>)
    ensures
        is_full(r),
{
    match repo.find_reference(name) {
        Ok(reference) => match reference.target() {
            Some(oid) => Some(commit_id_of(oid)),
            None => None,
        },
        Err(_) => None,
    }
}

/// Lists the tags of the repository: every reference under the tag
/// namespace, with its short name. The listing ends at the first failure.
pub fn list_tags<'repo>(repo: &'repo git2::Repository) -> (scan: TagScan<'repo>)
    ensures
        scan.paired(),
{
    let mut cursor = match repo.references_glob(TAG_PATTERN) {
        Ok(cursor) => cursor,
        Err(e) => {
            return TagScan {
                listing: TagListing::Unavailable { cause: cause_of(&e) },
                references: Vec::new(),
            };
        },
    };
    let mut references: Vec<git2::Reference<'repo>> = Vec::new();
    let mut names: Vec<Option<String>> = Vec::new();
    let mut broke_off: Option<String> = None;
    loop
        invariant
            references.len() == names.len(),
        decreases usize::MAX - names.len(),
    {
        match cursor.next() {
            None => {
                break ;
            },
            Some(Err(e)) => {
                broke_off = Some(cause_of(&e));
                break ;
            },
            Some(Ok(reference)) => {
                let name = match reference.shorthand() {
                    Some(short) => Some(short.to_owned()),
                    None => None,
                };
                names.push(name);
                references.push(reference);
            },
        }
    }
    TagScan { listing: TagListing::Listed { names, broke_off }, references }
}

/// The latest semantic-version tag of a scan, with its reference, or why the
/// scan gives none.
pub fn candidate_from_scan<'repo>(scan: TagScan<'repo>) -> (r: Result<
    TagCandidate<'repo>,
    ResolveError,
>)
    requires
        scan.paired(),
    ensures
        match r {
            Ok(tag) => {
                &&& scan.listing.failure() is None
                &&& scan.listing.gives(tag.pick)
                &&& tag.reference == scan.references[tag.pick.index as int]
            },
            Err(e) => scan.listing.failure() == Some(e),
        },
{
    let mut references = scan.references;
    match pick_from_listing(scan.listing) {
        Err(e) => Err(e),
        Ok(pick) => {
            let reference = references.swap_remove(pick.index);
            Ok(TagCandidate { pick, reference })
        },
    }
}

/// The latest semantic-version tag of the repository.
///
/// Every reference under the tag namespace is read. One without a short name
/// or whose short name is no semantic version is passed over. Fails with
/// `NoMatchingTags` where none is left, and with `TagsUnavailable` or
/// `TagUnreadable` where the tags cannot be listed to the end. The tag is
/// what `candidate_from_scan` makes of `list_tags`.
pub fn select_latest_semver_tag<'repo>(repo: &'repo git2::Repository) -> (r: Result<
    TagCandidate<'repo>,
    ResolveError,
>)
    ensures
        match r {
            Ok(tag) => tag.pick.names_its_version(),
            Err(e) => e is TagsUnavailable || e is TagUnreadable || e is NoMatchingTags,
        },
{
    candidate_from_scan(list_tags(repo))
}

/// Asks the repository what the first strategy needs: where the symbolic
/// reference for the remote's HEAD points, then the local branch that goes
/// with it, then the remote-tracking branch itself if the local one gave no
/// commit.
pub fn look_up_origin_head(repo: &git2::Repository) -> (seen: OriginHeadLookup)
    ensures
        seen.is_lazy(),
        seen.ids_are_full(),
{
    let symbolic_target = match repo.find_reference(ORIGIN_HEAD) {
        Ok(reference) => match reference.symbolic_target() {
            Some(name) => Some(name.to_owned()),
            None => None,
        },
        Err(_) => None,
    };
    let mut local_target: Option<CommitId> = None;
    let mut tracking_target: Option<CommitId> = None;
    match &symbolic_target {
        Some(tracking) => {
            local_target = target_of(repo, local_branch_name(tracking.as_str()).as_str());
            if local_target.is_none() {
                tracking_target = target_of(repo, tracking.as_str());
            }
        },
        None => {},
    }
    OriginHeadLookup { symbolic_target, local_target, tracking_target }
}

/// The first strategy for the default branch: the symbolic reference that
/// tracks the remote's HEAD. The local branch that goes with its target is
/// preferred to the remote-tracking branch. The base is what
/// `base_from_origin_head` makes of `look_up_origin_head`.
pub fn resolve_from_origin_head(repo: &git2::Repository) -> (r: Option<ResolvedBase>)
    ensures
        is_full_base(r),
{
    match base_from_origin_head(look_up_origin_head(repo)) {
        Ok(base) => Some(base),
        Err(_) => None,
    }
}

/// Asks the repository what the second strategy needs: the default branch
/// that the remote advertises, then the reference of that very name, then
/// the remote-tracking branch that goes with it if there is one and the
/// first gave no commit.
pub fn look_up_remote_default(repo: &git2::Repository) -> (seen: RemoteDefaultLookup)
    ensures
        seen.is_lazy(),
        seen.ids_are_full(),
{
    let advertised = match repo.find_remote(ORIGIN) {
        Ok(remote) => match remote.default_branch() {
            Ok(buf) => match buf.as_str() {
                Some(name) => Some(name.to_owned()),
                None => None,
            },
            Err(_) => None,
        },
        Err(_) => None,
    };
    let mut direct_target: Option<CommitId> = None;
    let mut tracking_target: Option<CommitId> = None;
    match &advertised {
        Some(branch) => {
            direct_target = target_of(repo, branch.as_str());
            if direct_target.is_none() {
                match tracking_branch_name(branch.as_str()) {
                    Some(tracking) => {
                        tracking_target = target_of(repo, tracking.as_str());
                    },
                    None => {},
                }
            }
        },
        None => {},
    }
    RemoteDefaultLookup { advertised, direct_target, tracking_target }
}

/// The second strategy for the default branch: the branch that the remote
/// advertises. The reference of that very name is preferred to the
/// remote-tracking branch that goes with it. The base is what
/// `base_from_remote_default` makes of `look_up_remote_default`.
pub fn resolve_from_remote_default(repo: &git2::Repository) -> (r: Option<ResolvedBase>)
    ensures
        is_full_base(r),
{
    match base_from_remote_default(look_up_remote_default(repo)) {
        Ok(base) => Some(base),
        Err(_) => None,
    }
}

/// Asks the repository what the third strategy needs: the current HEAD.
pub fn look_up_head(repo: &git2::Repository) -> (seen: HeadLookup)
    ensures
        seen.ids_are_full(),
{
    match repo.head() {
        Err(e) => HeadLookup::Missing { cause: cause_of(&e) },
        Ok(head) => {
            let target = match head.target() {
                Some(oid) => Some(commit_id_of(oid)),
                None => None,
            };
            let name = match head.name() {
                Some(name) => Some(name.to_owned()),
                None => None,
            };
            HeadLookup::Found(HeadReference { name, target })
        },
    }
}

/// Searches the default branch: runs the three strategies in order, and none
/// any more once one has given a base.
pub fn search_base(repo: &git2::Repository) -> (search: BaseSearch)
    ensures
        search.in_order(),
        search.ids_are_full(),
{
    let origin_head = look_up_origin_head(repo);
    if origin_head.gives_base() {
        return BaseSearch { origin_head, remote_default: None, head: None };
    }
    let remote_default = look_up_remote_default(repo);
    if remote_default.gives_base() {
        return BaseSearch { origin_head, remote_default: Some(remote_default), head: None };
    }
    let head = look_up_head(repo);
    BaseSearch { origin_head, remote_default: Some(remote_default), head: Some(head) }
}

/// The branch to compare against: that of the first strategy which gives
/// one. Fails with `NoHead`, and with nothing else, where even the current
/// HEAD gives no commit. The base is what `base_from_search` makes of
/// `search_base`.
pub fn resolve_default_base(repo: &git2::Repository) -> (r: Result<ResolvedBase, ResolveError>)
    ensures
        match r {
            Ok(base) => is_full_id(base.commit@),
            Err(e) => e is NoHead,
        },
{
    base_from_search(search_base(repo))
}

/// What the repository holds of the commit `commit`, under the identifier
/// `id` by which it was found.
pub fn record_of(id: CommitId, commit: &git2::Commit<'_>) -> (r: CommitRecord)
    ensures
        r.id == id,
        forall|i: int| 0 <= i < r.parents.len() ==> is_full_id(#[trigger] r.parents[i]@),
{
    let message = match commit.message() {
        Some(text) => Some(text.to_owned()),
        None => None,
    };
    let count = commit.parent_count();
    let mut parents: Vec<CommitId> = Vec::new();
    let mut i: usize = 0;
    while i < count
        invariant
            forall|j: int| 0 <= j < parents.len() ==> is_full_id(#[trigger] parents[j]@),
        decreases count - i,
    {
        match commit.parent_id(i) {
            Ok(oid) => {
                parents.push(commit_id_of(oid));
            },
            Err(_) => {},
        }
        i += 1;
    }
    CommitRecord { id, message, parents }
}

/// The answers of a walk that could not be set up at `step`.
fn failed_setup(step: WalkStep, error: &git2::Error) -> (answers: WalkAnswers)
    ensures
        answers.setup matches Some(failure) && failure.step == step,
        answers.commits.len() == 0,
        answers.end is Finished,
{
    WalkAnswers {
        setup: Some(SetupFailure { step, cause: cause_of(error) }),
        commits: Vec::new(),
        end: WalkEnd::Finished,
    }
}

/// Walks the history from `base_commit` by commit time, latest first, and
/// looks up each commit that the walk gives. The merge base of `tag_commit`
/// and `base_commit`, where the repository has one, is left out of the walk
/// together with all that can be reached from it; that it has none is no
/// error. The walk ends at the first failure.
///
/// An identifier that cannot be read counts as one that the repository does
/// not know: an unreadable `tag_commit` has no merge base with anything, and
/// an unreadable `base_commit` cannot be pushed, so that the setup fails at
/// the step `PushBase` before the repository is asked anything.
pub fn walk_history(repo: &git2::Repository, tag_commit: &CommitId, base_commit: &CommitId) -> (answers:
    WalkAnswers)
    ensures
        answers.setup is Some ==> answers.commits.len() == 0 && answers.end is Finished,
        forall|i: int|
            0 <= i < answers.commits.len() ==> is_full_id(#[trigger] answers.commits[i].id@),
        answers.end matches WalkEnd::LookupFailed { id, .. } ==> is_full_id(id@),
        !is_readable_id(base_commit@) ==> (answers.setup matches Some(failure) && failure.step
            == WalkStep::PushBase),
{
    let base = match git2::Oid::from_str(base_commit.hex.as_str()) {
        Ok(oid) => oid,
        Err(e) => {
            return failed_setup(WalkStep::PushBase, &e);
        },
    };
    let merge_base = match git2::Oid::from_str(tag_commit.hex.as_str()) {
        Ok(tag) => match repo.merge_base(tag, base) {
            Ok(oid) => Some(oid),
            Err(_) => None,
        },
        Err(_) => None,
    };
    let mut walk = match repo.revwalk() {
        Ok(walk) => walk,
        Err(e) => {
            return failed_setup(WalkStep::Create, &e);
        },
    };
    match sort_by_time(&mut walk) {
        Ok(_) => {},
        Err(e) => {
            return failed_setup(WalkStep::Sort, &e);
        },
    }
    match walk.push(base) {
        Ok(_) => {},
        Err(e) => {
            return failed_setup(WalkStep::PushBase, &e);
        },
    }
    match merge_base {
        Some(ancestor) => match leave_out(&mut walk, ancestor) {
            Ok(_) => {},
            Err(e) => {
                return failed_setup(WalkStep::HideMergeBase, &e);
            },
        },
        None => {},
    }
    let mut commits: Vec<CommitRecord> = Vec::new();
    loop
        invariant
            is_readable_id(base_commit@),
            forall|i: int| 0 <= i < commits.len() ==> is_full_id(#[trigger] commits[i].id@),
        decreases usize::MAX - commits.len(),
    {
        match walk.next() {
            None => {
                return WalkAnswers { setup: None, commits, end: WalkEnd::Finished };
            },
            Some(Err(e)) => {
                return WalkAnswers {
                    setup: None,
                    commits,
                    end: WalkEnd::BrokeOff { cause: cause_of(&e) },
                };
            },
            Some(Ok(oid)) => {
                let id = commit_id_of(oid);
                match repo.find_commit(oid) {
                    Ok(commit) => {
                        commits.push(record_of(id, &commit));
                    },
                    Err(e) => {
                        return WalkAnswers {
                            setup: None,
                            commits,
                            end: WalkEnd::LookupFailed { id, cause: cause_of(&e) },
                        };
                    },
                }
            },
        }
    }
}

/// The commits that can be reached from `base_commit` and not from the merge
/// base of `tag_commit` and `base_commit`, by commit time, latest first.
///
/// Where the two have no merge base, which is no error, all commits that can
/// be reached from `base_commit` are given. The walk is run to its end before
/// anything is returned. Fails with `RevwalkInitFailed` where the walk cannot
/// be set up, with `WalkFailed` where it breaks off, and with
/// `CommitLookupFailed` where a commit that it gives cannot be looked up.
/// The commits are what `walk_outcome` makes of `walk_history`; which commits
/// the walk gives, and in which order, is the repository's answer.
///
/// A `base_commit` that cannot be read as an identifier cannot be pushed:
/// whatever the repository holds, that is `RevwalkInitFailed` at the step
/// `PushBase`.
pub fn commits_since(
    repo: &git2::Repository,
    tag_commit: &CommitId,
    base_commit: &CommitId,
) -> (r: Result<Vec<CommitRecord>, ResolveError>)
    ensures
        match r {
            Ok(commits) => forall|i: int|
                0 <= i < commits.len() ==> is_full_id(#[trigger] commits[i].id@),
            Err(e) => e is RevwalkInitFailed || e is WalkFailed || e is CommitLookupFailed,
        },
        !is_readable_id(base_commit@) ==> r matches Err(
            ResolveError::RevwalkInitFailed { step: WalkStep::PushBase, .. },
        ),
{
    walk_outcome(walk_history(repo, tag_commit, base_commit))
}

/// The commit that the tag leads to, through tag objects where there are
/// any. Fails with `PeelFailed`, and with nothing else: the error holds the
/// full name of the tag, or `UNNAMED` where that cannot be read.
pub fn peel_tag(tag: &TagCandidate<'_>) -> (r: Result<CommitId, ResolveError>)
    ensures
        match r {
            Ok(id) => is_full_id(id@),
            Err(e) => e is PeelFailed,
        },
{
    match tag.reference.peel_to_commit() {
        Ok(commit) => Ok(commit_id_of(commit.id())),
        Err(e) => {
            let name = match tag.reference.name() {
                Some(name) => name.to_owned(),
                None => String::from_str(UNNAMED),
            };
            Err(ResolveError::PeelFailed { tag: name, cause: cause_of(&e) })
        },
    }
}

/// The organization and the repository on GitHub that the remote `origin`
/// of the repository names: what `org_and_repo_from_url` reads out of the
/// URL of that remote.
pub fn get_org_and_repo(repo: &git2::Repository) -> (r: Result<(String, String), RemoteUrlError>)
    ensures
        match r {
            Ok((org, name)) => exists|url: Seq<char>|
                (#[trigger] org_and_repo(url)) == Ok::<_, UrlProblem>((org@, name@)),
            Err(RemoteUrlError::NotGithub { url }) => org_and_repo(url@) == Err::<
                (Seq<char>, Seq<char>),
                _,
            >(UrlProblem::NotGithub),
            Err(RemoteUrlError::Incomplete { url }) => org_and_repo(url@) == Err::<
                (Seq<char>, Seq<char>),
                _,
            >(UrlProblem::Incomplete),
            Err(_) => true,
        },
{
    let remote = match repo.find_remote(ORIGIN) {
        Ok(remote) => remote,
        Err(e) => {
            return Err(RemoteUrlError::NoOrigin { cause: cause_of(&e) });
        },
    };
    let url = match remote.url() {
        Some(url) => url,
        None => {
            return Err(RemoteUrlError::NoUrl);
        },
    };
    match org_and_repo_from_url(url) {
        Ok(pair) => Ok(pair),
        Err(UrlProblem::NotGithub) => Err(RemoteUrlError::NotGithub { url: url.to_owned() }),
        Err(UrlProblem::Incomplete) => Err(RemoteUrlError::Incomplete { url: url.to_owned() }),
    }
}

/// The latest semantic-version tag of the repository, and the commits of the
/// default branch since that tag: those that can be reached from the tip of
/// the branch and not from the merge base of tag and branch.
///
/// Four steps, each of which must succeed: `select_latest_semver_tag`,
/// `peel_tag`, `resolve_default_base`, and `commits_since` from the commit of
/// the tag to that of the base. The failure of a step is handed on as it is,
/// and then nothing else is returned. Without a semantic-version tag there
/// is no range: `NoMatchingTags`.
pub fn get_commits_after_latest_tag<'repo>(repo: &'repo git2::Repository) -> (r: Result<
    RangeResult<'repo>,
    ResolveError,
>)
    ensures
        r matches Ok(range) ==> {
            &&& range.tag.pick.names_its_version()
            &&& forall|i: int|
                0 <= i < range.commits.len() ==> is_full_id(#[trigger] range.commits[i].id@)
        },
{
    let tag = match select_latest_semver_tag(repo) {
        Ok(tag) => tag,
        Err(e) => {
            return Err(e);
        },
    };
    let tag_commit = match peel_tag(&tag) {
        Ok(id) => id,
        Err(e) => {
            return Err(e);
        },
    };
    let base = match resolve_default_base(repo) {
        Ok(base) => base,
        Err(e) => {
            return Err(e);
        },
    };
    match commits_since(repo, &tag_commit, &base.commit) {
        Ok(commits) => Ok(RangeResult { tag, commits }),
        Err(e) => Err(e),
    }
}

} // verus!

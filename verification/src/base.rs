//! The branch that a release is compared against.
//!
//! No single place tells a repository's default branch, so three strategies
//! are tried in order, each less certain than the one before:
//!
//! 1. the symbolic reference that tracks the remote's HEAD;
//! 2. the default branch that the remote advertises;
//! 3. the current HEAD.
//!
//! This module holds what each strategy decides from the answers of the
//! repository, as functions of those answers.
use crate::commit::{is_full_id, CommitId};
use crate::error::{HeadProblem, ResolveError};
use crate::text::{chars_of, has_prefix, without_prefix};
use vstd::prelude::*;

verus! {

/// The symbolic reference that tracks the remote's HEAD.
pub const ORIGIN_HEAD: &'static str = "refs/remotes/origin/HEAD";

/// The remote that is asked.
pub const ORIGIN: &'static str = "origin";

/// What remote-tracking branches of that remote begin with.
pub const TRACKING_PREFIX: &'static str = "refs/remotes/origin/";

/// What local branches begin with.
pub const LOCAL_PREFIX: &'static str = "refs/heads/";

/// The name under which HEAD goes where it has none of its own.
pub const HEAD: &'static str = "HEAD";

/// A branch to compare against, and the commit at its tip.
#[derive(Clone, Debug, PartialEq, Eq)]
pub struct ResolvedBase {
    pub name: String,
    pub commit: CommitId,
}

/// A resolved base as mathematics sees it.
pub struct BaseView {
    pub name: Seq<char>,
    pub commit: Seq<char>,
}

impl View for ResolvedBase {
    type V = BaseView;

    open spec fn view(&self) -> BaseView {
        BaseView { name: self.name@, commit: self.commit@ }
    }
}

/// The local branch that goes with a remote-tracking branch: the tracking
/// prefix, where the name has it, gives way to the local one. A name without
/// the tracking prefix gets the local prefix nevertheless.
pub open spec fn local_branch_for(tracking: Seq<char>) -> Seq<char> {
    LOCAL_PREFIX@ + match without_prefix(tracking, TRACKING_PREFIX@) {
        Some(rest) => rest,
        None => tracking,
    }
}

/// The remote-tracking branch that goes with a local branch, or `None` for a
/// name that is no local branch.
pub open spec fn tracking_branch_for(branch: Seq<char>) -> Option<Seq<char>> {
    match without_prefix(branch, LOCAL_PREFIX@) {
        Some(rest) => Some(TRACKING_PREFIX@ + rest),
        None => None,
    }
}

/// What the repository answered to the first strategy.
#[derive(Clone, Debug, PartialEq, Eq)]
pub struct OriginHeadLookup {
    /// Where the symbolic reference `ORIGIN_HEAD` points, if it exists and is
    /// symbolic.
    pub symbolic_target: Option<String>,
    /// The commit of the local branch that goes with it.
    pub local_target: Option<CommitId>,
    /// The commit of the remote-tracking branch itself.
    pub tracking_target: Option<CommitId>,
}

/// What the repository answered to the second strategy.
#[derive(Clone, Debug, PartialEq, Eq)]
pub struct RemoteDefaultLookup {
    /// The default branch that the remote advertises.
    pub advertised: Option<String>,
    /// The commit of the reference of that very name.
    pub direct_target: Option<CommitId>,
    /// The commit of the remote-tracking branch that goes with it.
    pub tracking_target: Option<CommitId>,
}

/// The current HEAD, as far as it could be read.
#[derive(Clone, Debug, PartialEq, Eq)]
pub struct HeadReference {
    /// Its full name, or `None` where that is not valid UTF-8.
    pub name: Option<String>,
    /// The commit it points at directly.
    pub target: Option<CommitId>,
}

/// What the repository answered to the third strategy: HEAD, or why there is
/// none.
#[derive(Clone, Debug, PartialEq, Eq)]
pub enum HeadLookup {
    Found(HeadReference),
    Missing { cause: String },
}

/// Why one of the first two strategies gives no base. Such a failure is
/// never handed on: it only makes the search go on to the next strategy.
#[derive(Clone, Copy, Debug, PartialEq, Eq, Structural)]
pub enum SoftFailure {
    /// The repository does not tell where the remote's default branch is.
    RemoteMissing,
    /// It tells a branch, but no commit is found for it.
    BranchUnresolvable,
}

/// Whether the identifier, if there is one, is a full one.
pub open spec fn is_full(id: Option<CommitId>) -> bool {
    id matches Some(i) ==> is_full_id(i@)
}

impl OriginHeadLookup {
    /// All identifiers are full ones.
    pub open spec fn ids_are_full(self) -> bool {
        is_full(self.local_target) && is_full(self.tracking_target)
    }

    /// Nothing was asked beyond need: without a symbolic target no branch
    /// was asked, and the remote-tracking branch was asked only where the
    /// local one gave no commit.
    pub open spec fn is_lazy(self) -> bool {
        &&& self.symbolic_target is None ==> self.local_target is None
        &&& self.local_target is Some || self.symbolic_target is None
            ==> self.tracking_target is None
    }

    /// Why the first strategy gives no base, where it gives none.
    pub open spec fn failure(self) -> SoftFailure {
        if self.symbolic_target is None {
            SoftFailure::RemoteMissing
        } else {
            SoftFailure::BranchUnresolvable
        }
    }

    /// The first strategy: the local branch if it has a commit, else the
    /// remote-tracking branch if it has one.
    pub open spec fn base(self) -> Option<BaseView> {
        match self.symbolic_target {
            None => None,
            Some(tracking) => match self.local_target {
                Some(commit) => Some(
                    BaseView { name: local_branch_for(tracking@), commit: commit@ },
                ),
                None => match self.tracking_target {
                    Some(commit) => Some(BaseView { name: tracking@, commit: commit@ }),
                    None => None,
                },
            },
        }
    }
}

impl RemoteDefaultLookup {
    /// All identifiers are full ones.
    pub open spec fn ids_are_full(self) -> bool {
        is_full(self.direct_target) && is_full(self.tracking_target)
    }

    /// Nothing was asked beyond need: without an advertised branch no
    /// reference was asked, and the remote-tracking branch was asked only
    /// where there is one and the advertised name gave no commit.
    pub open spec fn is_lazy(self) -> bool {
        &&& self.advertised is None ==> self.direct_target is None
        &&& self.direct_target is Some || self.advertised is None || tracking_branch_for(
            self.advertised->0@,
        ) is None ==> self.tracking_target is None
    }

    /// Why the second strategy gives no base, where it gives none.
    pub open spec fn failure(self) -> SoftFailure {
        if self.advertised is None {
            SoftFailure::RemoteMissing
        } else {
            SoftFailure::BranchUnresolvable
        }
    }

    /// The second strategy: the advertised name if it has a commit here, else
    /// the remote-tracking branch that goes with it if that has one.
    pub open spec fn base(self) -> Option<BaseView> {
        match self.advertised {
            None => None,
            Some(branch) => match self.direct_target {
                Some(commit) => Some(BaseView { name: branch@, commit: commit@ }),
                None => match (tracking_branch_for(branch@), self.tracking_target) {
                    (Some(tracking), Some(commit)) => Some(
                        BaseView { name: tracking, commit: commit@ },
                    ),
                    _ => None,
                },
            },
        }
    }
}

impl HeadLookup {
    /// All identifiers are full ones.
    pub open spec fn ids_are_full(self) -> bool {
        self matches HeadLookup::Found(head) ==> is_full(head.target)
    }

    /// The third strategy succeeds exactly when HEAD is there and points at a
    /// commit directly.
    pub open spec fn base(self) -> Option<BaseView> {
        match self {
            HeadLookup::Found(HeadReference { name, target: Some(commit) }) => Some(
                BaseView {
                    name: match name {
                        Some(n) => n@,
                        None => HEAD@,
                    },
                    commit: commit@,
                },
            ),
            _ => None,
        }
    }

    /// Why the third strategy fails, where it does.
    pub open spec fn problem(self) -> HeadProblem {
        match self {
            HeadLookup::Found(_) => HeadProblem::Untargeted,
            HeadLookup::Missing { .. } => HeadProblem::Missing,
        }
    }

    /// What the repository said of a missing HEAD.
    pub open spec fn cause(self) -> Seq<char> {
        match self {
            HeadLookup::Found(_) => Seq::empty(),
            HeadLookup::Missing { cause } => cause@,
        }
    }
}

/// What the repository was asked in search of the default branch, strategy
/// by strategy. A strategy that was not run is `None`, and gives nothing.
#[derive(Clone, Debug, PartialEq, Eq)]
pub struct BaseSearch {
    pub origin_head: OriginHeadLookup,
    pub remote_default: Option<RemoteDefaultLookup>,
    pub head: Option<HeadLookup>,
}

impl BaseSearch {
    /// All identifiers are full ones.
    pub open spec fn ids_are_full(self) -> bool {
        &&& self.origin_head.ids_are_full()
        &&& self.remote_default matches Some(lookup) ==> lookup.ids_are_full()
        &&& self.head matches Some(lookup) ==> lookup.ids_are_full()
    }

    /// What the second strategy gives.
    pub open spec fn second(self) -> Option<BaseView> {
        match self.remote_default {
            Some(lookup) => lookup.base(),
            None => None,
        }
    }

    /// What the third strategy gives.
    pub open spec fn third(self) -> Option<BaseView> {
        match self.head {
            Some(lookup) => lookup.base(),
            None => None,
        }
    }

    /// The base that the search settles on: that of the first strategy which
    /// gives one. `None` where even the last resort gives none.
    pub open spec fn base(self) -> Option<BaseView> {
        if self.origin_head.base() is Some {
            self.origin_head.base()
        } else if self.second() is Some {
            self.second()
        } else {
            self.third()
        }
    }

    /// Why the last resort gives no base.
    pub open spec fn problem(self) -> HeadProblem {
        match self.head {
            Some(lookup) => lookup.problem(),
            None => HeadProblem::Missing,
        }
    }

    /// What the repository said of a missing HEAD.
    pub open spec fn cause(self) -> Seq<char> {
        match self.head {
            Some(lookup) => lookup.cause(),
            None => Seq::empty(),
        }
    }

    /// The strategies were run in order, each exactly if none before it gave
    /// a base.
    pub open spec fn in_order(self) -> bool {
        &&& self.remote_default is Some <==> self.origin_head.base() is None
        &&& self.head is Some <==> self.origin_head.base() is None && self.second() is None
    }
}

/// Whether the commit of the base, if there is one, has a full identifier.
pub open spec fn is_full_base(base: Option<ResolvedBase>) -> bool {
    base matches Some(b) ==> is_full_id(b.commit@)
}

/// The local branch that goes with a remote-tracking branch.
pub fn local_branch_name(tracking: &str) -> (r: String)
    ensures
        r@ == local_branch_for(tracking@),
{
    let text = chars_of(tracking);
    let prefix = chars_of(TRACKING_PREFIX);
    let mut name = String::from_str(LOCAL_PREFIX);
    if has_prefix(&text, &prefix) {
        name.append(tracking.substring_char(prefix.len(), text.len()));
    } else {
        name.append(tracking);
    }
    name
}

/// The remote-tracking branch that goes with a local branch.
pub fn tracking_branch_name(branch: &str) -> (r: Option<String>)
    ensures
        match r {
            Some(name) => tracking_branch_for(branch@) == Some(name@),
            None => tracking_branch_for(branch@) is None,
        },
{
    let text = chars_of(branch);
    let prefix = chars_of(LOCAL_PREFIX);
    if has_prefix(&text, &prefix) {
        let mut name = String::from_str(TRACKING_PREFIX);
        name.append(branch.substring_char(prefix.len(), text.len()));
        Some(name)
    } else {
        None
    }
}

impl OriginHeadLookup {
    /// Whether the first strategy gives a base.
    pub fn gives_base(&self) -> (b: bool)
        ensures
            b == self.base() is Some,
    {
        self.symbolic_target.is_some() && (self.local_target.is_some()
            || self.tracking_target.is_some())
    }
}

impl RemoteDefaultLookup {
    /// Whether the second strategy gives a base.
    pub fn gives_base(&self) -> (b: bool)
        ensures
            b == self.base() is Some,
    {
        match &self.advertised {
            None => false,
            Some(branch) => self.direct_target.is_some() || (self.tracking_target.is_some()
                && tracking_branch_name(branch.as_str()).is_some()),
        }
    }
}

/// The first strategy.
pub fn base_from_origin_head(lookup: OriginHeadLookup) -> (r: Result<ResolvedBase, SoftFailure>)
    ensures
        match r {
            Ok(base) => lookup.base() == Some(base@),
            Err(failure) => lookup.base() is None && failure == lookup.failure(),
        },
        lookup.ids_are_full() && r is Ok ==> is_full_id(r->Ok_0.commit@),
{
    match lookup.symbolic_target {
        None => Err(SoftFailure::RemoteMissing),
        Some(tracking) => match lookup.local_target {
            Some(commit) => Ok(ResolvedBase { name: local_branch_name(tracking.as_str()), commit }),
            None => match lookup.tracking_target {
                Some(commit) => Ok(ResolvedBase { name: tracking, commit }),
                None => Err(SoftFailure::BranchUnresolvable),
            },
        },
    }
}

/// The second strategy.
pub fn base_from_remote_default(lookup: RemoteDefaultLookup) -> (r: Result<
    ResolvedBase,
    SoftFailure,
>)
    ensures
        match r {
            Ok(base) => lookup.base() == Some(base@),
            Err(failure) => lookup.base() is None && failure == lookup.failure(),
        },
        lookup.ids_are_full() && r is Ok ==> is_full_id(r->Ok_0.commit@),
{
    match lookup.advertised {
        None => Err(SoftFailure::RemoteMissing),
        Some(branch) => match lookup.direct_target {
            Some(commit) => Ok(ResolvedBase { name: branch, commit }),
            None => match (tracking_branch_name(branch.as_str()), lookup.tracking_target) {
                (Some(tracking), Some(commit)) => Ok(ResolvedBase { name: tracking, commit }),
                _ => Err(SoftFailure::BranchUnresolvable),
            },
        },
    }
}

/// The third strategy, the only one whose failure is an error.
pub fn base_from_head(lookup: HeadLookup) -> (r: Result<ResolvedBase, ResolveError>)
    ensures
        match r {
            Ok(base) => lookup.base() == Some(base@),
            Err(ResolveError::NoHead { problem, cause }) => {
                &&& lookup.base() is None
                &&& problem == lookup.problem()
                &&& cause@ == lookup.cause()
            },
            Err(_) => false,
        },
        lookup.ids_are_full() && r is Ok ==> is_full_id(r->Ok_0.commit@),
{
    match lookup {
        HeadLookup::Missing { cause } => Err(
            ResolveError::NoHead { problem: HeadProblem::Missing, cause },
        ),
        HeadLookup::Found(head) => match head.target {
            None => Err(
                ResolveError::NoHead { problem: HeadProblem::Untargeted, cause: String::new() },
            ),
            Some(commit) => {
                let name = match head.name {
                    Some(n) => n,
                    None => String::from_str(HEAD),
                };
                Ok(ResolvedBase { name, commit })
            },
        },
    }
}

/// The base that a search settles on: that of the first strategy which gives
/// one. Fails with `NoHead` where none does.
pub fn base_from_search(search: BaseSearch) -> (r: Result<ResolvedBase, ResolveError>)
    ensures
        match r {
            Ok(base) => search.base() == Some(base@),
            Err(ResolveError::NoHead { problem, cause }) => {
                &&& search.base() is None
                &&& problem == search.problem()
                &&& cause@ == search.cause()
            },
            Err(_) => false,
        },
        search.ids_are_full() && r is Ok ==> is_full_id(r->Ok_0.commit@),
{
    match base_from_origin_head(search.origin_head) {
        Ok(base) => {
            return Ok(base);
        },
        Err(_) => {},
    }
    match search.remote_default {
        Some(lookup) => match base_from_remote_default(lookup) {
            Ok(base) => {
                return Ok(base);
            },
            Err(_) => {},
        },
        None => {},
    }
    match search.head {
        Some(lookup) => base_from_head(lookup),
        None => Err(ResolveError::NoHead { problem: HeadProblem::Missing, cause: String::new() }),
    }
}

/// Where the symbolic reference for the remote's HEAD is absent, the first
/// strategy gives nothing; where the remote then advertises a branch that
/// has a commit here, the search settles on that branch and commit.
pub proof fn lemma_remote_default_takes_over(search: BaseSearch)
    requires
        search.origin_head.symbolic_target is None,
        search.remote_default matches Some(lookup) && lookup.advertised is Some
            && lookup.direct_target is Some,
    ensures
        search.origin_head.base() is None,
        search.base() == Some(
            BaseView {
                name: search.remote_default->0.advertised->0@,
                commit: search.remote_default->0.direct_target->0@,
            },
        ),
{
}

/// Where neither of the first two strategies gives a base, the search gives
/// what the current HEAD gives.
pub proof fn lemma_head_is_last_resort(search: BaseSearch)
    requires
        search.origin_head.base() is None,
        search.second() is None,
    ensures
        search.base() == search.third(),
{
}

/// A strategy that gives a base hides all that follow it.
pub proof fn lemma_first_success_wins(search: BaseSearch)
    ensures
        search.origin_head.base() is Some ==> search.base() == search.origin_head.base(),
        search.origin_head.base() is None && search.second() is Some ==> search.base()
            == search.second(),
{
}

/// In a search that was run in order, the strategy that gave the base is
/// the last one that was run, and a search that gave none ran all three.
pub proof fn lemma_search_in_order(search: BaseSearch)
    requires
        search.in_order(),
    ensures
        search.origin_head.base() is Some ==> search.remote_default is None && search.head is None,
        search.second() is Some ==> search.head is None,
        search.base() is None ==> search.remote_default is Some && search.head is Some,
{
}

} // verus!

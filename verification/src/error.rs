//! What can go wrong while a release range is resolved.
//!
//! None of these is worth a retry: each tells of a state of the repository.
use crate::commit::CommitId;
use vstd::prelude::*;

verus! {

/// Why the current HEAD gives no commit.
#[derive(Clone, Copy, Debug, PartialEq, Eq, Structural)]
pub enum HeadProblem {
    /// The repository has no HEAD to resolve, as one without commits.
    Missing,
    /// HEAD is there but does not point at an object directly.
    Untargeted,
}

/// The step at which a history walk could not be set up.
#[derive(Clone, Copy, Debug, PartialEq, Eq, Structural)]
pub enum WalkStep {
    Create,
    Sort,
    PushBase,
    HideMergeBase,
}

/// A failure of the range resolver. `cause` is what the repository layer
/// said of it, where it said anything.
#[derive(Clone, Debug, PartialEq, Eq)]
pub enum ResolveError {
    /// The tags could not be listed.
    TagsUnavailable { cause: String },
    /// A tag could not be read while the tags were listed.
    TagUnreadable { cause: String },
    /// No tag reads as a semantic version.
    NoMatchingTags,
    /// The chosen tag does not lead to a commit.
    PeelFailed { tag: String, cause: String },
    /// The last resort, the current HEAD, gives no commit.
    NoHead { problem: HeadProblem, cause: String },
    /// The history walk could not be set up.
    RevwalkInitFailed { step: WalkStep, cause: String },
    /// The history walk broke off.
    WalkFailed { cause: String },
    /// A commit that the walk gave could not be looked up.
    CommitLookupFailed { id: CommitId, cause: String },
}

impl ResolveError {
    /// What was being attempted.
    pub open spec fn context(self) -> Seq<char> {
        match self {
            ResolveError::TagsUnavailable { .. } => "could not retrieve tags"@,
            ResolveError::TagUnreadable { .. } => "error iterating over tags"@,
            ResolveError::NoMatchingTags => "no semver tags found"@,
            ResolveError::PeelFailed { tag, .. } => "could not peel tag "@ + tag@,
            ResolveError::NoHead { problem: HeadProblem::Missing, .. } => "repository has no HEAD"@,
            ResolveError::NoHead { problem: HeadProblem::Untargeted, .. } => "HEAD has no target"@,
            ResolveError::RevwalkInitFailed { step: WalkStep::Create, .. } => "could not create revwalk"@,
            ResolveError::RevwalkInitFailed { step: WalkStep::Sort, .. } => "could not set revwalk sorting"@,
            ResolveError::RevwalkInitFailed { step: WalkStep::PushBase, .. } => "could not push base OID"@,
            ResolveError::RevwalkInitFailed { step: WalkStep::HideMergeBase, .. } => "could not hide merge-base"@,
            ResolveError::WalkFailed { .. } => "error iterating through commits"@,
            ResolveError::CommitLookupFailed { .. } => "could not look up commit during revwalk"@,
        }
    }

    /// What the repository layer said; empty where it said nothing.
    pub open spec fn cause(self) -> Seq<char> {
        match self {
            ResolveError::TagsUnavailable { cause } => cause@,
            ResolveError::TagUnreadable { cause } => cause@,
            ResolveError::NoMatchingTags => Seq::empty(),
            ResolveError::PeelFailed { cause, .. } => cause@,
            ResolveError::NoHead { cause, .. } => cause@,
            ResolveError::RevwalkInitFailed { cause, .. } => cause@,
            ResolveError::WalkFailed { cause } => cause@,
            ResolveError::CommitLookupFailed { cause, .. } => cause@,
        }
    }

    /// The context, followed by a colon and the cause where there is one.
    pub open spec fn message_text(self) -> Seq<char> {
        if self.cause().len() == 0 {
            self.context()
        } else {
            self.context() + ": "@ + self.cause()
        }
    }

    /// What was being attempted, as text.
    pub fn context_message(&self) -> (r: String)
        ensures
            r@ == self.context(),
    {
        match self {
            ResolveError::TagsUnavailable { .. } => String::from_str("could not retrieve tags"),
            ResolveError::TagUnreadable { .. } => String::from_str("error iterating over tags"),
            ResolveError::NoMatchingTags => String::from_str("no semver tags found"),
            ResolveError::PeelFailed { tag, .. } => {
                let mut text = String::from_str("could not peel tag ");
                text.append(tag.as_str());
                text
            },
            ResolveError::NoHead { problem, .. } => match problem {
                HeadProblem::Missing => String::from_str("repository has no HEAD"),
                HeadProblem::Untargeted => String::from_str("HEAD has no target"),
            },
            ResolveError::RevwalkInitFailed { step, .. } => match step {
                WalkStep::Create => String::from_str("could not create revwalk"),
                WalkStep::Sort => String::from_str("could not set revwalk sorting"),
                WalkStep::PushBase => String::from_str("could not push base OID"),
                WalkStep::HideMergeBase => String::from_str("could not hide merge-base"),
            },
            ResolveError::WalkFailed { .. } => String::from_str("error iterating through commits"),
            ResolveError::CommitLookupFailed { .. } => String::from_str(
                "could not look up commit during revwalk",
            ),
        }
    }

    /// What the repository layer said, as text.
    pub fn cause_message(&self) -> (r: &str)
        ensures
            r@ == self.cause(),
    {
        match self {
            ResolveError::TagsUnavailable { cause } => cause.as_str(),
            ResolveError::TagUnreadable { cause } => cause.as_str(),
            ResolveError::NoMatchingTags => {
                proof {
                    reveal_strlit("");
                }
                ""
            },
            ResolveError::PeelFailed { cause, .. } => cause.as_str(),
            ResolveError::NoHead { cause, .. } => cause.as_str(),
            ResolveError::RevwalkInitFailed { cause, .. } => cause.as_str(),
            ResolveError::WalkFailed { cause } => cause.as_str(),
            ResolveError::CommitLookupFailed { cause, .. } => cause.as_str(),
        }
    }

    /// The whole message.
    pub fn message(&self) -> (r: String)
        ensures
            r@ == self.message_text(),
    {
        let mut text = self.context_message();
        let cause = self.cause_message();
        if cause.unicode_len() > 0 {
            text.append(": ");
            text.append(cause);
        }
        text
    }
}

} // verus!

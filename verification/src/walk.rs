//! What a history walk gives, as a function of what the repository answered.
//!
//! A walk is set up in four steps, then gives commit after commit, each of
//! which is looked up. The first failure ends it, and then nothing of what
//! was gathered is handed out.
use crate::commit::{CommitId, CommitRecord};
use crate::error::{ResolveError, WalkStep};
use vstd::prelude::*;

verus! {

/// Why a walk could not be set up.
#[derive(Clone, Debug, PartialEq, Eq)]
pub struct SetupFailure {
    pub step: WalkStep,
    pub cause: String,
}

/// How a walk that was set up came to its end.
#[derive(Clone, Debug, PartialEq, Eq)]
pub enum WalkEnd {
    /// The walk gave all its commits.
    Finished,
    /// The walk failed to give its next commit.
    BrokeOff { cause: String },
    /// The walk gave the identifier `id`, and no commit was found under it.
    LookupFailed { id: CommitId, cause: String },
}

/// What the repository answered to one history walk.
#[derive(Clone, Debug, PartialEq, Eq)]
pub struct WalkAnswers {
    /// Why the walk could not be set up; `None` if it could.
    pub setup: Option<SetupFailure>,
    /// The commits that the walk gave and that were found, in its order.
    pub commits: Vec<CommitRecord>,
    pub end: WalkEnd,
}

impl WalkAnswers {
    /// What the walk gives: all its commits if it was set up and came to its
    /// end, else the first failure.
    pub open spec fn outcome(self) -> Result<Vec<CommitRecord>, ResolveError> {
        match self.setup {
            Some(failure) => Err(
                ResolveError::RevwalkInitFailed { step: failure.step, cause: failure.cause },
            ),
            None => match self.end {
                WalkEnd::Finished => Ok(self.commits),
                WalkEnd::BrokeOff { cause } => Err(ResolveError::WalkFailed { cause }),
                WalkEnd::LookupFailed { id, cause } => Err(
                    ResolveError::CommitLookupFailed { id, cause },
                ),
            },
        }
    }
}

/// What the walk gives.
pub fn walk_outcome(answers: WalkAnswers) -> (r: Result<Vec<CommitRecord>, ResolveError>)
    ensures
        r == answers.outcome(),
{
    match answers.setup {
        Some(failure) => Err(
            ResolveError::RevwalkInitFailed { step: failure.step, cause: failure.cause },
        ),
        None => match answers.end {
            WalkEnd::Finished => Ok(answers.commits),
            WalkEnd::BrokeOff { cause } => Err(ResolveError::WalkFailed { cause }),
            WalkEnd::LookupFailed { id, cause } => Err(
                ResolveError::CommitLookupFailed { id, cause },
            ),
        },
    }
}

/// A walk that fails hands out no commits, however many it had gathered.
pub proof fn lemma_no_partial_results(answers: WalkAnswers)
    requires
        answers.setup is Some || !(answers.end is Finished),
    ensures
        answers.outcome() is Err,
{
}

/// A walk that was set up and came to its end hands out exactly the commits
/// that it gathered, in their order.
pub proof fn lemma_finished_walk_gives_all(answers: WalkAnswers)
    requires
        answers.setup is None,
        answers.end is Finished,
    ensures
        answers.outcome() == Ok::<_, ResolveError>(answers.commits),
{
}

} // verus!

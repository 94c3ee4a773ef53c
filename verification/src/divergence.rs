//! How a local branch stands against the branch it tracks.

use vstd::prelude::*;

verus! {

/// Relation between the local `HEAD` and its remote-tracking branch.
#[derive(Debug, Clone, Copy, PartialEq, Eq, Structural)]
pub enum UpdateRelationState {
    /// Both tips name the same history.
    Up2Date,
    /// The local branch holds this many commits that the remote lacks.
    Ahead(usize),
    /// The remote holds this many commits that the local branch lacks.
    Behind(usize),
    /// Both sides hold commits that the other lacks: local first, remote second.
    AheadBehind(usize, usize),
}

impl UpdateRelationState {
    /// A diverged state names two counts that are both positive, and the
    /// one-sided states name a positive count.
    pub open spec fn wf(self) -> bool {
        match self {
            UpdateRelationState::Up2Date => true,
            UpdateRelationState::Ahead(a) => a > 0,
            UpdateRelationState::Behind(b) => b > 0,
            UpdateRelationState::AheadBehind(a, b) => a > 0 && b > 0,
        }
    }

    /// The state that a pair of ahead and behind counts stands for.
    pub open spec fn of_counts(ahead: usize, behind: usize) -> UpdateRelationState {
        if ahead == 0 && behind == 0 {
            UpdateRelationState::Up2Date
        } else if behind == 0 {
            UpdateRelationState::Ahead(ahead)
        } else if ahead == 0 {
            UpdateRelationState::Behind(behind)
        } else {
            UpdateRelationState::AheadBehind(ahead, behind)
        }
    }

    /// Classifies the counts of commits that only the local side holds
    /// (`ahead`) and that only the remote side holds (`behind`).
    pub fn classify(ahead: usize, behind: usize) -> (state: UpdateRelationState)
        ensures
            state == Self::of_counts(ahead, behind),
            state.wf(),
            state matches UpdateRelationState::AheadBehind(a, b) ==> a > 0 && b > 0,
    {
        if ahead == 0 && behind == 0 {
            UpdateRelationState::Up2Date
        } else if behind == 0 {
            UpdateRelationState::Ahead(ahead)
        } else if ahead == 0 {
            UpdateRelationState::Behind(behind)
        } else {
            UpdateRelationState::AheadBehind(ahead, behind)
        }
    }
}

} // verus!

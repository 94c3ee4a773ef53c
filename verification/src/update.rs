//! One update of the working copy: fetch, analyse, then fast-forward or
//! merge.
//!
//! The update is a state machine. Its phase names the git operation that
//! the caller carries out next; the caller reports what the operation gave
//! as an event and receives the next phase.

use vstd::prelude::*;
use vstd::string::StringExecFns;
use crate::git::{analysis_fast_forward, analysis_normal, is_fast_forward, is_normal};

verus! {

/// What an update did to the working copy.
#[derive(Debug, Clone, Copy, PartialEq, Eq, Structural)]
pub enum UpdateLog {
    /// Nothing: the fetched commit was already part of the history.
    UpToDate,
    /// The branch was moved forward to the fetched commit.
    FastForwarded,
    /// The two histories were merged and the merge was committed.
    Merged,
    /// The two histories conflict: the conflicts were written to the
    /// working directory and nothing was committed.
    Conflicts,
}

/// The git operation that the caller carries out next.
#[derive(Debug, PartialEq)]
pub enum UpdatePhase {
    /// Fetch the branch (second) from the remote (first) with all tags, and
    /// resolve `FETCH_HEAD` to the fetched commit.
    Fetch(String, String),
    /// Analyse how the fetched commit can be merged into `HEAD`; holds the
    /// branch.
    Analyze(String),
    /// Look up the reference of this name.
    FindBranch(String),
    /// Point the reference (first) to the fetched commit with the reflog
    /// message (second), make it `HEAD`, and check out by force.
    Retarget(String, String),
    /// Create the reference (first) at the fetched commit, overwriting,
    /// with the reflog message (second), make it `HEAD`, and check out by
    /// force.
    CreateBranch(String, String),
    /// Merge the trees of `HEAD` and of the fetched commit over the tree of
    /// their merge base.
    MergeTrees,
    /// Write the conflicted index to the working directory.
    CheckoutConflicts,
    /// Write the merged tree, commit it onto `HEAD` with both commits as
    /// parents and this message, and check out `HEAD`.
    Commit(String),
    /// Nothing: the update is over.
    Done(UpdateLog),
    /// Nothing: the update failed.
    Failed(git2::Error),
}

/// An `UpdatePhase` with its texts as sequences of characters.
pub enum UpdatePhaseView {
    Fetch(Seq<char>, Seq<char>),
    Analyze(Seq<char>),
    FindBranch(Seq<char>),
    Retarget(Seq<char>, Seq<char>),
    CreateBranch(Seq<char>, Seq<char>),
    MergeTrees,
    CheckoutConflicts,
    Commit(Seq<char>),
    Done(UpdateLog),
    Failed(git2::Error),
}

impl View for UpdatePhase {
    type V = UpdatePhaseView;

    open spec fn view(&self) -> UpdatePhaseView {
        match *self {
            UpdatePhase::Fetch(remote, branch) => UpdatePhaseView::Fetch(remote@, branch@),
            UpdatePhase::Analyze(branch) => UpdatePhaseView::Analyze(branch@),
            UpdatePhase::FindBranch(name) => UpdatePhaseView::FindBranch(name@),
            UpdatePhase::Retarget(name, log) => UpdatePhaseView::Retarget(name@, log@),
            UpdatePhase::CreateBranch(name, log) => UpdatePhaseView::CreateBranch(name@, log@),
            UpdatePhase::MergeTrees => UpdatePhaseView::MergeTrees,
            UpdatePhase::CheckoutConflicts => UpdatePhaseView::CheckoutConflicts,
            UpdatePhase::Commit(message) => UpdatePhaseView::Commit(message@),
            UpdatePhase::Done(log) => UpdatePhaseView::Done(log),
            UpdatePhase::Failed(error) => UpdatePhaseView::Failed(error),
        }
    }
}

/// What carrying out a git operation gave.
#[derive(Debug, PartialEq)]
pub enum UpdateEvent {
    /// The operation succeeded and has nothing to tell.
    Done,
    /// The merge analysis.
    Analysis(git2::MergeAnalysis),
    /// Whether the reference exists.
    Branch(bool),
    /// The trees were merged; holds whether the result has conflicts.
    Trees(bool),
    /// The operation failed.
    Failed(git2::Error),
}

/// The name of the remote that updates come from.
pub open spec fn remote_name() -> Seq<char> {
    "origin"@
}

/// The reference of a local branch.
pub open spec fn local_ref(branch: Seq<char>) -> Seq<char> {
    "refs/heads/"@ + branch
}

/// The reference under which the remote's branch is tracked.
pub open spec fn tracking_ref(branch: Seq<char>) -> Seq<char> {
    "refs/remotes/origin/"@ + branch
}

/// The reference under which the remote's branch is tracked: the one that
/// the local `HEAD` is compared with.
pub fn remote_branch_ref(branch: &str) -> (name: String)
    ensures
        name@ == tracking_ref(branch@),
{
    String::from_str("refs/remotes/origin/").concat(branch)
}

/// How the fetched commit is brought in, given whether it can be reached
/// by moving the branch forward and whether the histories have diverged.
/// Moving forward is preferred; where neither holds there is nothing to do.
pub open spec fn merge_choice(branch: Seq<char>, fast_forward: bool, normal: bool)
    -> UpdatePhaseView {
    if fast_forward {
        UpdatePhaseView::FindBranch(local_ref(branch))
    } else if normal {
        UpdatePhaseView::MergeTrees
    } else {
        UpdatePhaseView::Done(UpdateLog::UpToDate)
    }
}

/// How merged trees are finished: conflicts are written out and left
/// uncommitted, a clean result is committed.
pub open spec fn merge_finish(conflicts: bool) -> UpdatePhaseView {
    if conflicts {
        UpdatePhaseView::CheckoutConflicts
    } else {
        UpdatePhaseView::Commit("Merge commit"@)
    }
}

impl UpdatePhaseView {
    /// The phase in which an update of `branch` starts.
    pub open spec fn start(branch: Seq<char>) -> UpdatePhaseView {
        UpdatePhaseView::Fetch(remote_name(), branch)
    }

    /// The phase after `event`. A failure ends the update, except that a
    /// reference that cannot be looked up counts as absent. An event that
    /// does not answer the pending operation leaves the phase as it is.
    pub open spec fn next(self, event: UpdateEvent) -> UpdatePhaseView {
        match (self, event) {
            (UpdatePhaseView::Done(_), _) => self,
            (UpdatePhaseView::Failed(_), _) => self,
            (UpdatePhaseView::FindBranch(name), UpdateEvent::Failed(_)) => {
                UpdatePhaseView::CreateBranch(name, "Setting new branch"@)
            },
            (_, UpdateEvent::Failed(error)) => UpdatePhaseView::Failed(error),
            (UpdatePhaseView::Fetch(_, branch), UpdateEvent::Done) => UpdatePhaseView::Analyze(
                branch,
            ),
            (UpdatePhaseView::Analyze(branch), UpdateEvent::Analysis(analysis)) => merge_choice(
                branch,
                analysis_fast_forward(analysis),
                analysis_normal(analysis),
            ),
            (UpdatePhaseView::FindBranch(name), UpdateEvent::Branch(true)) => {
                UpdatePhaseView::Retarget(name, "Fast-forward"@)
            },
            (UpdatePhaseView::FindBranch(name), UpdateEvent::Branch(false)) => {
                UpdatePhaseView::CreateBranch(name, "Setting new branch"@)
            },
            (UpdatePhaseView::Retarget(_, _), UpdateEvent::Done) => UpdatePhaseView::Done(
                UpdateLog::FastForwarded,
            ),
            (UpdatePhaseView::CreateBranch(_, _), UpdateEvent::Done) => UpdatePhaseView::Done(
                UpdateLog::FastForwarded,
            ),
            (UpdatePhaseView::MergeTrees, UpdateEvent::Trees(conflicts)) => merge_finish(
                conflicts,
            ),
            (UpdatePhaseView::CheckoutConflicts, UpdateEvent::Done) => UpdatePhaseView::Done(
                UpdateLog::Conflicts,
            ),
            (UpdatePhaseView::Commit(_), UpdateEvent::Done) => UpdatePhaseView::Done(
                UpdateLog::Merged,
            ),
            _ => self,
        }
    }

    /// How many operations an update can still ask for, the pending one
    /// included.
    pub open spec fn operations_left(self) -> nat {
        match self {
            UpdatePhaseView::Fetch(_, _) => 4,
            UpdatePhaseView::Analyze(_) => 3,
            UpdatePhaseView::FindBranch(_) => 2,
            UpdatePhaseView::MergeTrees => 2,
            UpdatePhaseView::Retarget(_, _) => 1,
            UpdatePhaseView::CreateBranch(_, _) => 1,
            UpdatePhaseView::CheckoutConflicts => 1,
            UpdatePhaseView::Commit(_) => 1,
            UpdatePhaseView::Done(_) => 0,
            UpdatePhaseView::Failed(_) => 0,
        }
    }
}

/// The name of the remote that updates come from.
pub fn origin() -> (name: String)
    ensures
        name@ == remote_name(),
{
    String::from_str("origin")
}

/// The phase in which an update of `branch` starts: a fetch of the branch
/// from the remote `origin`.
pub fn start_update(branch: String) -> (phase: UpdatePhase)
    ensures
        phase@ == UpdatePhaseView::start(branch@),
{
    UpdatePhase::Fetch(origin(), branch)
}

/// Chooses how the fetched commit is brought into `branch`, given the
/// merge analysis.
pub fn merge_updates(branch: &str, analysis: &git2::MergeAnalysis) -> (phase: UpdatePhase)
    ensures
        phase@ == merge_choice(
            branch@,
            analysis_fast_forward(*analysis),
            analysis_normal(*analysis),
        ),
{
    choose_merge(branch, is_fast_forward(analysis), is_normal(analysis))
}

/// Chooses how the fetched commit is brought into `branch`, given whether
/// the analysis allows a fast-forward and whether it asks for a merge.
pub fn choose_merge(branch: &str, fast_forward: bool, normal: bool) -> (phase: UpdatePhase)
    ensures
        phase@ == merge_choice(branch@, fast_forward, normal),
{
    if fast_forward {
        UpdatePhase::FindBranch(String::from_str("refs/heads/").concat(branch))
    } else if normal {
        UpdatePhase::MergeTrees
    } else {
        UpdatePhase::Done(UpdateLog::UpToDate)
    }
}

/// Chooses how merged trees are finished, given whether they conflict.
pub fn perform_merge(conflicts: bool) -> (phase: UpdatePhase)
    ensures
        phase@ == merge_finish(conflicts),
{
    if conflicts {
        UpdatePhase::CheckoutConflicts
    } else {
        UpdatePhase::Commit(String::from_str("Merge commit"))
    }
}

/// Takes the update from the pending operation to the next one, given what
/// the pending operation gave.
pub fn update_repo(phase: UpdatePhase, event: UpdateEvent) -> (next: UpdatePhase)
    ensures
        next@ == phase@.next(event),
        next@ == phase@ || next@.operations_left() < phase@.operations_left(),
{
    match (phase, event) {
        (UpdatePhase::Done(log), _) => UpdatePhase::Done(log),
        (UpdatePhase::Failed(error), _) => UpdatePhase::Failed(error),
        (UpdatePhase::FindBranch(name), UpdateEvent::Failed(_)) => UpdatePhase::CreateBranch(
            name,
            String::from_str("Setting new branch"),
        ),
        (_, UpdateEvent::Failed(error)) => UpdatePhase::Failed(error),
        (UpdatePhase::Fetch(_, branch), UpdateEvent::Done) => UpdatePhase::Analyze(branch),
        (UpdatePhase::Analyze(branch), UpdateEvent::Analysis(analysis)) => merge_updates(
            branch.as_str(),
            &analysis,
        ),
        (UpdatePhase::FindBranch(name), UpdateEvent::Branch(found)) => {
            if found {
                UpdatePhase::Retarget(name, String::from_str("Fast-forward"))
            } else {
                UpdatePhase::CreateBranch(name, String::from_str("Setting new branch"))
            }
        },
        (UpdatePhase::Retarget(_, _), UpdateEvent::Done) => UpdatePhase::Done(
            UpdateLog::FastForwarded,
        ),
        (UpdatePhase::CreateBranch(_, _), UpdateEvent::Done) => UpdatePhase::Done(
            UpdateLog::FastForwarded,
        ),
        (UpdatePhase::MergeTrees, UpdateEvent::Trees(conflicts)) => perform_merge(conflicts),
        (UpdatePhase::CheckoutConflicts, UpdateEvent::Done) => UpdatePhase::Done(
            UpdateLog::Conflicts,
        ),
        (UpdatePhase::Commit(_), UpdateEvent::Done) => UpdatePhase::Done(UpdateLog::Merged),
        (phase, _) => phase,
    }
}

/// The result of an update that is over, for the updater: what it did, or
/// why it failed. `None` while an operation is pending.
pub fn update_result(phase: UpdatePhase) -> (result: Option<Result<UpdateLog, git2::Error>>)
    ensures
        match phase {
            UpdatePhase::Done(log) => result == Some(Ok::<UpdateLog, git2::Error>(log)),
            UpdatePhase::Failed(error) => result == Some(Err::<UpdateLog, git2::Error>(error)),
            _ => result is None,
        },
{
    match phase {
        UpdatePhase::Done(log) => Some(Ok(log)),
        UpdatePhase::Failed(error) => Some(Err(error)),
        _ => None,
    }
}

/// An update that is over, done or failed, stays as it is.
pub proof fn law_update_ends(phase: UpdatePhaseView, event: UpdateEvent)
    requires
        phase is Done || phase is Failed,
    ensures
        phase.next(event) == phase,
{
}

/// Every operation that an update asks for leaves fewer to ask for: no
/// update asks for more than four.
pub proof fn law_update_makes_progress(phase: UpdatePhaseView, event: UpdateEvent)
    ensures
        phase.next(event) == phase || phase.next(event).operations_left()
            < phase.operations_left(),
{
}

} // verus!

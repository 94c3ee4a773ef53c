//! The updater: it polls the remote for new commits, brings them in, and
//! reports to the supervisor.
//!
//! The updater is a state machine. Its phase names the action that the
//! caller carries out next; the caller reports what the action gave as an
//! event and receives the next phase.

use vstd::prelude::*;
use crate::divergence::UpdateRelationState;
use crate::errors::{outcome_of, GdepError, GdepErrorView};
use crate::update::UpdateLog;

verus! {

/// The action that the caller carries out next.
#[derive(Debug, PartialEq)]
pub enum UpdaterPhase {
    /// Open the working copy.
    Open,
    /// Read the stop flag.
    CheckStop,
    /// Send a heartbeat: no failure, not the last event.
    Heartbeat,
    /// Fetch the branch from the remote and count the commits that each
    /// side holds alone.
    Poll,
    /// Bring the remote's commits into the working copy.
    Merge,
    /// Send the last event, with this outcome.
    Terminal(Option<GdepError>),
    /// Return: the updater has ended.
    Stopped,
}

/// An `UpdaterPhase` with its texts as sequences of characters.
pub enum UpdaterPhaseView {
    Open,
    CheckStop,
    Heartbeat,
    Poll,
    Merge,
    Terminal(Option<GdepErrorView>),
    Stopped,
}

impl View for UpdaterPhase {
    type V = UpdaterPhaseView;

    open spec fn view(&self) -> UpdaterPhaseView {
        match *self {
            UpdaterPhase::Open => UpdaterPhaseView::Open,
            UpdaterPhase::CheckStop => UpdaterPhaseView::CheckStop,
            UpdaterPhase::Heartbeat => UpdaterPhaseView::Heartbeat,
            UpdaterPhase::Poll => UpdaterPhaseView::Poll,
            UpdaterPhase::Merge => UpdaterPhaseView::Merge,
            UpdaterPhase::Terminal(outcome) => UpdaterPhaseView::Terminal(outcome_of(outcome)),
            UpdaterPhase::Stopped => UpdaterPhaseView::Stopped,
        }
    }
}

/// What carrying out an action gave.
#[derive(Debug, PartialEq)]
pub enum UpdaterEvent {
    /// Whether the working copy could be opened.
    Opened(bool),
    /// The value of the stop flag.
    Stop(bool),
    /// The heartbeat or the last event has been sent.
    Sent,
    /// The commits that the local side holds alone, then those that the
    /// remote side holds alone; or why they could not be counted.
    Polled(Result<(usize, usize), git2::Error>),
    /// What the update did, or why it failed.
    Merged(Result<UpdateLog, git2::Error>),
}

impl UpdaterPhaseView {
    /// What the updater does once it knows how the two sides stand: it goes
    /// round again where nothing is new, updates where only the remote is
    /// ahead, and ends with an error where the local side holds commits of
    /// its own.
    pub open spec fn after_poll(relation: UpdateRelationState) -> UpdaterPhaseView {
        match relation {
            UpdateRelationState::Up2Date => UpdaterPhaseView::CheckStop,
            UpdateRelationState::Ahead(ahead) => UpdaterPhaseView::Terminal(
                Some(GdepErrorView::UpdateErrorRepoAhead(ahead)),
            ),
            UpdateRelationState::Behind(_) => UpdaterPhaseView::Merge,
            UpdateRelationState::AheadBehind(ahead, behind) => UpdaterPhaseView::Terminal(
                Some(GdepErrorView::UpdateErrorAheadBehind(ahead, behind)),
            ),
        }
    }

    /// The phase after `event`. An event that does not answer the pending
    /// action leaves the phase as it is.
    pub open spec fn next(self, event: UpdaterEvent) -> UpdaterPhaseView {
        match (self, event) {
            (UpdaterPhaseView::Open, UpdaterEvent::Opened(true)) => UpdaterPhaseView::CheckStop,
            (UpdaterPhaseView::Open, UpdaterEvent::Opened(false)) => UpdaterPhaseView::Terminal(
                None,
            ),
            (UpdaterPhaseView::CheckStop, UpdaterEvent::Stop(true)) => UpdaterPhaseView::Terminal(
                None,
            ),
            (UpdaterPhaseView::CheckStop, UpdaterEvent::Stop(false)) => UpdaterPhaseView::Heartbeat,
            (UpdaterPhaseView::Heartbeat, UpdaterEvent::Sent) => UpdaterPhaseView::Poll,
            (UpdaterPhaseView::Poll, UpdaterEvent::Polled(Ok((ahead, behind)))) => {
                Self::after_poll(UpdateRelationState::of_counts(ahead, behind))
            },
            (UpdaterPhaseView::Poll, UpdaterEvent::Polled(Err(error))) => {
                UpdaterPhaseView::Terminal(Some(GdepError::of_git(error)))
            },
            (UpdaterPhaseView::Merge, UpdaterEvent::Merged(Ok(_))) => UpdaterPhaseView::Terminal(
                None,
            ),
            (UpdaterPhaseView::Merge, UpdaterEvent::Merged(Err(error))) => {
                UpdaterPhaseView::Terminal(Some(GdepError::of_failed_update(error)))
            },
            (UpdaterPhaseView::Terminal(_), UpdaterEvent::Sent) => UpdaterPhaseView::Stopped,
            _ => self,
        }
    }

    /// The phase after a sequence of events, taken in order.
    pub open spec fn run(self, events: Seq<UpdaterEvent>) -> UpdaterPhaseView
        decreases events.len(),
    {
        if events.len() == 0 {
            self
        } else {
            self.next(events[0]).run(events.drop_first())
        }
    }

    /// How many last events are sent while the events are taken in order:
    /// one for each `Sent` that answers `Terminal`.
    pub open spec fn terminals(self, events: Seq<UpdaterEvent>) -> nat
        decreases events.len(),
    {
        if events.len() == 0 {
            0
        } else {
            let here: nat = if self is Terminal && events[0] is Sent {
                1
            } else {
                0
            };
            here + self.next(events[0]).terminals(events.drop_first())
        }
    }

    /// How many heartbeats are sent while the events are taken in order.
    pub open spec fn heartbeats(self, events: Seq<UpdaterEvent>) -> nat
        decreases events.len(),
    {
        if events.len() == 0 {
            0
        } else {
            let here: nat = if self is Heartbeat && events[0] is Sent {
                1
            } else {
                0
            };
            here + self.next(events[0]).heartbeats(events.drop_first())
        }
    }

    /// How many polls of the remote are made while the events are taken in
    /// order.
    pub open spec fn polls(self, events: Seq<UpdaterEvent>) -> nat
        decreases events.len(),
    {
        if events.len() == 0 {
            0
        } else {
            let here: nat = if self is Poll && events[0] is Polled {
                1
            } else {
                0
            };
            here + self.next(events[0]).polls(events.drop_first())
        }
    }
}

/// The event that the updater sends to the supervisor in this phase: the
/// outcome so far, and whether the event is the last.
pub fn signal(phase: &UpdaterPhase) -> (sent: Option<(Option<GdepError>, bool)>)
    ensures
        match *phase {
            UpdaterPhase::Heartbeat => sent matches Some((None, false)),
            UpdaterPhase::Terminal(outcome) => sent matches Some((reported, true)) && outcome_of(
                reported,
            ) == outcome_of(outcome),
            _ => sent is None,
        },
{
    match phase {
        UpdaterPhase::Heartbeat => Some((None, false)),
        UpdaterPhase::Terminal(outcome) => {
            let reported = match outcome {
                Some(error) => Some(error.duplicate()),
                None => None,
            };
            Some((reported, true))
        },
        _ => None,
    }
}

/// Takes the updater from the pending action to the next one, given what
/// the pending action gave.
pub fn update_sync(phase: UpdaterPhase, event: UpdaterEvent) -> (next: UpdaterPhase)
    ensures
        next@ == phase@.next(event),
        phase is CheckStop && event == UpdaterEvent::Stop(true) ==> next@
            == UpdaterPhaseView::Terminal(None),
        next is Poll ==> phase is Poll || (phase is Heartbeat && event is Sent),
        next is Stopped ==> phase is Stopped || (phase is Terminal && event is Sent),
{
    match (phase, event) {
        (UpdaterPhase::Open, UpdaterEvent::Opened(opened)) => {
            if opened {
                UpdaterPhase::CheckStop
            } else {
                UpdaterPhase::Terminal(None)
            }
        },
        (UpdaterPhase::CheckStop, UpdaterEvent::Stop(stop)) => {
            if stop {
                UpdaterPhase::Terminal(None)
            } else {
                UpdaterPhase::Heartbeat
            }
        },
        (UpdaterPhase::Heartbeat, UpdaterEvent::Sent) => UpdaterPhase::Poll,
        (UpdaterPhase::Poll, UpdaterEvent::Polled(Ok((ahead, behind)))) => {
            match UpdateRelationState::classify(ahead, behind) {
                UpdateRelationState::Up2Date => UpdaterPhase::CheckStop,
                UpdateRelationState::Ahead(ahead) => UpdaterPhase::Terminal(
                    Some(GdepError::UpdateErrorRepoAhead(ahead)),
                ),
                UpdateRelationState::Behind(_) => UpdaterPhase::Merge,
                UpdateRelationState::AheadBehind(ahead, behind) => UpdaterPhase::Terminal(
                    Some(GdepError::UpdateErrorAheadBehind(ahead, behind)),
                ),
            }
        },
        (UpdaterPhase::Poll, UpdaterEvent::Polled(Err(error))) => UpdaterPhase::Terminal(
            Some(GdepError::git_failed(&error)),
        ),
        (UpdaterPhase::Merge, UpdaterEvent::Merged(Ok(_))) => UpdaterPhase::Terminal(None),
        (UpdaterPhase::Merge, UpdaterEvent::Merged(Err(error))) => UpdaterPhase::Terminal(
            Some(GdepError::update_failed(&error)),
        ),
        (UpdaterPhase::Terminal(_), UpdaterEvent::Sent) => UpdaterPhase::Stopped,
        (phase, _) => phase,
    }
}

/// An updater that has ended sends nothing more and polls no more.
pub proof fn law_stopped_is_final(events: Seq<UpdaterEvent>)
    ensures
        UpdaterPhaseView::Stopped.run(events) == UpdaterPhaseView::Stopped,
        UpdaterPhaseView::Stopped.terminals(events) == 0,
        UpdaterPhaseView::Stopped.heartbeats(events) == 0,
        UpdaterPhaseView::Stopped.polls(events) == 0,
    decreases events.len(),
{
    if events.len() > 0 {
        law_stopped_is_final(events.drop_first());
    }
}

/// An updater that is about to send its last event sends that one event,
/// and neither a heartbeat nor a poll comes after it.
pub proof fn law_terminal_is_last(outcome: Option<GdepErrorView>, events: Seq<UpdaterEvent>)
    ensures
        UpdaterPhaseView::Terminal(outcome).terminals(events) <= 1,
        UpdaterPhaseView::Terminal(outcome).heartbeats(events) == 0,
        UpdaterPhaseView::Terminal(outcome).polls(events) == 0,
        UpdaterPhaseView::Terminal(outcome).run(events) is Stopped <==> UpdaterPhaseView::Terminal(
            outcome,
        ).terminals(events) == 1,
        UpdaterPhaseView::Terminal(outcome).run(events) is Stopped
            || UpdaterPhaseView::Terminal(outcome).run(events) == UpdaterPhaseView::Terminal(
            outcome,
        ),
    decreases events.len(),
{
    if events.len() > 0 {
        if events[0] is Sent {
            law_stopped_is_final(events.drop_first());
        } else {
            law_terminal_is_last(outcome, events.drop_first());
        }
    }
}

/// Whatever happens, the updater sends at most one last event, and exactly
/// one where it has ended.
pub proof fn law_one_terminal_event(phase: UpdaterPhaseView, events: Seq<UpdaterEvent>)
    requires
        !(phase is Stopped),
    ensures
        phase.terminals(events) <= 1,
        phase.run(events) is Stopped <==> phase.terminals(events) == 1,
    decreases events.len(),
{
    if events.len() > 0 {
        let next = phase.next(events[0]);
        if next is Stopped {
            law_stopped_is_final(events.drop_first());
        } else {
            law_one_terminal_event(next, events.drop_first());
        }
    }
}

/// An updater that finds the stop flag raised sends its last event without
/// a failure and ends: it sends no heartbeat and polls the remote no more.
pub proof fn law_stop_ends_without_fetching(events: Seq<UpdaterEvent>)
    ensures
        UpdaterPhaseView::CheckStop.next(UpdaterEvent::Stop(true)) == UpdaterPhaseView::Terminal(
            None,
        ),
        UpdaterPhaseView::CheckStop.next(UpdaterEvent::Stop(true)).polls(events) == 0,
        UpdaterPhaseView::CheckStop.next(UpdaterEvent::Stop(true)).heartbeats(events) == 0,
{
    law_terminal_is_last(None, events);
}

/// A heartbeat goes before every poll: at any moment the updater has polled
/// no more often than it has sent heartbeats.
pub proof fn law_heartbeat_before_poll(phase: UpdaterPhaseView, events: Seq<UpdaterEvent>)
    ensures
        phase.polls(events) <= phase.heartbeats(events) + if phase is Poll {
            1nat
        } else {
            0nat
        },
    decreases events.len(),
{
    if events.len() > 0 {
        law_heartbeat_before_poll(phase.next(events[0]), events.drop_first());
    }
}

} // verus!

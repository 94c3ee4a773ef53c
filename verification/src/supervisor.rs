//! The supervisor of one session: it starts the script and the updater,
//! watches both, shuts both down and decides whether to start over.
//!
//! The supervisor is a state machine. Its state names the action that the
//! caller carries out next; the caller reports what the action gave as an
//! event and receives the next state.

use vstd::prelude::*;
use crate::config::Config;
use crate::errors::GdepError;

verus! {

/// The action that the caller carries out next.
#[derive(Debug, Clone, Copy, PartialEq, Eq, Structural)]
pub enum Phase {
    /// Start the script as a child process, then start the updater.
    Spawn,
    /// Wait for the next event of the updater.
    Receive,
    /// Ask, without waiting, whether the child has exited.
    Poll,
    /// Raise the stop flag that the updater reads.
    SignalStop,
    /// Kill the child.
    Kill,
    /// Wait for the updater to end.
    Join,
    /// Take the next event that the updater has left behind: it has ended,
    /// and its last event has not been received yet.
    Drain,
    /// Return: the session is over.
    Finished,
}

/// What a poll of the child gave.
#[derive(Debug, Clone, Copy, PartialEq, Eq, Structural)]
pub enum ChildStatus {
    /// The child is still running.
    Running,
    /// The child has exited; holds whether it reported success.
    Exited(bool),
    /// The poll itself failed.
    Unknown,
}

/// What carrying out an action gave.
#[derive(Debug, PartialEq)]
pub enum Event {
    /// The action is done: children started, flag raised, child killed or
    /// updater joined.
    Done,
    /// The updater sent its outcome so far, and whether this is its last
    /// event.
    Updater(Option<GdepError>, bool),
    /// The child was polled.
    Child(ChildStatus),
}

/// The state of a session.
#[derive(Debug, PartialEq)]
pub struct Supervisor {
    /// The action to carry out next.
    pub phase: Phase,
    /// Whether a child of the current run may still be running.
    pub child_alive: bool,
    /// Whether the updater of the current run has not been joined yet.
    pub updater_alive: bool,
    /// The exit status of the child in the current run, once it was seen:
    /// `Some(true)` for success.
    pub exit: Option<bool>,
    /// The outcome in the latest event that was received from the updater
    /// in this run.
    pub reported: Option<GdepError>,
    /// Whether that event was the updater's last.
    pub terminal: bool,
    /// Whether the first run has ended.
    pub first_over: bool,
    /// The updater's outcome at the end of the first run.
    pub result: Option<GdepError>,
}

impl Supervisor {
    /// The state before anything has been started.
    pub open spec fn initial() -> Supervisor {
        Supervisor {
            phase: Phase::Spawn,
            child_alive: false,
            updater_alive: false,
            exit: None,
            reported: None,
            terminal: false,
            first_over: false,
            result: None,
        }
    }

    /// Whether a run that ended in this state is followed by another one:
    /// the configuration asks for it, and neither a failed script nor a
    /// failed updater forbids it. A run ends once the updater's last event
    /// has been received, so `reported` is the outcome of that event.
    pub open spec fn restarts(self, config: Config) -> bool {
        &&& config.re_run
        &&& !(config.exit_on_script_error && self.exit == Some(false))
        &&& !(config.exit_on_gdep_error && self.reported is Some)
    }

    /// The state after the run has ended: the script is started again or
    /// the session finishes, and the first run leaves its outcome behind.
    pub open spec fn settle(self, config: Config) -> Supervisor {
        Supervisor {
            phase: if self.restarts(config) {
                Phase::Spawn
            } else {
                Phase::Finished
            },
            reported: None,
            first_over: true,
            result: if self.first_over {
                self.result
            } else {
                self.reported
            },
            ..self
        }
    }

    /// The state after `event`. A run ends only once the updater's last
    /// event has been received: where the script's exit ended the watch
    /// before that, the events that the updater left behind are taken after
    /// it has been joined. An event that does not answer the pending action
    /// leaves the state as it is.
    pub open spec fn next(self, config: Config, event: Event) -> Supervisor {
        match (self.phase, event) {
            (Phase::Spawn, Event::Done) => Supervisor {
                phase: Phase::Receive,
                child_alive: true,
                updater_alive: true,
                exit: None,
                reported: None,
                terminal: false,
                ..self
            },
            (Phase::Receive, Event::Updater(outcome, terminal)) => Supervisor {
                phase: Phase::Poll,
                reported: outcome,
                terminal: terminal,
                ..self
            },
            (Phase::Poll, Event::Child(ChildStatus::Running)) => Supervisor {
                phase: if self.terminal {
                    Phase::SignalStop
                } else {
                    Phase::Receive
                },
                ..self
            },
            (Phase::Poll, Event::Child(ChildStatus::Exited(success))) => Supervisor {
                phase: Phase::SignalStop,
                child_alive: false,
                exit: Some(success),
                ..self
            },
            (Phase::Poll, Event::Child(ChildStatus::Unknown)) => Supervisor {
                phase: Phase::SignalStop,
                ..self
            },
            (Phase::SignalStop, Event::Done) => Supervisor {
                phase: if self.child_alive {
                    Phase::Kill
                } else {
                    Phase::Join
                },
                ..self
            },
            (Phase::Kill, Event::Done) => Supervisor {
                phase: Phase::Join,
                child_alive: false,
                ..self
            },
            (Phase::Join, Event::Done) => if self.terminal {
                Supervisor { updater_alive: false, ..self }.settle(config)
            } else {
                Supervisor { phase: Phase::Drain, updater_alive: false, ..self }
            },
            (Phase::Drain, Event::Updater(outcome, terminal)) => if terminal {
                Supervisor { reported: outcome, terminal: true, ..self }.settle(config)
            } else {
                Supervisor { reported: outcome, ..self }
            },
            _ => self,
        }
    }

    /// What holds of every state that a session passes through: between
    /// runs and at the end nothing is left running, the child is killed
    /// only where it may be alive, the updater is joined only once the
    /// child is gone, and events are taken after the join only while the
    /// updater's last one is outstanding.
    pub open spec fn inv(self) -> bool {
        match self.phase {
            Phase::Spawn | Phase::Finished => !self.child_alive && !self.updater_alive,
            Phase::Receive | Phase::Poll => self.child_alive && self.updater_alive,
            Phase::SignalStop => self.updater_alive,
            Phase::Kill => self.child_alive && self.updater_alive,
            Phase::Join => !self.child_alive && self.updater_alive,
            Phase::Drain => !self.child_alive && !self.updater_alive && !self.terminal,
        }
    }

    /// The state after a sequence of events, taken in order.
    pub open spec fn run(self, config: Config, events: Seq<Event>) -> Supervisor
        decreases events.len(),
    {
        if events.len() == 0 {
            self
        } else {
            self.next(config, events[0]).run(config, events.drop_first())
        }
    }

    /// How often the script is started while the events are taken in order:
    /// a start is a `Done` that answers `Spawn`.
    pub open spec fn spawns(self, config: Config, events: Seq<Event>) -> nat
        decreases events.len(),
    {
        if events.len() == 0 {
            0
        } else {
            let here: nat = if self.phase is Spawn && events[0] is Done {
                1
            } else {
                0
            };
            here + self.next(config, events[0]).spawns(config, events.drop_first())
        }
    }

    /// Whether the current run has seen the script fail under a
    /// configuration that ends the session on a failed script.
    pub open spec fn script_failed(self, config: Config) -> bool {
        &&& config.exit_on_script_error
        &&& self.exit == Some(false)
        &&& (self.phase is SignalStop || self.phase is Kill || self.phase is Join || self.phase
            is Drain)
    }

    /// Whether the current run has received a failure as the updater's last
    /// event, and has not ended yet, under a configuration that ends the
    /// session on a failed updater.
    pub open spec fn updater_failed(self, config: Config) -> bool {
        &&& config.exit_on_gdep_error
        &&& self.terminal
        &&& self.reported is Some
        &&& (self.phase is Poll || self.phase is SignalStop || self.phase is Kill
            || self.phase is Join)
    }

    /// The state at the start of a session.
    pub fn new() -> (state: Supervisor)
        ensures
            state == Self::initial(),
            state.inv(),
    {
        Supervisor {
            phase: Phase::Spawn,
            child_alive: false,
            updater_alive: false,
            exit: None,
            reported: None,
            terminal: false,
            first_over: false,
            result: None,
        }
    }

    /// Decides whether the run that ends in this state is followed by
    /// another one.
    pub fn rerun(&self, config: &Config) -> (again: bool)
        ensures
            again == self.restarts(*config),
            !config.re_run ==> !again,
            config.exit_on_script_error && self.exit == Some(false) ==> !again,
            config.exit_on_gdep_error && self.reported is Some ==> !again,
    {
        let mut again = config.re_run;
        if config.exit_on_script_error {
            match self.exit {
                Some(success) => {
                    if !success {
                        again = false;
                    }
                },
                None => {},
            }
        }
        if config.exit_on_gdep_error && self.reported.is_some() {
            again = false;
        }
        again
    }

    /// Ends the session: hands out the updater's outcome at the end of the
    /// first run.
    pub fn outcome(self) -> (result: Option<GdepError>)
        ensures
            result == self.result,
    {
        self.result
    }
}

/// Ends the run: starts the script again or finishes the session, and
/// keeps the outcome of the first run.
fn settle(state: Supervisor, config: &Config) -> (next: Supervisor)
    ensures
        next == state.settle(*config),
{
    let again = state.rerun(config);
    let Supervisor {
        child_alive,
        updater_alive,
        exit,
        reported,
        terminal,
        first_over,
        result,
        ..
    } = state;
    Supervisor {
        phase: if again {
            Phase::Spawn
        } else {
            Phase::Finished
        },
        child_alive,
        updater_alive,
        exit,
        reported: None,
        terminal,
        first_over: true,
        result: if first_over {
            result
        } else {
            reported
        },
    }
}

/// Takes the supervisor from the pending action to the next one, given
/// what the pending action gave.
pub fn execute(state: Supervisor, config: &Config, event: Event) -> (next: Supervisor)
    ensures
        next == state.next(*config, event),
        state.inv() ==> next.inv(),
        next.phase is Spawn && !(state.phase is Spawn) ==> config.re_run,
        next.phase is Spawn && !(state.phase is Spawn) && config.exit_on_script_error
            ==> state.exit != Some(false),
        next.phase is Spawn && !(state.phase is Spawn) && config.exit_on_gdep_error ==> (
        state.phase is Join && state.terminal && state.reported is None) || (state.phase is Drain
            && event == Event::Updater(None, true)),
{
    match (state.phase, event) {
        (Phase::Spawn, Event::Done) => Supervisor {
            phase: Phase::Receive,
            child_alive: true,
            updater_alive: true,
            exit: None,
            reported: None,
            terminal: false,
            ..state
        },
        (Phase::Receive, Event::Updater(outcome, last)) => Supervisor {
            phase: Phase::Poll,
            reported: outcome,
            terminal: last,
            ..state
        },
        (Phase::Poll, Event::Child(ChildStatus::Running)) => Supervisor {
            phase: if state.terminal {
                Phase::SignalStop
            } else {
                Phase::Receive
            },
            ..state
        },
        (Phase::Poll, Event::Child(ChildStatus::Exited(success))) => Supervisor {
            phase: Phase::SignalStop,
            child_alive: false,
            exit: Some(success),
            ..state
        },
        (Phase::Poll, Event::Child(ChildStatus::Unknown)) => Supervisor {
            phase: Phase::SignalStop,
            ..state
        },
        (Phase::SignalStop, Event::Done) => Supervisor {
            phase: if state.child_alive {
                Phase::Kill
            } else {
                Phase::Join
            },
            ..state
        },
        (Phase::Kill, Event::Done) => Supervisor {
            phase: Phase::Join,
            child_alive: false,
            ..state
        },
        (Phase::Join, Event::Done) => {
            if state.terminal {
                settle(Supervisor { updater_alive: false, ..state }, config)
            } else {
                Supervisor { phase: Phase::Drain, updater_alive: false, ..state }
            }
        },
        (Phase::Drain, Event::Updater(outcome, last)) => {
            if last {
                settle(Supervisor { reported: outcome, terminal: true, ..state }, config)
            } else {
                Supervisor { reported: outcome, ..state }
            }
        },
        (_, _) => state,
    }
}

/// Whatever events arrive, the session keeps its invariant. When it has
/// finished, and whenever it is about to start the script again, no child
/// is alive and the updater has been joined.
pub proof fn law_nothing_outlives_a_run(state: Supervisor, config: Config, events: Seq<Event>)
    requires
        state.inv(),
    ensures
        state.run(config, events).inv(),
        state.run(config, events).phase is Finished || state.run(config, events).phase is Spawn
            ==> !state.run(config, events).child_alive && !state.run(
            config,
            events,
        ).updater_alive,
    decreases events.len(),
{
    if events.len() > 0 {
        law_nothing_outlives_a_run(state.next(config, events[0]), config, events.drop_first());
    }
}

/// A finished session stays finished and starts nothing.
pub proof fn law_finished_is_final(state: Supervisor, config: Config, events: Seq<Event>)
    requires
        state.phase is Finished,
    ensures
        state.run(config, events) == state,
        state.spawns(config, events) == 0,
    decreases events.len(),
{
    if events.len() > 0 {
        law_finished_is_final(state.next(config, events[0]), config, events.drop_first());
    }
}

/// A run that has seen a failure which ends the session, or any run of a
/// session without `re_run`, never leads to another start of the script.
proof fn lemma_no_restart(state: Supervisor, config: Config, events: Seq<Event>)
    requires
        state.script_failed(config) || state.updater_failed(config) || (!config.re_run && !(
        state.phase is Spawn)),
    ensures
        state.spawns(config, events) == 0,
        !(state.run(config, events).phase is Spawn),
    decreases events.len(),
{
    if events.len() > 0 {
        let next = state.next(config, events[0]);
        if next.phase is Finished {
            law_finished_is_final(next, config, events.drop_first());
        } else {
            lemma_no_restart(next, config, events.drop_first());
        }
    }
}

/// Without `re_run` the script is started at most once in a session, and
/// exactly once in a session that finishes.
pub proof fn law_single_spawn_without_rerun(config: Config, events: Seq<Event>)
    requires
        !config.re_run,
    ensures
        Supervisor::initial().spawns(config, events) <= 1,
        Supervisor::initial().run(config, events).phase is Finished ==> Supervisor::initial().spawns(
            config,
            events,
        ) == 1,
{
    lemma_single_spawn(Supervisor::initial(), config, events);
}

proof fn lemma_single_spawn(state: Supervisor, config: Config, events: Seq<Event>)
    requires
        !config.re_run,
        state.phase is Spawn,
    ensures
        state.spawns(config, events) <= 1,
        state.run(config, events).phase is Finished ==> state.spawns(config, events) == 1,
    decreases events.len(),
{
    if events.len() > 0 {
        let next = state.next(config, events[0]);
        if next.phase is Spawn {
            lemma_single_spawn(next, config, events.drop_first());
        } else {
            lemma_no_restart(next, config, events.drop_first());
        }
    }
}

/// Once a run has seen the script exit with a failure, and the
/// configuration ends the session on a failed script, the script is never
/// started again.
pub proof fn law_script_failure_ends_session(
    state: Supervisor,
    config: Config,
    events: Seq<Event>,
)
    requires
        state.script_failed(config),
    ensures
        state.spawns(config, events) == 0,
        !(state.run(config, events).phase is Spawn),
{
    lemma_no_restart(state, config, events);
}

/// Whenever the updater's last event carries a failure, and the
/// configuration ends the session on a failed updater, the script is never
/// started again: whether the event is received while the script is
/// watched, or is taken after the script's exit has ended the watch.
pub proof fn law_updater_failure_ends_session(
    state: Supervisor,
    config: Config,
    error: GdepError,
    events: Seq<Event>,
)
    requires
        config.exit_on_gdep_error,
        state.phase is Receive || state.phase is Drain,
    ensures
        state.next(config, Event::Updater(Some(error), true)).spawns(config, events) == 0,
        !(state.next(config, Event::Updater(Some(error), true)).run(config, events).phase
            is Spawn),
{
    let taken = state.next(config, Event::Updater(Some(error), true));
    if taken.phase is Finished {
        law_finished_is_final(taken, config, events);
    } else {
        lemma_no_restart(taken, config, events);
    }
}

/// No run ends before the updater's last event has been received: the
/// script is started again, or the session finishes, only on that event or
/// on the join that follows it.
pub proof fn law_run_ends_on_last_event(state: Supervisor, config: Config, event: Event)
    requires
        !(state.phase is Spawn),
        !(state.phase is Finished),
    ensures
        state.next(config, event).phase is Spawn || state.next(config, event).phase is Finished
            ==> (state.phase is Join && state.terminal && event is Done) || (state.phase is Drain
            && event matches Event::Updater(_, true)),
{
}

} // verus!

use gdep::config::{Config, RepoLike};
use gdep::errors::GdepError;
use gdep::supervisor::{execute, ChildStatus, Event, Phase, Supervisor};

fn config(re_run: bool, exit_on_script_error: bool, exit_on_gdep_error: bool) -> Config {
    Config {
        name: "x".to_string(),
        re_run,
        restart_after_update: false,
        exit_on_script_error,
        exit_on_gdep_error,
        script: "exit 0".to_string(),
        repo: RepoLike::Local("/tmp/r".to_string()),
        cleanup: None,
    }
}

/// Takes the events in order; returns the final state, the phases passed
/// through, and how often the script was started.
fn drive(config: &Config, events: Vec<Event>) -> (Supervisor, Vec<Phase>, usize) {
    let mut state = Supervisor::new();
    let mut phases = vec![state.phase];
    let mut spawns = 0;
    for event in events {
        if state.phase == Phase::Spawn && event == Event::Done {
            spawns += 1;
        }
        state = execute(state, config, event);
        phases.push(state.phase);
    }
    (state, phases, spawns)
}

fn heartbeat() -> Event {
    Event::Updater(None, false)
}

fn running() -> Event {
    Event::Child(ChildStatus::Running)
}

fn last_ok() -> Event {
    Event::Updater(None, true)
}

#[test]
fn new_supervisor_is_about_to_spawn() {
    let state = Supervisor::new();
    assert_eq!(state.phase, Phase::Spawn);
    assert!(!state.child_alive && !state.updater_alive);
    assert_eq!(state.exit, None);
    assert_eq!(state.reported, None);
    assert!(!state.first_over);
    assert_eq!(state.outcome(), None);
}

#[test]
fn happy_path_with_up_to_date_remote() {
    let config = config(false, true, true);
    let (state, phases, spawns) = drive(
        &config,
        vec![
            Event::Done,
            heartbeat(),
            running(),
            heartbeat(),
            Event::Child(ChildStatus::Exited(true)),
            Event::Done,
            Event::Done,
            last_ok(),
        ],
    );
    assert_eq!(
        phases,
        vec![
            Phase::Spawn,
            Phase::Receive,
            Phase::Poll,
            Phase::Receive,
            Phase::Poll,
            Phase::SignalStop,
            Phase::Join,
            Phase::Drain,
            Phase::Finished,
        ]
    );
    assert_eq!(spawns, 1);
    assert!(!state.child_alive && !state.updater_alive);
    assert_eq!(state.exit, Some(true));
    assert_eq!(state.outcome(), None);
}

#[test]
fn failed_script_is_not_run_again() {
    let config = config(true, true, true);
    let (state, phases, spawns) = drive(
        &config,
        vec![
            Event::Done,
            heartbeat(),
            Event::Child(ChildStatus::Exited(false)),
            Event::Done,
            Event::Done,
            last_ok(),
        ],
    );
    assert_eq!(phases.last(), Some(&Phase::Finished));
    assert!(!phases.contains(&Phase::Kill));
    assert_eq!(spawns, 1);
    assert_eq!(state.exit, Some(false));
    assert_eq!(state.outcome(), None);
}

#[test]
fn failed_script_is_run_again_where_failures_are_ignored() {
    let config = config(true, false, true);
    let (state, _, spawns) = drive(
        &config,
        vec![
            Event::Done,
            heartbeat(),
            Event::Child(ChildStatus::Exited(false)),
            Event::Done,
            Event::Done,
            last_ok(),
            Event::Done,
        ],
    );
    assert_eq!(state.phase, Phase::Receive);
    assert_eq!(spawns, 2);
    assert!(state.child_alive && state.updater_alive);
    assert_eq!(state.exit, None);
}

#[test]
fn update_kills_the_script_and_starts_over() {
    let config = config(true, true, true);
    let (state, phases, spawns) = drive(
        &config,
        vec![
            Event::Done,
            heartbeat(),
            running(),
            Event::Updater(None, true),
            running(),
            Event::Done,
            Event::Done,
            Event::Done,
        ],
    );
    assert_eq!(
        phases,
        vec![
            Phase::Spawn,
            Phase::Receive,
            Phase::Poll,
            Phase::Receive,
            Phase::Poll,
            Phase::SignalStop,
            Phase::Kill,
            Phase::Join,
            Phase::Spawn,
        ]
    );
    assert_eq!(spawns, 1);
    assert!(!state.child_alive && !state.updater_alive);
    assert!(state.first_over);
    let state = execute(state, &config, Event::Done);
    assert_eq!(state.phase, Phase::Receive);
    assert!(state.child_alive && state.updater_alive);
}

fn diverged(config: &Config) -> (Supervisor, Vec<Phase>, usize) {
    drive(
        config,
        vec![
            Event::Done,
            heartbeat(),
            running(),
            Event::Updater(Some(GdepError::UpdateErrorAheadBehind(2, 3)), true),
            running(),
            Event::Done,
            Event::Done,
            Event::Done,
        ],
    )
}

#[test]
fn diverged_history_ends_the_session() {
    let (state, phases, spawns) = diverged(&config(true, true, true));
    assert!(phases.contains(&Phase::Kill));
    assert_eq!(state.phase, Phase::Finished);
    assert_eq!(spawns, 1);
    assert_eq!(state.outcome(), Some(GdepError::UpdateErrorAheadBehind(2, 3)));
}

#[test]
fn diverged_history_is_run_again_where_updater_errors_are_ignored() {
    let (state, phases, _) = diverged(&config(true, true, false));
    assert!(phases.contains(&Phase::Kill));
    assert_eq!(state.phase, Phase::Spawn);
    assert_eq!(state.result, Some(GdepError::UpdateErrorAheadBehind(2, 3)));
    assert_eq!(state.reported, None);
}

#[test]
fn outcome_is_that_of_the_first_run() {
    let config = config(true, true, false);
    let (state, _, _) = diverged(&config);
    let mut state = state;
    for event in vec![
        Event::Done,
        Event::Updater(Some(GdepError::UpdateErrorRepoAhead(1)), true),
        Event::Child(ChildStatus::Exited(false)),
        Event::Done,
        Event::Done,
    ] {
        state = execute(state, &config, event);
    }
    assert_eq!(state.phase, Phase::Finished);
    assert_eq!(state.outcome(), Some(GdepError::UpdateErrorAheadBehind(2, 3)));
}

#[test]
fn without_rerun_the_script_is_started_once() {
    for exit_on_script_error in [false, true] {
        for exit_on_gdep_error in [false, true] {
            let config = config(false, exit_on_script_error, exit_on_gdep_error);
            let (state, _, spawns) = drive(
                &config,
                vec![
                    Event::Done,
                    heartbeat(),
                    Event::Child(ChildStatus::Exited(true)),
                    Event::Done,
                    Event::Done,
                    last_ok(),
                    Event::Done,
                    heartbeat(),
                    Event::Done,
                ],
            );
            assert_eq!(spawns, 1);
            assert_eq!(state.phase, Phase::Finished);
        }
    }
}

#[test]
fn rerun_is_decided_by_configuration_and_failures() {
    let mut state = Supervisor::new();
    assert!(state.rerun(&config(true, true, true)));
    assert!(!state.rerun(&config(false, false, false)));
    state.exit = Some(false);
    assert!(!state.rerun(&config(true, true, false)));
    assert!(state.rerun(&config(true, false, false)));
    state.exit = Some(true);
    assert!(state.rerun(&config(true, true, true)));
    state.reported = Some(GdepError::BranchInferFailed);
    assert!(!state.rerun(&config(true, false, true)));
    assert!(state.rerun(&config(true, true, false)));
}

#[test]
fn failed_poll_ends_the_run_and_kills_the_script() {
    let config = config(false, true, true);
    let (state, phases, _) = drive(
        &config,
        vec![
            Event::Done,
            heartbeat(),
            Event::Child(ChildStatus::Unknown),
            Event::Done,
            Event::Done,
            Event::Done,
            last_ok(),
        ],
    );
    assert_eq!(
        phases,
        vec![
            Phase::Spawn,
            Phase::Receive,
            Phase::Poll,
            Phase::SignalStop,
            Phase::Kill,
            Phase::Join,
            Phase::Drain,
            Phase::Finished,
        ]
    );
    assert_eq!(state.exit, None);
}

#[test]
fn exit_seen_with_the_last_event_is_recorded() {
    let config = config(true, true, true);
    let (state, phases, _) = drive(
        &config,
        vec![
            Event::Done,
            Event::Updater(None, true),
            Event::Child(ChildStatus::Exited(false)),
            Event::Done,
            Event::Done,
        ],
    );
    assert!(!phases.contains(&Phase::Kill));
    assert_eq!(state.phase, Phase::Finished);
    assert_eq!(state.exit, Some(false));
}

#[test]
fn event_that_answers_nothing_is_ignored() {
    let config = config(true, true, true);
    let state = execute(Supervisor::new(), &config, heartbeat());
    assert_eq!(state, Supervisor::new());
    let state = execute(state, &config, Event::Done);
    let same = execute(
        Supervisor { phase: state.phase, ..Supervisor::new() },
        &config,
        Event::Child(ChildStatus::Running),
    );
    assert_eq!(same.phase, Phase::Receive);
}

#[test]
fn finished_session_stays_finished() {
    let config = config(true, true, true);
    let (state, _, _) = diverged(&config);
    assert_eq!(state.phase, Phase::Finished);
    let state = execute(state, &config, Event::Done);
    let state = execute(state, &config, heartbeat());
    assert_eq!(state.phase, Phase::Finished);
}

#[test]
fn nothing_is_left_running_between_runs() {
    let config = config(true, false, false);
    let mut state = Supervisor::new();
    let events = vec![
        Event::Done,
        heartbeat(),
        running(),
        Event::Updater(Some(GdepError::BranchInferFailed), true),
        Event::Child(ChildStatus::Exited(false)),
        Event::Done,
        Event::Done,
        Event::Done,
        heartbeat(),
        Event::Child(ChildStatus::Unknown),
        Event::Done,
        Event::Done,
        Event::Done,
        heartbeat(),
        last_ok(),
    ];
    for event in events {
        state = execute(state, &config, event);
        if state.phase == Phase::Spawn
            || state.phase == Phase::Finished
            || state.phase == Phase::Drain
        {
            assert!(!state.child_alive && !state.updater_alive);
        }
        if state.phase == Phase::Kill {
            assert!(state.child_alive);
        }
        if state.phase == Phase::Join {
            assert!(!state.child_alive && state.updater_alive);
        }
    }
    assert_eq!(state.phase, Phase::Spawn);
}

#[test]
fn updater_error_after_the_exit_ends_the_session() {
    let config = config(true, true, true);
    let (state, phases, spawns) = drive(
        &config,
        vec![
            Event::Done,
            heartbeat(),
            Event::Child(ChildStatus::Exited(true)),
            Event::Done,
            Event::Done,
            Event::Updater(Some(GdepError::UpdateErrorRepoAhead(1)), true),
            Event::Done,
            heartbeat(),
        ],
    );
    assert_eq!(
        phases,
        vec![
            Phase::Spawn,
            Phase::Receive,
            Phase::Poll,
            Phase::SignalStop,
            Phase::Join,
            Phase::Drain,
            Phase::Finished,
            Phase::Finished,
            Phase::Finished,
        ]
    );
    assert_eq!(spawns, 1);
    assert_eq!(state.exit, Some(true));
    assert_eq!(state.outcome(), Some(GdepError::UpdateErrorRepoAhead(1)));
}

#[test]
fn updater_error_after_the_exit_is_passed_over_where_ignored() {
    let config = config(true, true, false);
    let (state, _, _) = drive(
        &config,
        vec![
            Event::Done,
            heartbeat(),
            Event::Child(ChildStatus::Exited(true)),
            Event::Done,
            Event::Done,
            Event::Updater(Some(GdepError::UpdateErrorRepoAhead(1)), true),
        ],
    );
    assert_eq!(state.phase, Phase::Spawn);
    assert_eq!(state.result, Some(GdepError::UpdateErrorRepoAhead(1)));
}

#[test]
fn events_left_behind_are_taken_up_to_the_last() {
    let config = config(true, true, true);
    let (state, phases, _) = drive(
        &config,
        vec![
            Event::Done,
            heartbeat(),
            Event::Child(ChildStatus::Exited(true)),
            Event::Done,
            Event::Done,
            heartbeat(),
            Event::Done,
            heartbeat(),
            last_ok(),
        ],
    );
    assert_eq!(
        phases[5..].to_vec(),
        vec![Phase::Drain, Phase::Drain, Phase::Drain, Phase::Drain, Phase::Spawn]
    );
    assert!(state.first_over);
    assert_eq!(state.result, None);
}

#[test]
fn last_event_received_during_the_watch_is_not_taken_again() {
    let config = config(false, true, true);
    let (state, phases, _) = drive(
        &config,
        vec![Event::Done, last_ok(), running(), Event::Done, Event::Done, Event::Done],
    );
    assert!(!phases.contains(&Phase::Drain));
    assert_eq!(state.phase, Phase::Finished);
}

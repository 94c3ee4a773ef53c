use gdep::branch::{ends_with, get_default_branch, short_name, BranchEntry};
use gdep::config::{Config, ConfigError, RepoLike};
use gdep::errors::GdepError;
use gdep::repo::{get_repo, get_repo_config, repo_request, RepoPhase};
use gdep::session::{load_cfg, provided_repo_path, run, start, CliOptions, RunEvent, RunPhase};
use git2::{Error, ErrorClass, ErrorCode};

fn named(name: &str) -> BranchEntry {
    BranchEntry::Named(name.to_string())
}

fn options() -> CliOptions {
    CliOptions {
        repo_url: None,
        repo_path: None,
        repo_config: None,
        static_config: None,
        branch: None,
        config_inside: false,
        debug: false,
    }
}

fn config(repo: RepoLike) -> Config {
    Config {
        name: "x".to_string(),
        re_run: true,
        restart_after_update: false,
        exit_on_script_error: true,
        exit_on_gdep_error: true,
        script: "exit 0".to_string(),
        repo,
        cleanup: None,
    }
}

#[test]
fn first_main_or_master_is_the_default_branch() {
    let entries = vec![named("origin/dev"), named("origin/master"), named("origin/main")];
    assert_eq!(get_default_branch(&entries), Ok("master".to_string()));
    let entries = vec![named("origin/HEAD"), named("origin/main"), named("origin/master")];
    assert_eq!(get_default_branch(&entries), Ok("main".to_string()));
}

#[test]
fn default_branch_is_cut_to_its_last_segment() {
    let entries = vec![named("upstream/team/main")];
    assert_eq!(get_default_branch(&entries), Ok("main".to_string()));
}

#[test]
fn branch_must_end_in_a_whole_segment() {
    let entries = vec![named("origin/domain"), named("main"), named("origin/main/x"), named("")];
    assert_eq!(get_default_branch(&entries), Err(GdepError::BranchInferFailed));
}

#[test]
fn no_branch_fails_the_inference() {
    assert_eq!(get_default_branch(&vec![]), Err(GdepError::BranchInferFailed));
}

#[test]
fn unnamed_branches_are_passed_over() {
    let entries = vec![BranchEntry::Unnamed, named("origin/main")];
    assert_eq!(get_default_branch(&entries), Ok("main".to_string()));
}

#[test]
fn failure_before_the_default_branch_is_the_result() {
    let entries = vec![
        named("origin/dev"),
        BranchEntry::Failed(Error::new(ErrorCode::NotFound, ErrorClass::Reference, "gone")),
        named("origin/main"),
    ];
    assert_eq!(
        get_default_branch(&entries),
        Err(GdepError::GitError("gone".to_string(), ErrorCode::NotFound))
    );
}

#[test]
fn failure_after_the_default_branch_is_not_seen() {
    let entries = vec![named("origin/main"), BranchEntry::Failed(Error::from_str("gone"))];
    assert_eq!(get_default_branch(&entries), Ok("main".to_string()));
}

#[test]
fn suffixes_are_compared_character_by_character() {
    assert!(ends_with("origin/main", "/main"));
    assert!(ends_with("/main", "/main"));
    assert!(ends_with("anything", ""));
    assert!(!ends_with("main", "/main"));
    assert!(!ends_with("origin/maim", "/main"));
    assert!(!ends_with("origin/main ", "/main"));
    assert!(ends_with("zweig/h\u{e4}lfte", "/h\u{e4}lfte"));
}

#[test]
fn short_name_is_what_follows_the_last_slash() {
    assert_eq!(short_name("origin/main"), "main");
    assert_eq!(short_name("a/b/c"), "c");
    assert_eq!(short_name("plain"), "plain");
    assert_eq!(short_name("trailing/"), "");
    assert_eq!(short_name(""), "");
    assert_eq!(short_name("\u{e4}/\u{f6}\u{fc}"), "\u{f6}\u{fc}");
}

#[test]
fn working_copy_that_opens_is_ready() {
    let phase = RepoPhase::Open("/tmp/r".to_string(), Some("https://example/r.git".to_string()));
    assert_eq!(get_repo(phase, true), RepoPhase::Ready("/tmp/r".to_string()));
}

#[test]
fn missing_local_repo_fails_without_a_clone() {
    let phase = get_repo(RepoPhase::Open("/tmp/r".to_string(), None), false);
    assert_eq!(phase, RepoPhase::Failed(GdepError::LocalRepoNotFound("/tmp/r".to_string())));
    let phase = get_repo(phase, true);
    assert_eq!(phase, RepoPhase::Failed(GdepError::LocalRepoNotFound("/tmp/r".to_string())));
}

#[test]
fn missing_working_copy_is_cloned_from_its_remote() {
    let phase = RepoPhase::Open("/tmp/fresh".to_string(), Some("https://example/r.git".to_string()));
    let phase = get_repo(phase, false);
    assert_eq!(
        phase,
        RepoPhase::Clone("https://example/r.git".to_string(), "/tmp/fresh".to_string())
    );
    assert_eq!(get_repo(phase, true), RepoPhase::Ready("/tmp/fresh".to_string()));
}

#[test]
fn failed_clone_names_the_remote() {
    let phase = RepoPhase::Clone("https://example/r.git".to_string(), "/tmp/fresh".to_string());
    assert_eq!(
        get_repo(phase, false),
        RepoPhase::Failed(GdepError::RemoteRepoNotFound("https://example/r.git".to_string()))
    );
}

#[test]
fn ready_working_copy_stays_ready() {
    assert_eq!(
        get_repo(RepoPhase::Ready("/tmp/r".to_string()), false),
        RepoPhase::Ready("/tmp/r".to_string())
    );
}

#[test]
fn configuration_says_where_the_working_copy_is() {
    let provided = "gdep_used_repo".to_string();
    assert_eq!(
        get_repo_config(&config(RepoLike::Local("/tmp/r".to_string())), &provided),
        RepoPhase::Open("/tmp/r".to_string(), None)
    );
    assert_eq!(
        get_repo_config(&config(RepoLike::Remote("u".to_string())), &provided),
        RepoPhase::Open("gdep_used_repo".to_string(), Some("u".to_string()))
    );
    assert_eq!(
        get_repo_config(
            &config(RepoLike::Remote2("u".to_string(), "/tmp/fresh".to_string())),
            &provided
        ),
        RepoPhase::Open("/tmp/fresh".to_string(), Some("u".to_string()))
    );
}

#[test]
fn request_names_path_and_remote() {
    let provided = "gdep_used_repo".to_string();
    assert_eq!(
        repo_request(&config(RepoLike::Remote("u".to_string())), &provided),
        ("gdep_used_repo".to_string(), Some("u".to_string()))
    );
    assert_eq!(
        repo_request(&config(RepoLike::Local("/tmp/r".to_string())), &provided),
        ("/tmp/r".to_string(), None)
    );
}

#[test]
fn repo_path_defaults_where_the_command_line_names_none() {
    assert_eq!(provided_repo_path(&options()), "gdep_used_repo");
    let mut given = options();
    given.repo_path = Some("/srv/app".to_string());
    assert_eq!(provided_repo_path(&given), "/srv/app");
}

#[test]
fn config_path_follows_the_precedence() {
    let mut given = options();
    assert_eq!(load_cfg(&given, "/srv/app"), "gdep.yaml");
    given.config_inside = true;
    assert_eq!(load_cfg(&given, "/srv/app"), "/srv/app/gdep.yaml");
    given.repo_config = Some("deploy/conf.yaml".to_string());
    assert_eq!(load_cfg(&given, "/srv/app"), "/srv/app/deploy/conf.yaml");
    given.static_config = Some("/etc/gdep.yaml".to_string());
    assert_eq!(load_cfg(&given, "/srv/app"), "/etc/gdep.yaml");
}

#[test]
fn session_with_static_config_loads_it_first() {
    let mut given = options();
    given.static_config = Some("/etc/gdep.yaml".to_string());
    let phase = start(&given);
    assert_eq!(
        phase,
        RunPhase::LoadConfig { path: "/etc/gdep.yaml".to_string(), repo_path: None }
    );
    let loaded = config(RepoLike::Remote2("u".to_string(), "/tmp/fresh".to_string()));
    let phase = run(&given, phase, RunEvent::Config(Ok(loaded.clone())));
    assert_eq!(
        phase,
        RunPhase::OpenRepo {
            path: "/tmp/fresh".to_string(),
            url: Some("u".to_string()),
            config: Some(loaded.clone()),
        }
    );
    let phase = run(&given, phase, RunEvent::Repo(Ok("/tmp/fresh".to_string())));
    assert_eq!(
        phase,
        RunPhase::InferBranch { config: loaded.clone(), repo_path: "/tmp/fresh".to_string() }
    );
    let phase = run(&given, phase, RunEvent::Branch(Ok("main".to_string())));
    assert_eq!(
        phase,
        RunPhase::Supervise {
            config: loaded,
            repo_path: "/tmp/fresh".to_string(),
            branch: "main".to_string(),
        }
    );
    assert_eq!(run(&given, phase, RunEvent::Finished(None)), RunPhase::Exit(None));
}

#[test]
fn session_without_options_looks_for_gdep_yaml_here() {
    assert_eq!(
        start(&options()),
        RunPhase::LoadConfig { path: "gdep.yaml".to_string(), repo_path: None }
    );
}

#[test]
fn session_with_config_inside_opens_the_repo_first() {
    let mut given = options();
    given.config_inside = true;
    given.repo_url = Some("u".to_string());
    let phase = start(&given);
    assert_eq!(
        phase,
        RunPhase::OpenRepo {
            path: "gdep_used_repo".to_string(),
            url: Some("u".to_string()),
            config: None,
        }
    );
    let phase = run(&given, phase, RunEvent::Repo(Ok("/work/gdep_used_repo".to_string())));
    assert_eq!(
        phase,
        RunPhase::LoadConfig {
            path: "/work/gdep_used_repo/gdep.yaml".to_string(),
            repo_path: Some("gdep_used_repo".to_string()),
        }
    );
    let loaded = config(RepoLike::Local("/elsewhere".to_string()));
    let phase = run(&given, phase, RunEvent::Config(Ok(loaded.clone())));
    assert_eq!(
        phase,
        RunPhase::InferBranch { config: loaded, repo_path: "gdep_used_repo".to_string() }
    );
}

#[test]
fn repo_config_implies_that_the_config_is_inside() {
    let mut given = options();
    given.repo_config = Some("conf.yaml".to_string());
    given.repo_path = Some("/srv/app".to_string());
    let phase = start(&given);
    assert_eq!(
        phase,
        RunPhase::OpenRepo { path: "/srv/app".to_string(), url: None, config: None }
    );
    assert_eq!(
        run(&given, phase, RunEvent::Repo(Ok("/srv/app".to_string()))),
        RunPhase::LoadConfig {
            path: "/srv/app/conf.yaml".to_string(),
            repo_path: Some("/srv/app".to_string()),
        }
    );
}

#[test]
fn branch_of_the_command_line_is_never_inferred() {
    let mut given = options();
    given.branch = Some("dev".to_string());
    let loaded = config(RepoLike::Local("/tmp/r".to_string()));
    let mut phase = start(&given);
    let mut seen = vec![];
    for event in vec![
        RunEvent::Config(Ok(loaded.clone())),
        RunEvent::Repo(Ok("/tmp/r".to_string())),
    ] {
        phase = run(&given, phase, event);
        seen.push(matches!(phase, RunPhase::InferBranch { .. }));
    }
    assert_eq!(seen, vec![false, false]);
    assert_eq!(
        phase,
        RunPhase::Supervise {
            config: loaded,
            repo_path: "/tmp/r".to_string(),
            branch: "dev".to_string(),
        }
    );
}

#[test]
fn config_that_cannot_be_loaded_ends_the_session() {
    let given = options();
    let phase = run(&given, start(&given), RunEvent::Config(Err(ConfigError::ScriptFileNotFound)));
    assert_eq!(
        phase,
        RunPhase::Exit(Some(GdepError::ConfigLoadError(ConfigError::ScriptFileNotFound)))
    );
}

#[test]
fn repo_that_cannot_be_had_ends_the_session() {
    let given = options();
    let loaded = config(RepoLike::Local("/tmp/r".to_string()));
    let phase = run(&given, start(&given), RunEvent::Config(Ok(loaded)));
    let failure = GdepError::LocalRepoNotFound("/tmp/r".to_string());
    assert_eq!(
        run(&given, phase, RunEvent::Repo(Err(failure.clone()))),
        RunPhase::Exit(Some(failure))
    );
}

#[test]
fn branch_that_cannot_be_inferred_ends_the_session() {
    let given = options();
    let phase = RunPhase::InferBranch {
        config: config(RepoLike::Local("/tmp/r".to_string())),
        repo_path: "/tmp/r".to_string(),
    };
    assert_eq!(
        run(&given, phase, RunEvent::Branch(Err(GdepError::BranchInferFailed))),
        RunPhase::Exit(Some(GdepError::BranchInferFailed))
    );
}

#[test]
fn supervisors_error_is_the_sessions_error() {
    let given = options();
    let phase = RunPhase::Supervise {
        config: config(RepoLike::Local("/tmp/r".to_string())),
        repo_path: "/tmp/r".to_string(),
        branch: "main".to_string(),
    };
    assert_eq!(
        run(&given, phase, RunEvent::Finished(Some(GdepError::UpdateErrorRepoAhead(1)))),
        RunPhase::Exit(Some(GdepError::UpdateErrorRepoAhead(1)))
    );
}

#[test]
fn session_ignores_an_event_that_answers_nothing() {
    let given = options();
    let phase = run(&given, start(&given), RunEvent::Finished(None));
    assert_eq!(phase, start(&given));
    assert_eq!(run(&given, RunPhase::Exit(None), RunEvent::Finished(None)), RunPhase::Exit(None));
}

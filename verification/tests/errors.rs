use gdep::config::ConfigError;
use gdep::divergence::UpdateRelationState;
use gdep::errors::{decimal_string, describe_failure, GdepError};
use git2::{Error, ErrorClass, ErrorCode};

#[test]
fn config_errors_describe_themselves() {
    assert_eq!(ConfigError::ConfigFileNotFound.message(), "Config file not found");
    assert_eq!(ConfigError::ScriptFileNotFound.message(), "Script file not found");
    assert_eq!(
        ConfigError::ParsingFailed("bad indent".to_string()).message(),
        "Parsing failed: bad indent"
    );
    assert_eq!(
        ConfigError::MissingContent("repo".to_string()).message(),
        "Missing mandatory property: repo"
    );
}

#[test]
fn repository_errors_describe_themselves() {
    assert_eq!(
        GdepError::LocalRepoNotFound("/tmp/r".to_string()).message(),
        "Local repository not found: /tmp/r"
    );
    assert_eq!(
        GdepError::RemoteRepoNotFound("https://example/r.git".to_string()).message(),
        "Remote repository not found: https://example/r.git"
    );
    assert_eq!(GdepError::BranchInferFailed.message(), "Failed to infer branch");
}

#[test]
fn config_load_error_wraps_the_config_error() {
    let error = GdepError::from(ConfigError::MissingContent("name".to_string()));
    assert_eq!(error, GdepError::ConfigLoadError(ConfigError::MissingContent("name".to_string())));
    assert_eq!(
        error.message(),
        "Failed to load configuration: Missing mandatory property: name"
    );
}

#[test]
fn git_errors_name_their_code() {
    assert_eq!(
        GdepError::GitError("no such ref".to_string(), ErrorCode::NotFound).message(),
        "Git error (NotFound): no such ref"
    );
    assert_eq!(
        GdepError::UpdateFailed("locked".to_string(), ErrorCode::Locked).message(),
        "Update failed (Locked): locked"
    );
}

#[test]
fn failure_line_brackets_the_code() {
    assert_eq!(describe_failure("Git error", "Auth", "denied"), "Git error (Auth): denied");
    assert_eq!(describe_failure("", "", ""), " (): ");
}

#[test]
fn divergence_errors_count_in_base_ten() {
    assert_eq!(
        GdepError::UpdateErrorRepoAhead(12).message(),
        "Update failed: local repo is 12 commits ahead"
    );
    assert_eq!(
        GdepError::UpdateErrorAheadBehind(2, 3).message(),
        "Update failed: local repo is 2 ahead, 3 behind"
    );
    assert_eq!(
        GdepError::UpdateErrorAheadBehind(100, 0).message(),
        "Update failed: local repo is 100 ahead, 0 behind"
    );
}

#[test]
fn counts_are_written_in_base_ten() {
    assert_eq!(decimal_string(0), "0");
    assert_eq!(decimal_string(7), "7");
    assert_eq!(decimal_string(10), "10");
    assert_eq!(decimal_string(909), "909");
    assert_eq!(decimal_string(1234567890), "1234567890");
    assert_eq!(decimal_string(usize::MAX), usize::MAX.to_string());
}

#[test]
fn failed_git_operation_keeps_message_and_code() {
    let error = Error::new(ErrorCode::NotFound, ErrorClass::Reference, "no such ref");
    assert_eq!(
        GdepError::git_failed(&error),
        GdepError::GitError("no such ref".to_string(), ErrorCode::NotFound)
    );
    let plain = Error::from_str("boom");
    assert_eq!(
        GdepError::git_failed(&plain),
        GdepError::GitError("boom".to_string(), ErrorCode::GenericError)
    );
}

#[test]
fn failed_update_keeps_the_whole_line_and_the_code() {
    let error = Error::new(ErrorCode::Locked, ErrorClass::Index, "index is locked");
    let line = error.to_string();
    assert!(line.starts_with("index is locked"));
    assert_ne!(line, "index is locked");
    assert_eq!(GdepError::update_failed(&error), GdepError::UpdateFailed(line, ErrorCode::Locked));
    let plain = Error::from_str("boom");
    assert_eq!(
        GdepError::update_failed(&plain),
        GdepError::UpdateFailed("boom".to_string(), ErrorCode::GenericError)
    );
}

#[test]
fn duplicates_equal_the_original() {
    let errors = vec![
        GdepError::LocalRepoNotFound("/tmp/r".to_string()),
        GdepError::RemoteRepoNotFound("u".to_string()),
        GdepError::ConfigLoadError(ConfigError::ParsingFailed("p".to_string())),
        GdepError::ConfigLoadError(ConfigError::ConfigFileNotFound),
        GdepError::BranchInferFailed,
        GdepError::GitError("m".to_string(), ErrorCode::Auth),
        GdepError::UpdateErrorRepoAhead(4),
        GdepError::UpdateErrorAheadBehind(2, 3),
        GdepError::UpdateFailed("m".to_string(), ErrorCode::Conflict),
    ];
    for error in &errors {
        assert_eq!(&error.duplicate(), error);
        assert_eq!(&error.clone(), error);
    }
    let config_error = ConfigError::MissingContent("name".to_string());
    assert_eq!(config_error.duplicate(), config_error);
    assert_eq!(ConfigError::ScriptFileNotFound.duplicate(), ConfigError::ScriptFileNotFound);
}

#[test]
fn equal_histories_are_up_to_date() {
    assert_eq!(UpdateRelationState::classify(0, 0), UpdateRelationState::Up2Date);
}

#[test]
fn local_commits_alone_are_ahead() {
    assert_eq!(UpdateRelationState::classify(2, 0), UpdateRelationState::Ahead(2));
}

#[test]
fn remote_commits_alone_are_behind() {
    assert_eq!(UpdateRelationState::classify(0, 3), UpdateRelationState::Behind(3));
}

#[test]
fn commits_on_both_sides_are_diverged() {
    assert_eq!(UpdateRelationState::classify(2, 3), UpdateRelationState::AheadBehind(2, 3));
    assert_eq!(UpdateRelationState::classify(1, 1), UpdateRelationState::AheadBehind(1, 1));
}

#[test]
fn diverged_state_never_holds_a_zero() {
    for ahead in 0..4usize {
        for behind in 0..4usize {
            if let UpdateRelationState::AheadBehind(a, b) =
                UpdateRelationState::classify(ahead, behind)
            {
                assert!(a > 0 && b > 0);
                assert_eq!((a, b), (ahead, behind));
            }
        }
    }
}

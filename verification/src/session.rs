//! A session from the command line to its end: find the configuration and
//! the working copy, settle the branch, then supervise.
//!
//! The session is a state machine. Its phase names the work that the caller
//! carries out next; the caller reports what the work gave as an event and
//! receives the next phase.

use vstd::prelude::*;
use vstd::string::StringExecFns;
use crate::config::{text_of, Config, ConfigError, ConfigView};
use crate::errors::{outcome_of, GdepError, GdepErrorView};
use crate::repo::{repo_location, repo_request};

verus! {

/// What the command line says.
#[derive(Debug, Clone, PartialEq)]
pub struct CliOptions {
    /// `--remote-repo`: the remote to clone.
    pub repo_url: Option<String>,
    /// `--local-repo`: the working copy, or where to clone to.
    pub repo_path: Option<String>,
    /// `--repo-config`: the configuration file, relative to the root of the
    /// working copy.
    pub repo_config: Option<String>,
    /// `--static-config`: the configuration file, outside the working copy.
    pub static_config: Option<String>,
    /// `--branch`: the branch to track.
    pub branch: Option<String>,
    /// `--config-inside`: the configuration lies inside the working copy.
    pub config_inside: bool,
    /// `--debug`.
    pub debug: bool,
}

/// The path of the working copy where the command line names none.
pub open spec fn default_repo_path() -> Seq<char> {
    "gdep_used_repo"@
}

impl CliOptions {
    /// The path that the command line provides for the working copy.
    pub open spec fn provided_path(self) -> Seq<char> {
        match self.repo_path {
            Some(path) => path@,
            None => default_repo_path(),
        }
    }

    /// Whether the configuration is looked for inside the working copy, so
    /// that the working copy has to be there first.
    pub open spec fn config_in_repo(self) -> bool {
        self.config_inside || self.repo_config is Some
    }

    /// The path of the configuration file, for a working copy rooted at
    /// `root`. A file outside the working copy goes before one inside it;
    /// where the command line names neither, the file is `gdep.yaml`, in
    /// the working copy with `--config-inside` and in the current directory
    /// without.
    pub open spec fn config_path(self, root: Seq<char>) -> Seq<char> {
        match self.static_config {
            Some(file) => file@,
            None => match self.repo_config {
                Some(file) => root + "/"@ + file@,
                None => if self.config_inside {
                    root + "/gdep.yaml"@
                } else {
                    "gdep.yaml"@
                },
            },
        }
    }
}

/// The work that the caller carries out next.
#[derive(Debug, PartialEq)]
#[allow(inconsistent_fields)]
pub enum RunPhase {
    /// Get hold of the working copy.
    OpenRepo {
        /// Where the working copy is looked for.
        path: String,
        /// Where it is cloned from if it is missing.
        url: Option<String>,
        /// The configuration, if it has been loaded already.
        config: Option<Config>,
    },
    /// Load the configuration.
    LoadConfig {
        /// The path of the configuration file.
        path: String,
        /// The path of the working copy, if it is open already.
        repo_path: Option<String>,
    },
    /// Infer the branch from the remote-tracking branches.
    InferBranch { config: Config, repo_path: String },
    /// Supervise the script in the working copy at `repo_path` while
    /// tracking `branch`.
    Supervise { config: Config, repo_path: String, branch: String },
    /// Leave: with this error, or with none.
    Exit(Option<GdepError>),
}

/// A `RunPhase` with its texts as sequences of characters.
#[allow(inconsistent_fields)]
pub enum RunPhaseView {
    OpenRepo { path: Seq<char>, url: Option<Seq<char>>, config: Option<ConfigView> },
    LoadConfig { path: Seq<char>, repo_path: Option<Seq<char>> },
    InferBranch { config: ConfigView, repo_path: Seq<char> },
    Supervise { config: ConfigView, repo_path: Seq<char>, branch: Seq<char> },
    Exit(Option<GdepErrorView>),
}

impl View for RunPhase {
    type V = RunPhaseView;

    open spec fn view(&self) -> RunPhaseView {
        match *self {
            RunPhase::OpenRepo { path, url, config } => RunPhaseView::OpenRepo {
                path: path@,
                url: text_of(url),
                config: match config {
                    Some(config) => Some(config@),
                    None => None,
                },
            },
            RunPhase::LoadConfig { path, repo_path } => RunPhaseView::LoadConfig {
                path: path@,
                repo_path: text_of(repo_path),
            },
            RunPhase::InferBranch { config, repo_path } => RunPhaseView::InferBranch {
                config: config@,
                repo_path: repo_path@,
            },
            RunPhase::Supervise { config, repo_path, branch } => RunPhaseView::Supervise {
                config: config@,
                repo_path: repo_path@,
                branch: branch@,
            },
            RunPhase::Exit(outcome) => RunPhaseView::Exit(outcome_of(outcome)),
        }
    }
}

/// What carrying out the work gave.
#[derive(Debug, PartialEq)]
pub enum RunEvent {
    /// The working copy is open, and this is its root directory; or it
    /// could not be had.
    Repo(Result<String, GdepError>),
    /// The configuration, or why it could not be loaded.
    Config(Result<Config, ConfigError>),
    /// The inferred branch, or why none could be inferred.
    Branch(Result<String, GdepError>),
    /// The supervisor has returned, with this error or with none.
    Finished(Option<GdepError>),
}

impl RunPhaseView {
    /// The phase in which a session starts: with the working copy where the
    /// configuration lies inside it, with the configuration otherwise.
    pub open spec fn start(options: CliOptions) -> RunPhaseView {
        if options.config_in_repo() {
            RunPhaseView::OpenRepo {
                path: options.provided_path(),
                url: text_of(options.repo_url),
                config: None,
            }
        } else {
            RunPhaseView::LoadConfig {
                path: options.config_path(options.provided_path()),
                repo_path: None,
            }
        }
    }

    /// The phase once configuration and working copy are there: the branch
    /// of the command line is taken as it is, and only where there is none
    /// the branch is inferred.
    pub open spec fn settle_branch(options: CliOptions, config: ConfigView, repo_path: Seq<char>)
        -> RunPhaseView {
        match options.branch {
            Some(branch) => RunPhaseView::Supervise { config, repo_path, branch: branch@ },
            None => RunPhaseView::InferBranch { config, repo_path },
        }
    }

    /// The phase after `event`. Every failure ends the session with its
    /// error, before anything is supervised. An event that does not answer
    /// the pending work leaves the phase as it is.
    pub open spec fn next(self, options: CliOptions, event: RunEvent) -> RunPhaseView {
        match (self, event) {
            (RunPhaseView::OpenRepo { .. }, RunEvent::Repo(Err(error))) => RunPhaseView::Exit(
                Some(error@),
            ),
            (RunPhaseView::OpenRepo { path, config: None, .. }, RunEvent::Repo(Ok(root))) => {
                RunPhaseView::LoadConfig {
                    path: options.config_path(root@),
                    repo_path: Some(path),
                }
            },
            (
                RunPhaseView::OpenRepo { path, config: Some(config), .. },
                RunEvent::Repo(Ok(_)),
            ) => Self::settle_branch(options, config, path),
            (RunPhaseView::LoadConfig { .. }, RunEvent::Config(Err(error))) => RunPhaseView::Exit(
                Some(GdepErrorView::ConfigLoadError(error@)),
            ),
            (
                RunPhaseView::LoadConfig { repo_path: Some(repo_path), .. },
                RunEvent::Config(Ok(config)),
            ) => Self::settle_branch(options, config@, repo_path),
            (RunPhaseView::LoadConfig { repo_path: None, .. }, RunEvent::Config(Ok(config))) => {
                RunPhaseView::OpenRepo {
                    path: repo_location(config@.repo, options.provided_path()).0,
                    url: repo_location(config@.repo, options.provided_path()).1,
                    config: Some(config@),
                }
            },
            (RunPhaseView::InferBranch { .. }, RunEvent::Branch(Err(error))) => RunPhaseView::Exit(
                Some(error@),
            ),
            (RunPhaseView::InferBranch { config, repo_path }, RunEvent::Branch(Ok(branch))) => {
                RunPhaseView::Supervise { config, repo_path, branch: branch@ }
            },
            (RunPhaseView::Supervise { .. }, RunEvent::Finished(outcome)) => RunPhaseView::Exit(
                outcome_of(outcome),
            ),
            _ => self,
        }
    }

    /// How much work a session can still ask for, the pending work
    /// included.
    pub open spec fn work_left(self) -> nat {
        match self {
            RunPhaseView::OpenRepo { config: None, .. } => 4,
            RunPhaseView::LoadConfig { repo_path: None, .. } => 4,
            RunPhaseView::LoadConfig { repo_path: Some(_), .. } => 3,
            RunPhaseView::OpenRepo { config: Some(_), .. } => 3,
            RunPhaseView::InferBranch { .. } => 2,
            RunPhaseView::Supervise { .. } => 1,
            RunPhaseView::Exit(_) => 0,
        }
    }
}

/// The path that the command line provides for the working copy.
pub fn provided_repo_path(options: &CliOptions) -> (path: String)
    ensures
        path@ == options.provided_path(),
{
    match &options.repo_path {
        Some(path) => path.clone(),
        None => String::from_str("gdep_used_repo"),
    }
}

/// The path of the configuration file, for a working copy rooted at
/// `root`.
pub fn load_cfg(options: &CliOptions, root: &str) -> (path: String)
    ensures
        path@ == options.config_path(root@),
{
    match &options.static_config {
        Some(file) => file.clone(),
        None => match &options.repo_config {
            Some(file) => String::from_str(root).concat("/").concat(file.as_str()),
            None => {
                if options.config_inside {
                    String::from_str(root).concat("/gdep.yaml")
                } else {
                    String::from_str("gdep.yaml")
                }
            },
        },
    }
}

/// The phase in which a session starts.
pub fn start(options: &CliOptions) -> (phase: RunPhase)
    ensures
        phase@ == RunPhaseView::start(*options),
{
    let provided = provided_repo_path(options);
    if options.config_inside || options.repo_config.is_some() {
        let url = match &options.repo_url {
            Some(url) => Some(url.clone()),
            None => None,
        };
        RunPhase::OpenRepo { path: provided, url, config: None }
    } else {
        RunPhase::LoadConfig { path: load_cfg(options, provided.as_str()), repo_path: None }
    }
}

/// Settles the branch once configuration and working copy are there.
fn settle(options: &CliOptions, config: Config, repo_path: String) -> (phase: RunPhase)
    ensures
        phase@ == RunPhaseView::settle_branch(*options, config@, repo_path@),
{
    match &options.branch {
        Some(branch) => RunPhase::Supervise { config, repo_path, branch: branch.clone() },
        None => RunPhase::InferBranch { config, repo_path },
    }
}

/// Takes the session from the pending work to the next, given what the
/// pending work gave.
pub fn run(options: &CliOptions, phase: RunPhase, event: RunEvent) -> (next: RunPhase)
    ensures
        next@ == phase@.next(*options, event),
        next@ == phase@ || next@.work_left() < phase@.work_left(),
        next is InferBranch ==> phase is InferBranch || options.branch is None,
{
    match (phase, event) {
        (RunPhase::OpenRepo { path, url, config }, RunEvent::Repo(opened)) => {
            match opened {
                Err(error) => RunPhase::Exit(Some(error)),
                Ok(root) => match config {
                    None => RunPhase::LoadConfig {
                        path: load_cfg(options, root.as_str()),
                        repo_path: Some(path),
                    },
                    Some(config) => settle(options, config, path),
                },
            }
        },
        (RunPhase::LoadConfig { path, repo_path }, RunEvent::Config(loaded)) => {
            match loaded {
                Err(error) => RunPhase::Exit(Some(GdepError::ConfigLoadError(error))),
                Ok(config) => match repo_path {
                    Some(repo_path) => settle(options, config, repo_path),
                    None => {
                        let provided = provided_repo_path(options);
                        let (path, url) = repo_request(&config, &provided);
                        RunPhase::OpenRepo { path, url, config: Some(config) }
                    },
                },
            }
        },
        (RunPhase::InferBranch { config, repo_path }, RunEvent::Branch(inferred)) => {
            match inferred {
                Err(error) => RunPhase::Exit(Some(error)),
                Ok(branch) => RunPhase::Supervise { config, repo_path, branch },
            }
        },
        (RunPhase::Supervise { .. }, RunEvent::Finished(outcome)) => RunPhase::Exit(outcome),
        (phase, _) => phase,
    }
}

/// A branch given on the command line is never inferred: whatever happens,
/// a session with `--branch` does not ask for the inference.
pub proof fn law_given_branch_is_not_inferred(
    options: CliOptions,
    phase: RunPhaseView,
    event: RunEvent,
)
    requires
        options.branch is Some,
        !(phase is InferBranch),
    ensures
        !(phase.next(options, event) is InferBranch),
        phase.next(options, event) matches RunPhaseView::Supervise { branch, .. } ==> phase
            is Supervise || branch == options.branch->0@,
{
}

/// Nothing is supervised before configuration and working copy are there:
/// a failure to get either ends the session at once.
pub proof fn law_failure_ends_before_supervision(
    options: CliOptions,
    phase: RunPhaseView,
    event: RunEvent,
)
    requires
        event matches RunEvent::Repo(Err(_)) || event matches RunEvent::Config(Err(_)) || event
            matches RunEvent::Branch(Err(_)),
    ensures
        phase.next(options, event) is Exit || phase.next(options, event) == phase,
{
}

/// Every piece of work that a session asks for leaves less to ask for.
pub proof fn law_session_makes_progress(options: CliOptions, phase: RunPhaseView, event: RunEvent)
    ensures
        phase.next(options, event) == phase || phase.next(options, event).work_left()
            < phase.work_left(),
{
}

} // verus!

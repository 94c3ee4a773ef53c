//! The configuration record that drives a session, and the ways in which
//! reading one can fail.

use vstd::prelude::*;
use vstd::string::StringExecFns;

verus! {

/// Where the repository comes from.
#[derive(Debug, Clone, PartialEq)]
pub enum RepoLike {
    /// A remote URL, cloned to the path that the caller provides.
    Remote(String),
    /// A working copy that already exists at this path.
    Local(String),
    /// A remote URL and the path to clone it into.
    Remote2(String, String),
}

/// A `RepoLike` with its texts as sequences of characters.
pub enum RepoLikeView {
    Remote(Seq<char>),
    Local(Seq<char>),
    Remote2(Seq<char>, Seq<char>),
}

impl View for RepoLike {
    type V = RepoLikeView;

    open spec fn view(&self) -> RepoLikeView {
        match *self {
            RepoLike::Remote(url) => RepoLikeView::Remote(url@),
            RepoLike::Local(path) => RepoLikeView::Local(path@),
            RepoLike::Remote2(url, path) => RepoLikeView::Remote2(url@, path@),
        }
    }
}

/// What to run and how to react when the script or the updater fails.
#[derive(Debug, Clone, PartialEq)]
pub struct Config {
    pub name: String,
    pub re_run: bool,
    pub restart_after_update: bool,
    pub exit_on_script_error: bool,
    pub exit_on_gdep_error: bool,
    pub script: String,
    pub repo: RepoLike,
    pub cleanup: Option<String>,
}

/// A `Config` with its texts as sequences of characters.
pub struct ConfigView {
    pub name: Seq<char>,
    pub re_run: bool,
    pub restart_after_update: bool,
    pub exit_on_script_error: bool,
    pub exit_on_gdep_error: bool,
    pub script: Seq<char>,
    pub repo: RepoLikeView,
    pub cleanup: Option<Seq<char>>,
}

impl ConfigView {
    /// What every loaded record holds: a name that is not empty and, where
    /// the repository is a remote, a URL that is not empty.
    pub open spec fn wf(self) -> bool {
        &&& self.name.len() > 0
        &&& match self.repo {
            RepoLikeView::Remote(url) => url.len() > 0,
            RepoLikeView::Remote2(url, _) => url.len() > 0,
            RepoLikeView::Local(_) => true,
        }
    }
}

/// The characters of an optional text.
pub open spec fn text_of(text: Option<String>) -> Option<Seq<char>> {
    match text {
        Some(t) => Some(t@),
        None => None,
    }
}

impl View for Config {
    type V = ConfigView;

    open spec fn view(&self) -> ConfigView {
        ConfigView {
            name: self.name@,
            re_run: self.re_run,
            restart_after_update: self.restart_after_update,
            exit_on_script_error: self.exit_on_script_error,
            exit_on_gdep_error: self.exit_on_gdep_error,
            script: self.script@,
            repo: self.repo@,
            cleanup: text_of(self.cleanup),
        }
    }
}

/// Why a configuration could not be loaded.
#[derive(Debug, Clone, PartialEq)]
pub enum ConfigError {
    /// The configuration file could not be read.
    ConfigFileNotFound,
    /// A script file that the configuration names could not be read.
    ScriptFileNotFound,
    /// The document is not valid YAML; holds the parser's message.
    ParsingFailed(String),
    /// A mandatory property is absent; holds its name.
    MissingContent(String),
}

/// A `ConfigError` with its texts as sequences of characters.
pub enum ConfigErrorView {
    ConfigFileNotFound,
    ScriptFileNotFound,
    ParsingFailed(Seq<char>),
    MissingContent(Seq<char>),
}

impl View for ConfigError {
    type V = ConfigErrorView;

    open spec fn view(&self) -> ConfigErrorView {
        match *self {
            ConfigError::ConfigFileNotFound => ConfigErrorView::ConfigFileNotFound,
            ConfigError::ScriptFileNotFound => ConfigErrorView::ScriptFileNotFound,
            ConfigError::ParsingFailed(detail) => ConfigErrorView::ParsingFailed(detail@),
            ConfigError::MissingContent(field) => ConfigErrorView::MissingContent(field@),
        }
    }
}

impl ConfigErrorView {
    /// The line that describes the error to the user.
    pub open spec fn message(self) -> Seq<char> {
        match self {
            ConfigErrorView::ConfigFileNotFound => "Config file not found"@,
            ConfigErrorView::ScriptFileNotFound => "Script file not found"@,
            ConfigErrorView::ParsingFailed(detail) => "Parsing failed: "@ + detail,
            ConfigErrorView::MissingContent(field) => "Missing mandatory property: "@ + field,
        }
    }
}

impl ConfigError {
    /// A copy of the error, text for text.
    pub fn duplicate(&self) -> (copy: ConfigError)
        ensures
            copy@ == self@,
    {
        match self {
            ConfigError::ConfigFileNotFound => ConfigError::ConfigFileNotFound,
            ConfigError::ScriptFileNotFound => ConfigError::ScriptFileNotFound,
            ConfigError::ParsingFailed(detail) => ConfigError::ParsingFailed(detail.clone()),
            ConfigError::MissingContent(field) => ConfigError::MissingContent(field.clone()),
        }
    }

    /// The line that describes the error to the user.
    pub fn message(&self) -> (line: String)
        ensures
            line@ == self@.message(),
    {
        match self {
            ConfigError::ConfigFileNotFound => String::from_str("Config file not found"),
            ConfigError::ScriptFileNotFound => String::from_str("Script file not found"),
            ConfigError::ParsingFailed(detail) => {
                String::from_str("Parsing failed: ").concat(detail.as_str())
            },
            ConfigError::MissingContent(field) => {
                String::from_str("Missing mandatory property: ").concat(field.as_str())
            },
        }
    }
}

} // verus!

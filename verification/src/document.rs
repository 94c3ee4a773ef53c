//! The recognised keys of a configuration document, and the record that
//! they stand for.

use vstd::prelude::*;
use vstd::string::StringExecFns;
use yaml_rust2::Yaml;
use crate::config::{text_of, Config, ConfigError, ConfigErrorView, ConfigView, RepoLike,
    RepoLikeView};
use crate::paths::{resolve_other_path, resolved_path};
use crate::yaml::{entries_of, flag_entry, string_entry, Entries};

verus! {

impl Entries {
    /// The text under `key`, if the document holds one.
    pub open spec fn text(self, key: Seq<char>) -> Option<Seq<char>> {
        if self.strings.contains_key(key) {
            Some(self.strings[key])
        } else {
            None
        }
    }

    /// Whether the document sets `key` to true; a key that is absent, or
    /// that holds no boolean, counts as false.
    pub open spec fn flag(self, key: Seq<char>) -> bool {
        self.flags.contains_key(key) && self.flags[key]
    }
}

/// The recognised keys of a configuration document, each under its name in
/// the document (`is_final` stands for the key `final`).
#[derive(Debug, PartialEq)]
pub struct ConfigDocument {
    pub name: Option<String>,
    pub is_final: bool,
    pub script_use_file: bool,
    pub file_path: Option<String>,
    pub script: Option<String>,
    pub cleanup_file_path: Option<String>,
    pub cleanup: Option<String>,
    pub restart_update: bool,
    pub gdep_err_ignore: bool,
    pub script_err_ignore: bool,
    pub local_repo: bool,
    pub repo: Option<String>,
    pub into_path: Option<String>,
}

/// A `ConfigDocument` with its texts as sequences of characters.
pub struct ConfigDocumentView {
    pub name: Option<Seq<char>>,
    pub is_final: bool,
    pub script_use_file: bool,
    pub file_path: Option<Seq<char>>,
    pub script: Option<Seq<char>>,
    pub cleanup_file_path: Option<Seq<char>>,
    pub cleanup: Option<Seq<char>>,
    pub restart_update: bool,
    pub gdep_err_ignore: bool,
    pub script_err_ignore: bool,
    pub local_repo: bool,
    pub repo: Option<Seq<char>>,
    pub into_path: Option<Seq<char>>,
}

impl View for ConfigDocument {
    type V = ConfigDocumentView;

    open spec fn view(&self) -> ConfigDocumentView {
        ConfigDocumentView {
            name: text_of(self.name),
            is_final: self.is_final,
            script_use_file: self.script_use_file,
            file_path: text_of(self.file_path),
            script: text_of(self.script),
            cleanup_file_path: text_of(self.cleanup_file_path),
            cleanup: text_of(self.cleanup),
            restart_update: self.restart_update,
            gdep_err_ignore: self.gdep_err_ignore,
            script_err_ignore: self.script_err_ignore,
            local_repo: self.local_repo,
            repo: text_of(self.repo),
            into_path: text_of(self.into_path),
        }
    }
}

/// Where the loader stands: what it is waiting for.
#[derive(Debug, PartialEq)]
pub enum LoadState {
    /// The contents of the configuration file.
    Config,
    /// The contents of the script file. Holds the record without its
    /// script, and the path of the cleanup file if one is to be read too.
    Script(Config, Option<String>),
    /// The contents of the cleanup file. Holds the record without its
    /// cleanup.
    Cleanup(Config),
}

/// What the loader asks for next.
#[derive(Debug, PartialEq)]
pub enum LoadStep {
    /// Read the file at this path, and come back in this state with what
    /// reading gave.
    Read(String, LoadState),
    /// Nothing: the record is complete.
    Done(Config),
}

/// A `LoadState` with its texts as sequences of characters.
pub enum LoadStateView {
    Config,
    Script(ConfigView, Option<Seq<char>>),
    Cleanup(ConfigView),
}

/// A `LoadStep` with its texts as sequences of characters.
pub enum LoadStepView {
    Read(Seq<char>, LoadStateView),
    Done(ConfigView),
}

impl View for LoadState {
    type V = LoadStateView;

    open spec fn view(&self) -> LoadStateView {
        match *self {
            LoadState::Config => LoadStateView::Config,
            LoadState::Script(draft, cleanup_file) => LoadStateView::Script(
                draft@,
                text_of(cleanup_file),
            ),
            LoadState::Cleanup(draft) => LoadStateView::Cleanup(draft@),
        }
    }
}

impl LoadStateView {
    /// Whether the record that the state holds so far is one that loading
    /// may give.
    pub open spec fn wf(self) -> bool {
        match self {
            LoadStateView::Config => true,
            LoadStateView::Script(draft, _) => draft.wf(),
            LoadStateView::Cleanup(draft) => draft.wf(),
        }
    }
}

impl View for LoadStep {
    type V = LoadStepView;

    open spec fn view(&self) -> LoadStepView {
        match *self {
            LoadStep::Read(path, state) => LoadStepView::Read(path@, state@),
            LoadStep::Done(config) => LoadStepView::Done(config@),
        }
    }
}

/// The outcome of a step, with its texts as sequences of characters.
pub open spec fn step_view(step: Result<LoadStep, ConfigError>) -> Result<
    LoadStepView,
    ConfigErrorView,
> {
    match step {
        Ok(step) => Ok(step@),
        Err(error) => Err(error@),
    }
}

impl ConfigDocumentView {
    /// The document that holds none of the recognised keys.
    pub open spec fn blank() -> ConfigDocumentView {
        ConfigDocumentView {
            name: None,
            is_final: false,
            script_use_file: false,
            file_path: None,
            script: None,
            cleanup_file_path: None,
            cleanup: None,
            restart_update: false,
            gdep_err_ignore: false,
            script_err_ignore: false,
            local_repo: false,
            repo: None,
            into_path: None,
        }
    }

    /// The recognised keys among the entries of a parsed document.
    pub open spec fn of_entries(entries: Entries) -> ConfigDocumentView {
        ConfigDocumentView {
            name: entries.text("name"@),
            is_final: entries.flag("final"@),
            script_use_file: entries.flag("script_use_file"@),
            file_path: entries.text("file_path"@),
            script: entries.text("script"@),
            cleanup_file_path: entries.text("cleanup_file_path"@),
            cleanup: entries.text("cleanup"@),
            restart_update: entries.flag("restart_update"@),
            gdep_err_ignore: entries.flag("gdep_err_ignore"@),
            script_err_ignore: entries.flag("script_err_ignore"@),
            local_repo: entries.flag("local_repo"@),
            repo: entries.text("repo"@),
            into_path: entries.text("into_path"@),
        }
    }

    /// The key that names the script: a path with `script_use_file`, the
    /// script's text without.
    pub open spec fn script_source(self) -> Option<Seq<char>> {
        if self.script_use_file {
            self.file_path
        } else {
            self.script
        }
    }

    /// The key that names the cleanup script, chosen as for the script.
    pub open spec fn cleanup_source(self) -> Option<Seq<char>> {
        if self.script_use_file {
            self.cleanup_file_path
        } else {
            self.cleanup
        }
    }

    /// Whether the document lacks a name: none is there, or it is empty.
    pub open spec fn lacks_name(self) -> bool {
        self.name is None || self.name->0.len() == 0
    }

    /// Whether the document lacks a repository: none is there, or a remote
    /// is named by an empty URL.
    pub open spec fn lacks_repo(self) -> bool {
        self.repo is None || (!self.local_repo && self.repo->0.len() == 0)
    }

    /// The first mandatory property that the document lacks, in the order
    /// name, script, repo.
    pub open spec fn missing(self) -> Option<Seq<char>> {
        if self.lacks_name() {
            Some("name"@)
        } else if self.script_source() is None {
            Some("script"@)
        } else if self.lacks_repo() {
            Some("repo"@)
        } else {
            None
        }
    }

    /// Where the document says the repository comes from.
    pub open spec fn repo_like(self) -> RepoLikeView
        recommends
            self.repo is Some,
    {
        if self.local_repo {
            RepoLikeView::Local(self.repo->0)
        } else {
            match self.into_path {
                None => RepoLikeView::Remote(self.repo->0),
                Some(path) => RepoLikeView::Remote2(self.repo->0, path),
            }
        }
    }

    /// The record that the document stands for, with the given script and
    /// cleanup.
    pub open spec fn record(self, script: Seq<char>, cleanup: Option<Seq<char>>) -> ConfigView
        recommends
            self.missing() is None,
    {
        ConfigView {
            name: self.name->0,
            re_run: !self.is_final,
            restart_after_update: self.restart_update,
            exit_on_script_error: !self.script_err_ignore,
            exit_on_gdep_error: !self.gdep_err_ignore,
            script: script,
            repo: self.repo_like(),
            cleanup: cleanup,
        }
    }

    /// What the loader does with the document of the configuration file at
    /// `path`. A document that lacks a mandatory property is refused. One
    /// that holds its scripts is complete. One that names script files asks
    /// for the script file, found relative to the configuration file.
    pub open spec fn begin(self, path: Seq<char>) -> Result<LoadStepView, ConfigErrorView> {
        if self.missing() is Some {
            Err(ConfigErrorView::MissingContent(self.missing()->0))
        } else if self.script_use_file {
            Ok(
                LoadStepView::Read(
                    resolved_path(path, self.file_path->0),
                    LoadStateView::Script(
                        self.record(Seq::empty(), None),
                        match self.cleanup_file_path {
                            Some(file) => Some(resolved_path(path, file)),
                            None => None,
                        },
                    ),
                ),
            )
        } else {
            Ok(LoadStepView::Done(self.record(self.script->0, self.cleanup)))
        }
    }
}

/// Whether `node` sets `key` to true.
fn flag_set(node: &Yaml, key: &str) -> (set: bool)
    ensures
        set == entries_of(*node).flag(key@),
{
    match flag_entry(node, key) {
        Some(flag) => flag,
        None => false,
    }
}

/// The text that `node` holds under `key`.
fn text_under(node: &Yaml, key: &str) -> (text: Option<String>)
    ensures
        text_of(text) == entries_of(*node).text(key@),
{
    string_entry(node, key)
}

impl ConfigDocument {
    /// The document that holds none of the recognised keys.
    pub fn blank() -> (document: ConfigDocument)
        ensures
            document@ == ConfigDocumentView::blank(),
    {
        ConfigDocument {
            name: None,
            is_final: false,
            script_use_file: false,
            file_path: None,
            script: None,
            cleanup_file_path: None,
            cleanup: None,
            restart_update: false,
            gdep_err_ignore: false,
            script_err_ignore: false,
            local_repo: false,
            repo: None,
            into_path: None,
        }
    }

    /// Reads the recognised keys of a parsed document.
    pub fn read(node: &Yaml) -> (document: ConfigDocument)
        ensures
            document@ == ConfigDocumentView::of_entries(entries_of(*node)),
    {
        ConfigDocument {
            name: text_under(node, "name"),
            is_final: flag_set(node, "final"),
            script_use_file: flag_set(node, "script_use_file"),
            file_path: text_under(node, "file_path"),
            script: text_under(node, "script"),
            cleanup_file_path: text_under(node, "cleanup_file_path"),
            cleanup: text_under(node, "cleanup"),
            restart_update: flag_set(node, "restart_update"),
            gdep_err_ignore: flag_set(node, "gdep_err_ignore"),
            script_err_ignore: flag_set(node, "script_err_ignore"),
            local_repo: flag_set(node, "local_repo"),
            repo: text_under(node, "repo"),
            into_path: text_under(node, "into_path"),
        }
    }

    /// Starts loading from the document of the configuration file at
    /// `path`: refuses it, completes the record, or asks for the script
    /// file.
    pub fn begin(self, path: &str) -> (step: Result<LoadStep, ConfigError>)
        ensures
            step_view(step) == self@.begin(path@),
            step matches Ok(LoadStep::Done(config)) ==> config@.wf(),
            step matches Ok(LoadStep::Read(_, state)) ==> state@.wf(),
    {
        let ConfigDocument {
            name,
            is_final,
            script_use_file,
            file_path,
            script,
            cleanup_file_path,
            cleanup,
            restart_update,
            gdep_err_ignore,
            script_err_ignore,
            local_repo,
            repo,
            into_path,
        } = self;
        let name = match name {
            Some(name) => name,
            None => {
                return Err(ConfigError::MissingContent(String::from_str("name")));
            },
        };
        if name.as_str().is_empty() {
            return Err(ConfigError::MissingContent(String::from_str("name")));
        }
        let source = if script_use_file {
            file_path
        } else {
            script
        };
        let source = match source {
            Some(source) => source,
            None => {
                return Err(ConfigError::MissingContent(String::from_str("script")));
            },
        };
        let repo = match repo {
            Some(repo) => repo,
            None => {
                return Err(ConfigError::MissingContent(String::from_str("repo")));
            },
        };
        if !local_repo && repo.as_str().is_empty() {
            return Err(ConfigError::MissingContent(String::from_str("repo")));
        }
        let repo = if local_repo {
            RepoLike::Local(repo)
        } else {
            match into_path {
                None => RepoLike::Remote(repo),
                Some(into) => RepoLike::Remote2(repo, into),
            }
        };
        if script_use_file {
            let draft = Config {
                name,
                re_run: !is_final,
                restart_after_update: restart_update,
                exit_on_script_error: !script_err_ignore,
                exit_on_gdep_error: !gdep_err_ignore,
                script: String::new(),
                repo,
                cleanup: None,
            };
            let cleanup_file = match cleanup_file_path {
                Some(file) => Some(resolve_other_path(path, file.as_str())),
                None => None,
            };
            Ok(
                LoadStep::Read(
                    resolve_other_path(path, source.as_str()),
                    LoadState::Script(draft, cleanup_file),
                ),
            )
        } else {
            Ok(
                LoadStep::Done(
                    Config {
                        name,
                        re_run: !is_final,
                        restart_after_update: restart_update,
                        exit_on_script_error: !script_err_ignore,
                        exit_on_gdep_error: !gdep_err_ignore,
                        script: source,
                        repo,
                        cleanup,
                    },
                ),
            )
        }
    }
}

} // verus!

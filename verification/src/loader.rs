//! Loading a configuration record from its file and the script files that
//! it names.
//!
//! The loader reads no file itself. It is a state machine: the caller reads
//! the file that the loader asks for and hands back what reading gave.

use vstd::prelude::*;
use crate::config::{text_of, Config, ConfigError, ConfigErrorView, ConfigView, RepoLike,
    RepoLikeView};
use crate::document::{step_view, ConfigDocument, ConfigDocumentView, LoadState, LoadStateView,
    LoadStep, LoadStepView};
use crate::yaml::{load_documents, scan_error_line, yaml_documents, Entries};

verus! {

/// The recognised keys of the first document of a text; a text without any
/// document holds none of them.
pub open spec fn first_document(documents: Seq<Entries>) -> ConfigDocumentView {
    if documents.len() == 0 {
        ConfigDocumentView::blank()
    } else {
        ConfigDocumentView::of_entries(documents[0])
    }
}

impl LoadStateView {
    /// How many files the loader may still ask for, the one it is waiting
    /// for included.
    pub open spec fn reads_left(self) -> nat {
        match self {
            LoadStateView::Config => 3,
            LoadStateView::Script(_, Some(_)) => 2,
            LoadStateView::Script(_, None) => 1,
            LoadStateView::Cleanup(_) => 1,
        }
    }

    /// What the loader does in this state when reading the file it waits
    /// for gave `contents`, `None` standing for a file that could not be
    /// read. `path` is the path of the configuration file.
    pub open spec fn step(self, path: Seq<char>, contents: Option<Seq<char>>) -> Result<
        LoadStepView,
        ConfigErrorView,
    > {
        match self {
            LoadStateView::Config => match contents {
                None => Err(ConfigErrorView::ConfigFileNotFound),
                Some(text) => match yaml_documents(text) {
                    Err(detail) => Err(ConfigErrorView::ParsingFailed(detail)),
                    Ok(documents) => first_document(documents).begin(path),
                },
            },
            LoadStateView::Script(draft, cleanup_file) => match contents {
                None => Err(ConfigErrorView::ScriptFileNotFound),
                Some(body) => {
                    let filled = ConfigView { script: body, ..draft };
                    match cleanup_file {
                        Some(file) => Ok(
                            LoadStepView::Read(file, LoadStateView::Cleanup(filled)),
                        ),
                        None => Ok(LoadStepView::Done(filled)),
                    }
                },
            },
            LoadStateView::Cleanup(draft) => match contents {
                None => Err(ConfigErrorView::ScriptFileNotFound),
                Some(body) => Ok(LoadStepView::Done(ConfigView { cleanup: Some(body), ..draft })),
            },
        }
    }

    /// What loading gives from this state on, when the file that the loader
    /// waits for is found at `pending` and `files` holds the contents of
    /// every file that can be read. Each file that the loader asks for
    /// leaves fewer to ask for, so the last case never arises.
    pub open spec fn finish(
        self,
        path: Seq<char>,
        pending: Seq<char>,
        files: Map<Seq<char>, Seq<char>>,
    ) -> Result<ConfigView, ConfigErrorView>
        decreases self.reads_left(),
    {
        let contents = if files.contains_key(pending) {
            Some(files[pending])
        } else {
            None
        };
        match self.step(path, contents) {
            Err(error) => Err(error),
            Ok(LoadStepView::Done(config)) => Ok(config),
            Ok(LoadStepView::Read(file, state)) => if state.reads_left() < self.reads_left() {
                state.finish(path, file, files)
            } else {
                Err(ConfigErrorView::ScriptFileNotFound)
            },
        }
    }
}

/// What loading the configuration file at `path` gives when `files` holds
/// the contents of every file that can be read.
pub open spec fn loaded(path: Seq<char>, files: Map<Seq<char>, Seq<char>>) -> Result<
    ConfigView,
    ConfigErrorView,
> {
    LoadStateView::Config.finish(path, path, files)
}

impl ConfigView {
    /// A document that stands for this record: it holds the scripts
    /// themselves and names no file.
    pub open spec fn document(self) -> ConfigDocumentView {
        ConfigDocumentView {
            name: Some(self.name),
            is_final: !self.re_run,
            script_use_file: false,
            file_path: None,
            script: Some(self.script),
            cleanup_file_path: None,
            cleanup: self.cleanup,
            restart_update: self.restart_after_update,
            gdep_err_ignore: !self.exit_on_gdep_error,
            script_err_ignore: !self.exit_on_script_error,
            local_repo: self.repo is Local,
            repo: Some(
                match self.repo {
                    RepoLikeView::Remote(url) => url,
                    RepoLikeView::Local(path) => path,
                    RepoLikeView::Remote2(url, _) => url,
                },
            ),
            into_path: match self.repo {
                RepoLikeView::Remote2(_, path) => Some(path),
                _ => None,
            },
        }
    }
}

impl Config {
    /// Takes the loader one step further. `path` is the path of the
    /// configuration file, `state` says which file the loader was waiting
    /// for, and `contents` is what reading that file gave, `None` where it
    /// could not be read. A session starts in `LoadState::Config` with the
    /// contents of the file at `path`.
    pub fn load_from_file(path: &String, state: LoadState, contents: Option<String>) -> (step:
        Result<LoadStep, ConfigError>)
        ensures
            step_view(step) == state@.step(path@, text_of(contents)),
            step matches Ok(LoadStep::Read(_, next)) ==> next@.reads_left() < state@.reads_left(),
            state@.wf() ==> (step matches Ok(LoadStep::Read(_, next)) ==> next@.wf()),
            state@.wf() ==> (step matches Ok(LoadStep::Done(config)) ==> config@.wf()),
    {
        match state {
            LoadState::Config => {
                let text = match contents {
                    Some(text) => text,
                    None => {
                        return Err(ConfigError::ConfigFileNotFound);
                    },
                };
                let nodes = match load_documents(text.as_str()) {
                    Ok(nodes) => nodes,
                    Err(error) => {
                        return Err(ConfigError::ParsingFailed(scan_error_line(&error)));
                    },
                };
                let document = if nodes.len() == 0 {
                    ConfigDocument::blank()
                } else {
                    ConfigDocument::read(&nodes[0])
                };
                document.begin(path.as_str())
            },
            LoadState::Script(draft, cleanup_file) => {
                let body = match contents {
                    Some(body) => body,
                    None => {
                        return Err(ConfigError::ScriptFileNotFound);
                    },
                };
                let filled = Config { script: body, ..draft };
                match cleanup_file {
                    Some(file) => Ok(LoadStep::Read(file, LoadState::Cleanup(filled))),
                    None => Ok(LoadStep::Done(filled)),
                }
            },
            LoadState::Cleanup(draft) => {
                let body = match contents {
                    Some(body) => body,
                    None => {
                        return Err(ConfigError::ScriptFileNotFound);
                    },
                };
                Ok(LoadStep::Done(Config { cleanup: Some(body), ..draft }))
            },
        }
    }

    /// Writes the record back as a document that holds the scripts
    /// themselves.
    pub fn to_document(&self) -> (document: ConfigDocument)
        ensures
            document@ == self@.document(),
    {
        let (local_repo, repo, into_path) = match &self.repo {
            RepoLike::Remote(url) => (false, url.clone(), None),
            RepoLike::Local(path) => (true, path.clone(), None),
            RepoLike::Remote2(url, path) => (false, url.clone(), Some(path.clone())),
        };
        let cleanup = match &self.cleanup {
            Some(body) => Some(body.clone()),
            None => None,
        };
        ConfigDocument {
            name: Some(self.name.clone()),
            is_final: !self.re_run,
            script_use_file: false,
            file_path: None,
            script: Some(self.script.clone()),
            cleanup_file_path: None,
            cleanup,
            restart_update: self.restart_after_update,
            gdep_err_ignore: !self.exit_on_gdep_error,
            script_err_ignore: !self.exit_on_script_error,
            local_repo,
            repo: Some(repo),
            into_path,
        }
    }
}

/// The loader asks for at most three files: each file it asks for leaves
/// fewer to ask for.
pub proof fn law_loader_makes_progress(
    state: LoadStateView,
    path: Seq<char>,
    contents: Option<Seq<char>>,
)
    ensures
        state.step(path, contents) matches Ok(LoadStepView::Read(_, next)) ==> next.reads_left()
            < state.reads_left(),
{
}

/// Every record that a step completes, and every record that a step
/// carries on, has a name that is not empty and no remote with an empty
/// URL, provided that the state it started from held such a record.
pub proof fn law_steps_keep_records_valid(
    state: LoadStateView,
    path: Seq<char>,
    contents: Option<Seq<char>>,
)
    requires
        state.wf(),
    ensures
        state.step(path, contents) matches Ok(LoadStepView::Done(config)) ==> config.wf(),
        state.step(path, contents) matches Ok(LoadStepView::Read(_, next)) ==> next.wf(),
{
}

/// Every record that loading gives has a name that is not empty, and where
/// its repository is a remote, a URL that is not empty.
pub proof fn law_loaded_record_is_valid(path: Seq<char>, files: Map<Seq<char>, Seq<char>>)
    ensures
        loaded(path, files) matches Ok(config) ==> config.wf(),
{
    lemma_finish_is_valid(LoadStateView::Config, path, path, files);
}

proof fn lemma_finish_is_valid(
    state: LoadStateView,
    path: Seq<char>,
    pending: Seq<char>,
    files: Map<Seq<char>, Seq<char>>,
)
    requires
        state.wf(),
    ensures
        state.finish(path, pending, files) matches Ok(config) ==> config.wf(),
    decreases state.reads_left(),
{
    let contents = if files.contains_key(pending) {
        Some(files[pending])
    } else {
        None
    };
    law_steps_keep_records_valid(state, path, contents);
    match state.step(path, contents) {
        Ok(LoadStepView::Read(file, next)) => {
            if next.reads_left() < state.reads_left() {
                lemma_finish_is_valid(next, path, file, files);
            }
        },
        _ => {},
    }
}

/// A configuration file that cannot be read fails the load, whatever else
/// can be read.
pub proof fn law_missing_config_file(path: Seq<char>, files: Map<Seq<char>, Seq<char>>)
    requires
        !files.contains_key(path),
    ensures
        loaded(path, files) == Err::<ConfigView, ConfigErrorView>(
            ConfigErrorView::ConfigFileNotFound,
        ),
{
}

/// A document that names a script file fails the load where that file
/// cannot be read, at the path that the loader asked for.
pub proof fn law_missing_script_file(
    path: Seq<char>,
    files: Map<Seq<char>, Seq<char>>,
    file: Seq<char>,
    state: LoadStateView,
)
    requires
        files.contains_key(path),
        LoadStateView::Config.step(path, Some(files[path])) == Ok::<
            LoadStepView,
            ConfigErrorView,
        >(LoadStepView::Read(file, state)),
        !files.contains_key(file),
    ensures
        state is Script,
        loaded(path, files) == Err::<ConfigView, ConfigErrorView>(
            ConfigErrorView::ScriptFileNotFound,
        ),
{
    reveal_with_fuel(LoadStateView::finish, 2);
    assert(state.step(path, None) == Err::<LoadStepView, ConfigErrorView>(
        ConfigErrorView::ScriptFileNotFound,
    ));
}

/// A document that holds its scripts loads from the configuration file
/// alone, to the record that the document stands for.
pub proof fn law_inline_document_needs_no_other_file(
    path: Seq<char>,
    files: Map<Seq<char>, Seq<char>>,
    documents: Seq<Entries>,
)
    requires
        files.contains_key(path),
        yaml_documents(files[path]) == Ok::<Seq<Entries>, Seq<char>>(documents),
        first_document(documents).missing() is None,
        !first_document(documents).script_use_file,
    ensures
        loaded(path, files) == Ok::<ConfigView, ConfigErrorView>(
            first_document(documents).record(
                first_document(documents).script->0,
                first_document(documents).cleanup,
            ),
        ),
{
}

/// Round trip: the document written for a record loads to that record,
/// wherever the configuration file lies.
pub proof fn law_document_round_trip(config: ConfigView, path: Seq<char>)
    requires
        config.wf(),
    ensures
        config.document().begin(path) == Ok::<LoadStepView, ConfigErrorView>(
            LoadStepView::Done(config),
        ),
{
    assert(config.document().record(config.script, config.cleanup) =~= config);
}

/// Round trip from a document: where a document that holds its scripts
/// loads to a record, the document written for that record loads to the
/// same record. The two documents agree on every recognised key that
/// loading reads: on all but `into_path` where the repository is local.
pub proof fn law_reloading_keeps_the_record(
    document: ConfigDocumentView,
    path: Seq<char>,
    again: Seq<char>,
)
    requires
        document.begin(path) is Ok,
        !document.script_use_file,
    ensures
        document.begin(path) matches Ok(LoadStepView::Done(config)) && config.document().begin(
            again,
        ) == document.begin(path) && config.document().name == document.name
            && config.document().script == document.script && config.document().cleanup
            == document.cleanup && config.document().repo == document.repo
            && config.document().is_final == document.is_final
            && config.document().restart_update == document.restart_update
            && config.document().gdep_err_ignore == document.gdep_err_ignore
            && config.document().script_err_ignore == document.script_err_ignore
            && config.document().local_repo == document.local_repo && (!document.local_repo
            ==> config.document().into_path == document.into_path),
{
    let config = document.record(document.script->0, document.cleanup);
    law_document_round_trip(config, again);
}

} // verus!

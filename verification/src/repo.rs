//! Getting hold of the working copy: open it, or clone it where it is
//! missing and a remote is known.

use vstd::prelude::*;
use crate::config::{text_of, Config, RepoLike, RepoLikeView};
use crate::errors::GdepError;

verus! {

/// Where the working copy of a configuration is looked for, and the URL to
/// clone it from if it is missing. A remote without a path of its own goes
/// to the path that the caller provides.
pub open spec fn repo_location(repo: RepoLikeView, provided: Seq<char>) -> (
    Seq<char>,
    Option<Seq<char>>,
) {
    match repo {
        RepoLikeView::Remote(url) => (provided, Some(url)),
        RepoLikeView::Local(path) => (path, None),
        RepoLikeView::Remote2(url, path) => (path, Some(url)),
    }
}

/// The step that the caller carries out next to get hold of a working
/// copy.
#[derive(Debug, PartialEq)]
pub enum RepoPhase {
    /// Open the working copy at the path (first); holds the URL to clone
    /// from if that fails.
    Open(String, Option<String>),
    /// Clone the URL (first) into the path (second).
    Clone(String, String),
    /// Nothing: the working copy at this path is open.
    Ready(String),
    /// Nothing: no working copy could be had.
    Failed(GdepError),
}

impl RepoPhase {
    /// The phase after the pending step has succeeded or failed. A working
    /// copy that cannot be opened is cloned where a URL is known, and is
    /// reported as missing where none is. A clone that fails is reported
    /// with its URL. Once ready or failed, nothing changes any more.
    pub open spec fn next(self, succeeded: bool) -> RepoPhase {
        match self {
            RepoPhase::Open(path, url) => if succeeded {
                RepoPhase::Ready(path)
            } else {
                match url {
                    Some(url) => RepoPhase::Clone(url, path),
                    None => RepoPhase::Failed(GdepError::LocalRepoNotFound(path)),
                }
            },
            RepoPhase::Clone(url, path) => if succeeded {
                RepoPhase::Ready(path)
            } else {
                RepoPhase::Failed(GdepError::RemoteRepoNotFound(url))
            },
            RepoPhase::Ready(_) => self,
            RepoPhase::Failed(_) => self,
        }
    }

    /// The phase after a sequence of outcomes, taken in order.
    pub open spec fn run(self, outcomes: Seq<bool>) -> RepoPhase
        decreases outcomes.len(),
    {
        if outcomes.len() == 0 {
            self
        } else {
            self.next(outcomes[0]).run(outcomes.drop_first())
        }
    }
}

/// Takes the search for a working copy one step further, given whether the
/// pending step succeeded.
pub fn get_repo(phase: RepoPhase, succeeded: bool) -> (next: RepoPhase)
    ensures
        next == phase.next(succeeded),
        phase matches RepoPhase::Open(_, None) ==> !(next is Clone),
{
    match phase {
        RepoPhase::Open(path, url) => {
            if succeeded {
                RepoPhase::Ready(path)
            } else {
                match url {
                    Some(url) => RepoPhase::Clone(url, path),
                    None => RepoPhase::Failed(GdepError::LocalRepoNotFound(path)),
                }
            }
        },
        RepoPhase::Clone(url, path) => {
            if succeeded {
                RepoPhase::Ready(path)
            } else {
                RepoPhase::Failed(GdepError::RemoteRepoNotFound(url))
            }
        },
        RepoPhase::Ready(path) => RepoPhase::Ready(path),
        RepoPhase::Failed(error) => RepoPhase::Failed(error),
    }
}

/// Where the working copy that a configuration names is looked for, and
/// the URL to clone it from if it is missing. `provided` is the path that
/// the caller gives to a remote without a path of its own.
pub fn repo_request(config: &Config, provided: &String) -> (request: (String, Option<String>))
    ensures
        (request.0@, text_of(request.1)) == repo_location(config@.repo, provided@),
{
    match &config.repo {
        RepoLike::Remote(url) => (provided.clone(), Some(url.clone())),
        RepoLike::Local(path) => (path.clone(), None),
        RepoLike::Remote2(url, path) => (path.clone(), Some(url.clone())),
    }
}

/// The phase in which the search for the working copy of a configuration
/// starts: it is opened where `repo_request` says.
pub fn get_repo_config(config: &Config, provided: &String) -> (phase: RepoPhase)
    ensures
        phase matches RepoPhase::Open(path, url) && (path@, text_of(url)) == repo_location(
            config@.repo,
            provided@,
        ),
        config.repo is Local ==> phase matches RepoPhase::Open(_, None),
{
    let (path, url) = repo_request(config, provided);
    RepoPhase::Open(path, url)
}

/// A working copy that is named without a remote is never cloned: where it
/// cannot be opened, the search fails with the path and reaches for no
/// network.
pub proof fn law_local_repo_is_never_cloned(path: String, outcomes: Seq<bool>)
    ensures
        !(RepoPhase::Open(path, None).run(outcomes) is Clone),
        outcomes.len() > 0 && !outcomes[0] ==> RepoPhase::Open(path, None).run(outcomes)
            == RepoPhase::Failed(GdepError::LocalRepoNotFound(path)),
{
    if outcomes.len() > 0 {
        lemma_settled(RepoPhase::Open(path, None).next(outcomes[0]), outcomes.drop_first());
    }
}

/// A search that is over stays as it is.
proof fn lemma_settled(phase: RepoPhase, outcomes: Seq<bool>)
    requires
        phase is Ready || phase is Failed,
    ensures
        phase.run(outcomes) == phase,
    decreases outcomes.len(),
{
    if outcomes.len() > 0 {
        lemma_settled(phase.next(outcomes[0]), outcomes.drop_first());
    }
}

/// The search takes at most two steps: after an open and a clone it is
/// over, whatever they gave.
pub proof fn law_search_ends(phase: RepoPhase, first: bool, second: bool)
    ensures
        phase.next(first).next(second) is Ready || phase.next(first).next(second) is Failed,
{
}

} // verus!

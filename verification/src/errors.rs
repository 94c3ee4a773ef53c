//! The errors that a session can surface.

use vstd::prelude::*;
use vstd::string::StringExecFns;
use crate::config::{ConfigError, ConfigErrorView};
use crate::git::{code_name, error_code, error_code_name, error_message, error_text,
    git_error_code, git_error_message, git_error_text};

verus! {

/// Everything that can end a session early.
#[derive(Debug, Clone, PartialEq)]
pub enum GdepError {
    /// No working copy could be opened at this path.
    LocalRepoNotFound(String),
    /// The remote at this URL could not be cloned.
    RemoteRepoNotFound(String),
    /// The configuration could not be loaded.
    ConfigLoadError(ConfigError),
    /// No remote-tracking branch named `main` or `master` exists.
    BranchInferFailed,
    /// A git operation failed; holds its message and code.
    GitError(String, git2::ErrorCode),
    /// The local branch holds this many commits that the remote lacks.
    UpdateErrorRepoAhead(usize),
    /// Local and remote have diverged: commits ahead, then commits behind.
    UpdateErrorAheadBehind(usize, usize),
    /// Fetching or merging failed in the middle of an update.
    UpdateFailed(String, git2::ErrorCode),
}

/// A `GdepError` with its texts as sequences of characters.
pub enum GdepErrorView {
    LocalRepoNotFound(Seq<char>),
    RemoteRepoNotFound(Seq<char>),
    ConfigLoadError(ConfigErrorView),
    BranchInferFailed,
    GitError(Seq<char>, git2::ErrorCode),
    UpdateErrorRepoAhead(usize),
    UpdateErrorAheadBehind(usize, usize),
    UpdateFailed(Seq<char>, git2::ErrorCode),
}

impl View for GdepError {
    type V = GdepErrorView;

    open spec fn view(&self) -> GdepErrorView {
        match *self {
            GdepError::LocalRepoNotFound(path) => GdepErrorView::LocalRepoNotFound(path@),
            GdepError::RemoteRepoNotFound(url) => GdepErrorView::RemoteRepoNotFound(url@),
            GdepError::ConfigLoadError(error) => GdepErrorView::ConfigLoadError(error@),
            GdepError::BranchInferFailed => GdepErrorView::BranchInferFailed,
            GdepError::GitError(message, code) => GdepErrorView::GitError(message@, code),
            GdepError::UpdateErrorRepoAhead(ahead) => GdepErrorView::UpdateErrorRepoAhead(ahead),
            GdepError::UpdateErrorAheadBehind(ahead, behind) => {
                GdepErrorView::UpdateErrorAheadBehind(ahead, behind)
            },
            GdepError::UpdateFailed(message, code) => GdepErrorView::UpdateFailed(message@, code),
        }
    }
}

/// The characters of an optional error.
pub open spec fn outcome_of(outcome: Option<GdepError>) -> Option<GdepErrorView> {
    match outcome {
        Some(error) => Some(error@),
        None => None,
    }
}

/// The character that stands for a digit below ten.
pub open spec fn digit_char(digit: nat) -> char {
    if digit == 0 {
        '0'
    } else if digit == 1 {
        '1'
    } else if digit == 2 {
        '2'
    } else if digit == 3 {
        '3'
    } else if digit == 4 {
        '4'
    } else if digit == 5 {
        '5'
    } else if digit == 6 {
        '6'
    } else if digit == 7 {
        '7'
    } else if digit == 8 {
        '8'
    } else {
        '9'
    }
}

/// A number written in base ten, without leading zeros.
pub open spec fn decimal(n: nat) -> Seq<char>
    decreases n,
{
    if n < 10 {
        seq![digit_char(n)]
    } else {
        decimal(n / 10).push(digit_char(n % 10))
    }
}

/// The text of a digit below ten.
fn digit_text(digit: usize) -> (text: &'static str)
    requires
        digit < 10,
    ensures
        text@ == seq![digit_char(digit as nat)],
{
    proof {
        reveal_strlit("0");
        reveal_strlit("1");
        reveal_strlit("2");
        reveal_strlit("3");
        reveal_strlit("4");
        reveal_strlit("5");
        reveal_strlit("6");
        reveal_strlit("7");
        reveal_strlit("8");
        reveal_strlit("9");
    }
    let text = if digit == 0 {
        "0"
    } else if digit == 1 {
        "1"
    } else if digit == 2 {
        "2"
    } else if digit == 3 {
        "3"
    } else if digit == 4 {
        "4"
    } else if digit == 5 {
        "5"
    } else if digit == 6 {
        "6"
    } else if digit == 7 {
        "7"
    } else if digit == 8 {
        "8"
    } else {
        "9"
    };
    assert(text@ =~= seq![digit_char(digit as nat)]);
    text
}

/// Writes a count in base ten.
pub fn decimal_string(n: usize) -> (text: String)
    ensures
        text@ == decimal(n as nat),
{
    let mut rest: usize = n / 10;
    let mut text = String::from_str(digit_text(n % 10));
    while rest > 0
        invariant
            decimal(n as nat) == if rest == 0 {
                text@
            } else {
                decimal(rest as nat) + text@
            },
        decreases rest,
    {
        let digit = digit_text(rest % 10);
        let ghost before = text@;
        text = String::from_str(digit).concat(text.as_str());
        proof {
            let d = seq![digit_char((rest % 10) as nat)];
            assert(text@ == d + before);
            if rest >= 10 {
                assert(decimal(rest as nat) == decimal((rest / 10) as nat).push(
                    digit_char((rest % 10) as nat),
                ));
                assert(decimal(rest as nat) + before =~= decimal((rest / 10) as nat) + (d
                    + before));
            } else {
                assert(decimal(rest as nat) =~= d);
            }
        }
        rest = rest / 10;
    }
    text
}

/// The line for a failed git operation: what failed, the name of the code
/// in brackets, then the message.
pub open spec fn failure_line(what: Seq<char>, code: Seq<char>, message: Seq<char>) -> Seq<char> {
    what + " ("@ + code + "): "@ + message
}

/// Writes the line for a failed git operation.
pub fn describe_failure(what: &str, code: &str, message: &str) -> (line: String)
    ensures
        line@ == failure_line(what@, code@, message@),
{
    String::from_str(what).concat(" (").concat(code).concat("): ").concat(message)
}

impl GdepErrorView {
    /// The line that describes the error to the user.
    pub open spec fn message(self) -> Seq<char> {
        match self {
            GdepErrorView::LocalRepoNotFound(path) => "Local repository not found: "@ + path,
            GdepErrorView::RemoteRepoNotFound(url) => "Remote repository not found: "@ + url,
            GdepErrorView::ConfigLoadError(error) => {
                "Failed to load configuration: "@ + error.message()
            },
            GdepErrorView::BranchInferFailed => "Failed to infer branch"@,
            GdepErrorView::GitError(message, code) => {
                failure_line("Git error"@, error_code_name(code), message)
            },
            GdepErrorView::UpdateErrorRepoAhead(ahead) => {
                "Update failed: local repo is "@ + decimal(ahead as nat) + " commits ahead"@
            },
            GdepErrorView::UpdateErrorAheadBehind(ahead, behind) => {
                "Update failed: local repo is "@ + decimal(ahead as nat) + " ahead, "@ + decimal(
                    behind as nat,
                ) + " behind"@
            },
            GdepErrorView::UpdateFailed(message, code) => {
                failure_line("Update failed"@, error_code_name(code), message)
            },
        }
    }
}

impl GdepError {
    /// A copy of the error, text for text.
    pub fn duplicate(&self) -> (copy: GdepError)
        ensures
            copy@ == self@,
    {
        match self {
            GdepError::LocalRepoNotFound(path) => GdepError::LocalRepoNotFound(path.clone()),
            GdepError::RemoteRepoNotFound(url) => GdepError::RemoteRepoNotFound(url.clone()),
            GdepError::ConfigLoadError(error) => GdepError::ConfigLoadError(error.duplicate()),
            GdepError::BranchInferFailed => GdepError::BranchInferFailed,
            GdepError::GitError(message, code) => GdepError::GitError(message.clone(), *code),
            GdepError::UpdateErrorRepoAhead(ahead) => GdepError::UpdateErrorRepoAhead(*ahead),
            GdepError::UpdateErrorAheadBehind(ahead, behind) => {
                GdepError::UpdateErrorAheadBehind(*ahead, *behind)
            },
            GdepError::UpdateFailed(message, code) => {
                GdepError::UpdateFailed(message.clone(), *code)
            },
        }
    }

    /// The line that describes the error to the user.
    pub fn message(&self) -> (line: String)
        ensures
            line@ == self@.message(),
    {
        match self {
            GdepError::LocalRepoNotFound(path) => {
                String::from_str("Local repository not found: ").concat(path.as_str())
            },
            GdepError::RemoteRepoNotFound(url) => {
                String::from_str("Remote repository not found: ").concat(url.as_str())
            },
            GdepError::ConfigLoadError(error) => {
                String::from_str("Failed to load configuration: ").concat(
                    error.message().as_str(),
                )
            },
            GdepError::BranchInferFailed => String::from_str("Failed to infer branch"),
            GdepError::GitError(message, code) => {
                describe_failure("Git error", code_name(*code).as_str(), message.as_str())
            },
            GdepError::UpdateErrorRepoAhead(ahead) => {
                String::from_str("Update failed: local repo is ").concat(
                    decimal_string(*ahead).as_str(),
                ).concat(" commits ahead")
            },
            GdepError::UpdateErrorAheadBehind(ahead, behind) => {
                String::from_str("Update failed: local repo is ").concat(
                    decimal_string(*ahead).as_str(),
                ).concat(" ahead, ").concat(decimal_string(*behind).as_str()).concat(" behind")
            },
            GdepError::UpdateFailed(message, code) => {
                describe_failure("Update failed", code_name(*code).as_str(), message.as_str())
            },
        }
    }

    /// The error that stands for a failed git operation outside an update:
    /// its message and its code.
    pub open spec fn of_git(error: git2::Error) -> GdepErrorView {
        GdepErrorView::GitError(git_error_message(error), git_error_code(error))
    }

    /// The error that stands for a git operation that failed in the middle
    /// of an update: the line that the failure writes of itself, and its code.
    pub open spec fn of_failed_update(error: git2::Error) -> GdepErrorView {
        GdepErrorView::UpdateFailed(git_error_text(error), git_error_code(error))
    }

    /// Wraps the failure of a git operation outside an update.
    pub fn git_failed(error: &git2::Error) -> (wrapped: GdepError)
        ensures
            wrapped@ == Self::of_git(*error),
    {
        GdepError::GitError(error_message(error), error_code(error))
    }

    /// Wraps the failure of a git operation in the middle of an update.
    pub fn update_failed(error: &git2::Error) -> (wrapped: GdepError)
        ensures
            wrapped@ == Self::of_failed_update(*error),
    {
        GdepError::UpdateFailed(error_text(error), error_code(error))
    }
}

impl From<ConfigError> for GdepError {
    fn from(value: ConfigError) -> (wrapped: GdepError) {
        GdepError::ConfigLoadError(value)
    }
}

impl vstd::std_specs::convert::FromSpecImpl<ConfigError> for GdepError {
    open spec fn obeys_from_spec() -> bool {
        true
    }

    open spec fn from_spec(value: ConfigError) -> GdepError {
        GdepError::ConfigLoadError(value)
    }
}

} // verus!

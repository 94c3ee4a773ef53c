//! What the decisions read of the values that `git2` hands out.

use vstd::prelude::*;

verus! {

/// `git2::Error`: the failure of a git operation, carried as it came.
#[verifier::external_type_specification]
#[verifier::external_body]
pub struct ExGitError(git2::Error);

/// `git2::ErrorCode`: the code that classifies a failure.
#[verifier::external_type_specification]
#[verifier::external_body]
pub struct ExErrorCode(git2::ErrorCode);

/// `git2::MergeAnalysis`: the flags that a merge analysis returns.
#[verifier::external_type_specification]
#[verifier::external_body]
pub struct ExMergeAnalysis(git2::MergeAnalysis);

/// The message that `git2::Error::message` returns for `error`.
pub uninterp spec fn git_error_message(error: git2::Error) -> Seq<char>;

/// The code that `git2::Error::code` returns for `error`.
pub uninterp spec fn git_error_code(error: git2::Error) -> git2::ErrorCode;

/// The line that `git2::Error` writes of itself through `Display`.
pub uninterp spec fn git_error_text(error: git2::Error) -> Seq<char>;

/// The name that `git2::ErrorCode` writes of itself through `Debug`.
pub uninterp spec fn error_code_name(code: git2::ErrorCode) -> Seq<char>;

/// Whether `git2::MergeAnalysis::is_fast_forward` holds of `analysis`.
pub uninterp spec fn analysis_fast_forward(analysis: git2::MergeAnalysis) -> bool;

/// Whether `git2::MergeAnalysis::is_normal` holds of `analysis`.
pub uninterp spec fn analysis_normal(analysis: git2::MergeAnalysis) -> bool;

/// Calls `git2::Error::message` and copies the text it borrows. The message
/// is a field of the error, so it depends on the error alone.
#[verifier::external_body]
pub(crate) fn error_message(error: &git2::Error) -> (message: String)
    ensures
        message@ == git_error_message(*error),
{
    error.message().to_string()
}

/// Calls `git2::Error::code`, which maps the raw code held in the error to
/// its `ErrorCode`; it depends on the error alone.
#[verifier::external_body]
pub(crate) fn error_code(error: &git2::Error) -> (code: git2::ErrorCode)
    ensures
        code == git_error_code(*error),
{
    error.code()
}

/// Formats a `git2::Error` through its `Display` impl, which writes the
/// message, then class and code where they are not the generic ones. The
/// text depends on the error alone.
#[verifier::external_body]
pub(crate) fn error_text(error: &git2::Error) -> (text: String)
    ensures
        text@ == git_error_text(*error),
{
    format!("{}", error)
}

/// Formats a `git2::ErrorCode` through its derived `Debug` impl, which
/// writes the variant's name.
#[verifier::external_body]
pub(crate) fn code_name(code: git2::ErrorCode) -> (name: String)
    ensures
        name@ == error_code_name(code),
{
    format!("{:?}", code)
}

/// `git2::ErrorCode` is `Copy`, and its derived `clone` returns the same
/// value.
pub assume_specification[ <git2::ErrorCode as Clone>::clone ](code: &git2::ErrorCode) -> (copy:
    git2::ErrorCode)
    ensures
        copy == *code,
;

/// Calls `git2::MergeAnalysis::is_fast_forward`, a test of one flag.
#[verifier::external_body]
pub(crate) fn is_fast_forward(analysis: &git2::MergeAnalysis) -> (set: bool)
    ensures
        set == analysis_fast_forward(*analysis),
{
    analysis.is_fast_forward()
}

/// Calls `git2::MergeAnalysis::is_normal`, a test of one flag.
#[verifier::external_body]
pub(crate) fn is_normal(analysis: &git2::MergeAnalysis) -> (set: bool)
    ensures
        set == analysis_normal(*analysis),
{
    analysis.is_normal()
}

} // verus!

//! Inferring the branch to track from the remote-tracking branches.

use vstd::prelude::*;
use vstd::string::StrSliceExecFns;
use crate::errors::{GdepError, GdepErrorView};

verus! {

/// Whether `text` ends in `suffix`.
pub open spec fn is_suffix(text: Seq<char>, suffix: Seq<char>) -> bool {
    suffix.len() <= text.len() && text.subrange(text.len() - suffix.len(), text.len() as int)
        == suffix
}

/// What follows the last `/` of a text; the whole text where it holds none.
pub open spec fn last_segment(text: Seq<char>) -> Seq<char>
    decreases text.len(),
{
    if text.len() == 0 {
        text
    } else if text.last() == '/' {
        Seq::empty()
    } else {
        last_segment(text.drop_last()).push(text.last())
    }
}

/// Whether a remote-tracking branch of this name tracks a default branch.
pub open spec fn tracks_default(name: Seq<char>) -> bool {
    is_suffix(name, "/main"@) || is_suffix(name, "/master"@)
}

/// One remote-tracking branch, as the enumeration hands it out.
#[derive(Debug, PartialEq)]
pub enum BranchEntry {
    /// A branch and its name.
    Named(String),
    /// A branch whose name is not valid UTF-8.
    Unnamed,
    /// The enumeration failed at this place.
    Failed(git2::Error),
}

/// The branch that a list of remote-tracking branches stands for: the
/// short name of the first one that tracks `main` or `master`. A failure
/// that comes before it is the result; a list without such a branch gives
/// `BranchInferFailed`.
pub open spec fn inferred(entries: Seq<BranchEntry>) -> Result<Seq<char>, GdepErrorView>
    decreases entries.len(),
{
    if entries.len() == 0 {
        Err(GdepErrorView::BranchInferFailed)
    } else {
        match entries[0] {
            BranchEntry::Failed(error) => Err(GdepError::of_git(error)),
            BranchEntry::Named(name) => if tracks_default(name@) {
                Ok(last_segment(name@))
            } else {
                inferred(entries.drop_first())
            },
            BranchEntry::Unnamed => inferred(entries.drop_first()),
        }
    }
}

/// The result of an inference, with its texts as sequences of characters.
pub open spec fn branch_view(branch: Result<String, GdepError>) -> Result<
    Seq<char>,
    GdepErrorView,
> {
    match branch {
        Ok(name) => Ok(name@),
        Err(error) => Err(error@),
    }
}

/// Tells whether `text` ends in `suffix`.
pub fn ends_with(text: &str, suffix: &str) -> (found: bool)
    ensures
        found == is_suffix(text@, suffix@),
{
    let length = text.unicode_len();
    let tail = suffix.unicode_len();
    if tail > length {
        return false;
    }
    let start = length - tail;
    let mut at: usize = 0;
    while at < tail
        invariant
            length == text@.len(),
            tail == suffix@.len(),
            tail <= length,
            start == length - tail,
            at <= tail,
            forall|k: int| 0 <= k < at ==> text@[start + k] == suffix@[k],
        decreases tail - at,
    {
        if text.get_char(start + at) != suffix.get_char(at) {
            assert(text@.subrange(start as int, length as int)[at as int] != suffix@[at as int]);
            return false;
        }
        at += 1;
    }
    assert(text@.subrange(start as int, length as int) =~= suffix@);
    true
}

/// Cuts a branch name down to what follows its last `/`.
pub fn short_name(text: &str) -> (name: String)
    ensures
        name@ == last_segment(text@),
{
    let length = text.unicode_len();
    let mut start: usize = 0;
    let mut at: usize = 0;
    while at < length
        invariant
            length == text@.len(),
            start <= at <= length,
            last_segment(text@.take(at as int)) == text@.subrange(start as int, at as int),
        decreases length - at,
    {
        let here = text.get_char(at);
        proof {
            let prefix = text@.take(at + 1);
            assert(prefix.drop_last() =~= text@.take(at as int));
            assert(prefix.last() == here);
            if here == '/' {
                assert(text@.subrange(at + 1, at + 1) =~= Seq::<char>::empty());
            } else {
                assert(text@.subrange(start as int, at as int).push(here) =~= text@.subrange(
                    start as int,
                    at + 1,
                ));
            }
        }
        if here == '/' {
            start = at + 1;
        }
        at += 1;
    }
    assert(text@.take(length as int) =~= text@);
    text.substring_char(start, length).to_owned()
}

/// Infers the branch to track from the remote-tracking branches, in the
/// order in which they were enumerated.
pub fn get_default_branch(entries: &Vec<BranchEntry>) -> (branch: Result<String, GdepError>)
    ensures
        branch_view(branch) == inferred(entries@),
        branch matches Ok(name) ==> name@ == "main"@ || name@ == "master"@,
{
    let mut at: usize = 0;
    assert(entries@.skip(0) =~= entries@);
    while at < entries.len()
        invariant
            at <= entries.len(),
            inferred(entries@) == inferred(entries@.skip(at as int)),
        decreases entries.len() - at,
    {
        proof {
            assert(entries@.skip(at as int).drop_first() =~= entries@.skip(at + 1));
            assert(entries@.skip(at as int)[0] == entries@[at as int]);
        }
        match &entries[at] {
            BranchEntry::Failed(error) => {
                return Err(GdepError::git_failed(error));
            },
            BranchEntry::Named(name) => {
                if ends_with(name.as_str(), "/main") || ends_with(name.as_str(), "/master") {
                    proof {
                        law_default_branch_is_main_or_master(name@);
                    }
                    return Ok(short_name(name.as_str()));
                }
            },
            BranchEntry::Unnamed => {},
        }
        at += 1;
    }
    Err(GdepError::BranchInferFailed)
}

/// What follows a `/` that no further `/` follows is the last segment.
proof fn lemma_segment_after_slash(head: Seq<char>, tail: Seq<char>)
    requires
        forall|k: int| 0 <= k < tail.len() ==> tail[k] != '/',
    ensures
        last_segment(head.push('/') + tail) == tail,
    decreases tail.len(),
{
    let text = head.push('/') + tail;
    if tail.len() == 0 {
        assert(text =~= head.push('/'));
        assert(last_segment(text) =~= tail);
    } else {
        assert(text.last() == tail.last());
        assert(text.drop_last() =~= head.push('/') + tail.drop_last());
        lemma_segment_after_slash(head, tail.drop_last());
        assert(tail.drop_last().push(tail.last()) =~= tail);
    }
}

/// A branch that tracks a default branch is cut to `main` or to `master`.
pub proof fn law_default_branch_is_main_or_master(name: Seq<char>)
    requires
        tracks_default(name),
    ensures
        last_segment(name) == "main"@ || last_segment(name) == "master"@,
{
    reveal_strlit("/main");
    reveal_strlit("/master");
    reveal_strlit("main");
    reveal_strlit("master");
    if is_suffix(name, "/main"@) {
        let head = name.subrange(0, name.len() - 5);
        let tail = name.subrange(name.len() - 4, name.len() as int);
        assert(name.subrange(name.len() - 5, name.len() as int)[0] == '/');
        assert(tail =~= "main"@) by {
            assert forall|k: int| 0 <= k < 4 implies tail[k] == "main"@[k] by {
                assert(name.subrange(name.len() - 5, name.len() as int)[k + 1] == "/main"@[k
                    + 1]);
            }
        }
        assert(name =~= head.push('/') + tail);
        lemma_segment_after_slash(head, tail);
    } else {
        let head = name.subrange(0, name.len() - 7);
        let tail = name.subrange(name.len() - 6, name.len() as int);
        assert(name.subrange(name.len() - 7, name.len() as int)[0] == '/');
        assert(tail =~= "master"@) by {
            assert forall|k: int| 0 <= k < 6 implies tail[k] == "master"@[k] by {
                assert(name.subrange(name.len() - 7, name.len() as int)[k + 1] == "/master"@[k
                    + 1]);
            }
        }
        assert(name =~= head.push('/') + tail);
        lemma_segment_after_slash(head, tail);
    }
}

/// Whatever the remote-tracking branches are, a branch that is inferred is
/// `main` or `master`.
pub proof fn law_inferred_branch_is_main_or_master(entries: Seq<BranchEntry>)
    ensures
        inferred(entries) matches Ok(name) ==> name == "main"@ || name == "master"@,
    decreases entries.len(),
{
    if entries.len() > 0 {
        match entries[0] {
            BranchEntry::Named(name) => {
                if tracks_default(name@) {
                    law_default_branch_is_main_or_master(name@);
                } else {
                    law_inferred_branch_is_main_or_master(entries.drop_first());
                }
            },
            BranchEntry::Unnamed => {
                law_inferred_branch_is_main_or_master(entries.drop_first());
            },
            BranchEntry::Failed(_) => {},
        }
    }
}

} // verus!

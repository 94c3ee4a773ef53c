//! Paths of script files, taken relative to the configuration file.

use vstd::prelude::*;

verus! {

/// Whether `std::path::Path::is_absolute` holds of the path written as
/// `path` on the platform that the library is built for.
pub uninterp spec fn path_is_absolute(path: Seq<char>) -> bool;

/// What `std::path::Path::parent` returns for the path written as `path`:
/// the path without its final component, if there is one.
pub uninterp spec fn path_parent(path: Seq<char>) -> Option<Seq<char>>;

/// The path that `std::path::PathBuf::push` makes of `base` when `other` is
/// pushed onto it.
pub uninterp spec fn path_join(base: Seq<char>, other: Seq<char>) -> Seq<char>;

/// Calls `std::path::Path::is_absolute`, which looks at the text of the
/// path alone.
#[verifier::external_body]
fn is_absolute(path: &str) -> (absolute: bool)
    ensures
        absolute == path_is_absolute(path@),
{
    std::path::Path::new(path).is_absolute()
}

/// Calls `std::path::Path::parent`, which looks at the text of the path
/// alone, and copies the parent's text.
#[verifier::external_body]
fn parent(path: &str) -> (directory: Option<String>)
    ensures
        crate::config::text_of(directory) == path_parent(path@),
{
    std::path::Path::new(path).parent().map(|dir| dir.to_string_lossy().into_owned())
}

/// Calls `std::path::PathBuf::push` on a copy of `base`, and hands out the
/// text of the path that results.
#[verifier::external_body]
fn join(base: &str, other: &str) -> (joined: String)
    ensures
        joined@ == path_join(base@, other@),
{
    let mut path = std::path::PathBuf::from(base);
    path.push(other);
    path.to_string_lossy().into_owned()
}

/// Where a file that the file at `base` refers to as `other` is found: an
/// absolute `other` stands for itself, any other is taken relative to the
/// directory of `base`.
pub open spec fn resolved_path(base: Seq<char>, other: Seq<char>) -> Seq<char> {
    if path_is_absolute(other) {
        other
    } else {
        match path_parent(base) {
            Some(directory) => path_join(directory, other),
            None => path_join(Seq::empty(), other),
        }
    }
}

/// Resolves `other`, as written in the file at `base`, against the
/// directory that holds `base`.
pub fn resolve_other_path(base: &str, other: &str) -> (resolved: String)
    ensures
        resolved@ == resolved_path(base@, other@),
{
    if is_absolute(other) {
        return other.to_owned();
    }
    match parent(base) {
        Some(directory) => join(directory.as_str(), other),
        None => {
            proof {
                reveal_strlit("");
            }
            assert(""@ =~= Seq::<char>::empty());
            join("", other)
        },
    }
}

} // verus!

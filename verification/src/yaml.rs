//! What the loader reads of a YAML document, through `yaml_rust2`.

use vstd::prelude::*;
use yaml_rust2::{ScanError, Yaml, YamlLoader};

verus! {

/// `yaml_rust2::Yaml`: a node of a parsed document.
#[verifier::external_type_specification]
#[verifier::external_body]
pub struct ExYaml(Yaml);

/// `yaml_rust2::ScanError`: why a text is not a YAML document.
#[verifier::external_type_specification]
#[verifier::external_body]
pub struct ExScanError(ScanError);

/// The string entries of `node`: each string key of a mapping whose value
/// is a string, with that value. Any other node has none.
pub uninterp spec fn yaml_strings(node: Yaml) -> Map<Seq<char>, Seq<char>>;

/// The boolean entries of `node`: each string key of a mapping whose value
/// is a boolean, with that value. Any other node has none.
pub uninterp spec fn yaml_flags(node: Yaml) -> Map<Seq<char>, bool>;

/// The line that a `ScanError` writes of itself through `Display`.
pub uninterp spec fn scan_error_text(error: ScanError) -> Seq<char>;

/// The entries of one document that the loader can ask for.
pub struct Entries {
    pub strings: Map<Seq<char>, Seq<char>>,
    pub flags: Map<Seq<char>, bool>,
}

/// The entries of a parsed document.
pub open spec fn entries_of(node: Yaml) -> Entries {
    Entries { strings: yaml_strings(node), flags: yaml_flags(node) }
}

/// What `YamlLoader::load_from_str` makes of a text: the entries of each
/// document in it, or the line that describes why it is not YAML.
pub uninterp spec fn yaml_documents(text: Seq<char>) -> Result<Seq<Entries>, Seq<char>>;

/// Calls `YamlLoader::load_from_str`, which parses every document of the
/// text or fails on the first error. The outcome depends on the text alone.
#[verifier::external_body]
pub(crate) fn load_documents(text: &str) -> (loaded: Result<Vec<Yaml>, ScanError>)
    ensures
        match loaded {
            Ok(nodes) => yaml_documents(text@) == Ok::<Seq<Entries>, Seq<char>>(
                nodes@.map_values(|node: Yaml| entries_of(node)),
            ),
            Err(error) => yaml_documents(text@) == Err::<Seq<Entries>, Seq<char>>(
                scan_error_text(error),
            ),
        },
{
    YamlLoader::load_from_str(text)
}

/// Formats a `ScanError` through its `Display` impl, which writes the
/// error's description and its position in the text.
#[verifier::external_body]
pub(crate) fn scan_error_line(error: &ScanError) -> (line: String)
    ensures
        line@ == scan_error_text(*error),
{
    format!("{}", error)
}

/// Indexes `node` by `key` and calls `Yaml::as_str` on what is found.
/// Indexing by a string gives the value under that string key where `node`
/// is a mapping that has it, and a bad value otherwise; `as_str` gives the
/// text of a string node and `None` for every other node.
#[verifier::external_body]
pub(crate) fn string_entry(node: &Yaml, key: &str) -> (value: Option<String>)
    ensures
        value is Some <==> yaml_strings(*node).contains_key(key@),
        value matches Some(text) ==> text@ == yaml_strings(*node)[key@],
{
    node[key].as_str().map(|text| text.to_string())
}

/// Indexes `node` by `key` and calls `Yaml::as_bool` on what is found.
/// `as_bool` gives the value of a boolean node and `None` for every other
/// node.
#[verifier::external_body]
pub(crate) fn flag_entry(node: &Yaml, key: &str) -> (value: Option<bool>)
    ensures
        value is Some <==> yaml_flags(*node).contains_key(key@),
        value matches Some(flag) ==> flag == yaml_flags(*node)[key@],
{
    node[key].as_bool()
}

} // verus!

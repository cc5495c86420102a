//! Reading YAML text, through the `yaml_rust` crate.
use vstd::prelude::*;
use yaml_rust::{Yaml, YamlLoader};

verus! {

/// A YAML document, as `yaml_rust` builds it. Opaque here: the documents are carried
/// through to the validator, never looked into.
#[verifier::external_type_specification]
#[verifier::external_body]
pub struct ExYaml(Yaml);

/// What `yaml_rust::YamlLoader::load_from_str` makes of a text: the documents it holds,
/// in order, or the text of the `ScanError` that stopped it (its `Display` form,
/// `<problem> at line <line> column <column>`).
pub uninterp spec fn yaml_load(source: Seq<char>) -> Result<Seq<Yaml>, Seq<char>>;

/// Calls `yaml_rust::YamlLoader::load_from_str` and turns its error into the error's text.
/// Trusted: the result is the one that `yaml_load` names for the text given; nothing is
/// stated of what the documents are.
#[verifier::external_body]
pub(crate) fn load_from_str(source: &str) -> (r: Result<Vec<Yaml>, String>)
    ensures
        match r {
            Ok(docs) => yaml_load(source@) == Ok::<Seq<Yaml>, Seq<char>>(docs@),
            Err(message) => yaml_load(source@) == Err::<Seq<Yaml>, Seq<char>>(message@),
        },
{
    match YamlLoader::load_from_str(source) {
        Ok(docs) => Ok(docs),
        Err(e) => Err(e.to_string()),
    }
}

} // verus!

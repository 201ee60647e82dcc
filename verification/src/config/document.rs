//! Reading configuration documents: JSON and YAML text into `ConfigTree`s,
//! and loading them into a store.

use vstd::prelude::*;
use crate::config::store::{insert_all, ConfigStore};
use serde_yaml::Value;
use crate::config::tree::{flatten_pairs, key_name, ConfigTree};

verus! {

/// `serde_json::Value`, carried opaquely.
#[verifier::external_type_specification]
#[verifier::external_body]
pub struct ExJsonValue(serde_json::Value);

/// `serde_yaml::Value`, carried opaquely.
#[verifier::external_type_specification]
#[verifier::external_body]
pub struct ExYamlValue(serde_yaml::Value);

/// What `serde_json::from_str` reads from `text`, converted to a document
/// (objects in the map's key order); on failure the parser's message.
pub uninterp spec fn json_document(text: Seq<char>) -> Result<ConfigTree, Seq<char>>;

/// The message `serde_yaml::from_str` gives when `text` is not a YAML mapping
/// from strings to values, or `None` when it is one.
pub uninterp spec fn yaml_parse_error(text: Seq<char>) -> Option<Seq<char>>;

/// The entries of the YAML mapping in `text`, each key with its value
/// converted to a document.
pub uninterp spec fn yaml_entries(text: Seq<char>) -> Map<Seq<char>, ConfigTree>;

/// Every entry has a string key, and no key occurs twice.
pub open spec fn named_distinct(es: Seq<(Option<String>, ConfigTree)>) -> bool {
    &&& forall|i: int| 0 <= i < es.len() ==> (#[trigger] es[i]).0 is Some
    &&& forall|i: int, j: int|
        0 <= i < j < es.len() ==> key_name(#[trigger] es[i].0) != key_name(#[trigger] es[j].0)
}

/// The entries of a section read as a map from key to value (a later entry
/// under the same name wins).
pub open spec fn entries_map(es: Seq<(Option<String>, ConfigTree)>) -> Map<Seq<char>, ConfigTree>
    decreases es.len(),
{
    if es.len() == 0 {
        Map::empty()
    } else {
        entries_map(es.drop_last()).insert(key_name(es.last().0), es.last().1)
    }
}

/// A document that is a section whose entries, all named and distinct, are
/// exactly `m`.
pub open spec fn section_of(t: ConfigTree, m: Map<Seq<char>, ConfigTree>) -> bool {
    t matches ConfigTree::Section(es) && named_distinct(es@) && entries_map(es@) == m
}

/// A parse outcome with the message taken by its text.
pub open spec fn outcome_view(r: Result<ConfigTree, String>) -> Result<ConfigTree, Seq<char>> {
    match r {
        Ok(t) => Ok(t),
        Err(e) => Err(e@),
    }
}

/// The parse error of an outcome, by its text, or `None` on success.
pub open spec fn outcome_error(r: Result<ConfigTree, String>) -> Option<Seq<char>> {
    match r {
        Ok(_) => None,
        Err(e) => Some(e@),
    }
}

/// Converts a parsed JSON value into a document, one variant to one variant.
#[verifier::external_body]
fn json_tree(v: &serde_json::Value) -> (r: ConfigTree) {
    match v {
        serde_json::Value::Object(map) => {
            ConfigTree::Section(map.iter().map(|(k, c)| (Some(k.clone()), json_tree(c))).collect())
        },
        serde_json::Value::Array(items) => ConfigTree::List(items.iter().map(json_tree).collect()),
        serde_json::Value::String(s) => ConfigTree::Value(s.clone()),
        serde_json::Value::Bool(b) => ConfigTree::Bool(*b),
        serde_json::Value::Number(n) => ConfigTree::Number(n.to_string()),
        serde_json::Value::Null => ConfigTree::Null,
    }
}

/// Converts a parsed YAML value into a document, one variant to one variant;
/// a key is taken by `Value::as_str`, a number by `Number::as_i64` and the
/// text of `Number::as_f64`.
#[verifier::external_body]
fn yaml_tree(v: &Value) -> (r: ConfigTree) {
    match v {
        Value::Mapping(m) => ConfigTree::Section(
            m.iter().map(|(k, c)| (k.as_str().map(|s| s.to_string()), yaml_tree(c))).collect(),
        ),
        Value::Sequence(items) => ConfigTree::List(items.iter().map(yaml_tree).collect()),
        Value::String(s) => ConfigTree::Value(s.clone()),
        Value::Bool(b) => ConfigTree::Bool(*b),
        Value::Number(n) => ConfigTree::YamlNumber(n.as_i64(), n.as_f64().map(|x| x.to_string())),
        Value::Tagged(t) => ConfigTree::Tagged(Box::new(yaml_tree(&t.value))),
        Value::Null => ConfigTree::Null,
    }
}

/// `serde_json::from_str` into a value, converted to a document: the result
/// is named by `json_document`.
#[verifier::external_body]
pub fn parse_json_document(text: &str) -> (r: Result<ConfigTree, String>)
    ensures
        outcome_view(r) == json_document(text@),
{
    match serde_json::from_str::<serde_json::Value>(text) {
        Ok(v) => Ok(json_tree(&v)),
        Err(e) => Err(e.to_string()),
    }
}

/// `serde_yaml::from_str` into a map from strings to values, converted to a
/// section: whether it fails, and with which message, is named by
/// `yaml_parse_error`, and the entries by `yaml_entries`. The order of the
/// section's entries is that of a `HashMap` walk, which varies between
/// processes, so only the entries as a map are named.
#[verifier::external_body]
pub fn parse_yaml_document(text: &str) -> (r: Result<ConfigTree, String>)
    ensures
        outcome_error(r) == yaml_parse_error(text@),
        r matches Ok(t) ==> section_of(t, yaml_entries(text@)),
{
    match serde_yaml::from_str::<std::collections::HashMap<String, serde_yaml::Value>>(text) {
        Ok(values) => Ok(
            ConfigTree::Section(values.iter().map(|(k, v)| (Some(k.clone()), yaml_tree(v))).collect()),
        ),
        Err(e) => Err(e.to_string()),
    }
}

impl ConfigStore {
    /// Loads a JSON document: its flattened pairs are written in order, or,
    /// when the text does not parse, nothing changes and the error is
    /// "Failed to parse JSON: " and the parser's message.
    pub fn load_json_text(&mut self, text: &str) -> (r: Result<(), String>)
        ensures
            r is Ok <==> json_document(text@) is Ok,
            json_document(text@) matches Ok(t) ==> final(self)@ == insert_all(
                old(self)@,
                flatten_pairs(Seq::empty(), t),
            ),
            json_document(text@) matches Err(m) ==> (r matches Err(e) && e@ == "Failed to parse JSON: "@
                + m && final(self)@ == old(self)@),
    {
        match parse_json_document(text) {
            Ok(t) => {
                self.load_tree(&t);
                Ok(())
            },
            Err(m) => {
                let mut e = String::from_str("Failed to parse JSON: ");
                e.append(m.as_str());
                Err(e)
            },
        }
    }

    /// Loads a YAML document: on success the returned document is a section
    /// holding exactly the entries of the text, and its flattened pairs are
    /// written in order; when the text does not parse, nothing
    /// changes and the error is "Failed to parse YAML: " and the parser's
    /// message.
    pub fn load_yaml_text(&mut self, text: &str) -> (r: Result<ConfigTree, String>)
        ensures
            r is Ok <==> yaml_parse_error(text@) is None,
            r matches Ok(t) ==> section_of(t, yaml_entries(text@)) && final(self)@ == insert_all(
                old(self)@,
                flatten_pairs(Seq::empty(), t),
            ),
            yaml_parse_error(text@) matches Some(m) ==> (r matches Err(e) && e@
                == "Failed to parse YAML: "@ + m && final(self)@ == old(self)@),
    {
        match parse_yaml_document(text) {
            Ok(t) => {
                self.load_tree(&t);
                Ok(t)
            },
            Err(m) => {
                let mut e = String::from_str("Failed to parse YAML: ");
                e.append(m.as_str());
                Err(e)
            },
        }
    }
}

} // verus!

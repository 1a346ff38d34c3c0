//! The two-stage loader: a structural parse for later navigation, a typed
//! parse with path tracking, and the enhancement of the error message when
//! the typed parse fails.

use vstd::prelude::*;
use crate::document::Node;
use crate::enhance::{enhance_error_message, final_message};

verus! {

/// Why a load failed.
#[derive(Debug)]
pub enum ConfigError {
    /// The structural parse succeeded but typed deserialization failed; the
    /// message may carry a suggestion block appended to the original text.
    Deserialization(String),
    /// The input could not be parsed as TOML at all.
    TomlParse(String),
}

impl ConfigError {
    /// The display-ready message carried by this error.
    pub open spec fn message_spec(self) -> Seq<char> {
        match self {
            ConfigError::Deserialization(m) => m@,
            ConfigError::TomlParse(m) => m@,
        }
    }

    /// The display-ready message carried by this error.
    pub fn message(&self) -> (r: &str)
        ensures
            r@ == self.message_spec(),
    {
        match self {
            ConfigError::Deserialization(m) => m.as_str(),
            ConfigError::TomlParse(m) => m.as_str(),
        }
    }
}

/// Whether the text is well-formed TOML, as the structural parser decides
/// it; the outcome depends on the text alone.
pub uninterp spec fn toml_parses(text: Seq<char>) -> bool;

/// How a syntax-error message begins.
pub open spec fn syntax_message(m: Seq<char>) -> bool {
    "Invalid TOML syntax: "@.is_prefix_of(m)
}

#[verifier::external_type_specification]
#[verifier::external_body]
pub struct ExTomlTable(toml_edit::Table);

#[verifier::external_type_specification]
#[verifier::external_body]
pub struct ExTomlItem(toml_edit::Item);

#[verifier::external_type_specification]
#[verifier::external_body]
pub struct ExTomlValue(toml_edit::Value);

/// Relies on toml_edit::Table::iter: it yields the table's entries in
/// declaration order, and a commented-out entry is no entry at all.
#[verifier::external_body]
fn table_node(t: &toml_edit::Table) -> Node {
    Node::Table(t.iter().map(|(k, item)| (k.to_string(), item_node(item))).collect())
}

/// Relies on toml_edit::Item: a section-header table is table-shaped, a
/// value may be an inline table, and anything else is a leaf.
#[verifier::external_body]
fn item_node(item: &toml_edit::Item) -> Node {
    match item {
        toml_edit::Item::Table(t) => table_node(t),
        toml_edit::Item::Value(v) => value_node(v),
        _ => Node::Leaf,
    }
}

/// Relies on toml_edit::InlineTable::iter: it yields the entries in
/// declaration order; an inline table is table-shaped like a section table.
#[verifier::external_body]
fn value_node(v: &toml_edit::Value) -> Node {
    match v {
        toml_edit::Value::InlineTable(t) => Node::Table(
            t.iter().map(|(k, inner)| (k.to_string(), value_node(inner))).collect(),
        ),
        _ => Node::Leaf,
    }
}

/// Relies on toml_edit: `str::parse::<DocumentMut>` parses the text into an
/// order-preserving structural document or reports a syntax error, and the
/// outcome depends on the text alone.
#[verifier::external_body]
fn parse_structure(text: &str) -> (r: Result<Node, String>)
    ensures
        r is Ok <==> toml_parses(text@),
        r matches Err(m) ==> syntax_message(m@),
{
    match text.parse::<toml_edit::DocumentMut>() {
        Ok(doc) => Ok(table_node(doc.as_table())),
        Err(e) => Err(format!("Invalid TOML syntax: {}", e)),
    }
}

/// Relies on toml's `Deserializer::parse` and serde_path_to_error's
/// `deserialize`: on failure they hand back the dotted field path at which
/// deserialization stopped and the error's display text. Nothing is assumed
/// of either outcome, since it depends on `T`'s deserialization behaviour.
#[verifier::external_body]
fn deserialize_with_path<T: serde::de::DeserializeOwned>(text: &str) -> (r: Result<
    T,
    (String, String),
>) {
    let de = match toml::Deserializer::parse(text) {
        Ok(de) => de,
        Err(e) => return Err((String::new(), e.to_string())),
    };
    match serde_path_to_error::deserialize::<_, T>(de) {
        Ok(value) => Ok(value),
        Err(e) => Err((e.path().to_string(), e.to_string())),
    }
}

/// Loads configuration text into any deserializable type.
///
/// The result is `Err(TomlParse(_))` exactly when the text is not
/// well-formed TOML, whatever the target type; a well-formed text that does
/// not match the target type gives `Err(Deserialization(m))`, where `m` is
/// the deserializer's message, extended with a variant-key suggestion block
/// whenever the document offers such context and left unchanged otherwise.
pub fn load_from_toml<T: serde::de::DeserializeOwned>(toml_str: &str) -> (r: Result<
    T,
    ConfigError,
>)
    ensures
        (r matches Err(e) && e is TomlParse) <==> !toml_parses(toml_str@),
        r matches Err(e) ==> (e is TomlParse ==> syntax_message(e.message_spec())),
        r matches Err(e) ==> (e is Deserialization ==> exists|
            doc: Node,
            path: Seq<char>,
            orig: Seq<char>,
        |
            e.message_spec() == #[trigger] final_message(doc, path, orig)),
{
    let doc = match parse_structure(toml_str) {
        Ok(doc) => doc,
        Err(m) => {
            return Err(ConfigError::TomlParse(m));
        },
    };
    match deserialize_with_path::<T>(toml_str) {
        Ok(value) => Ok(value),
        Err((path, original_msg)) => {
            let ghost orig_view = original_msg@;
            let enhanced = enhance_error_message(&doc, path.as_str(), original_msg.as_str());
            let msg = match enhanced {
                Some(m) => m,
                None => original_msg,
            };
            proof {
                assert(msg@ == final_message(doc, path@, orig_view));
            }
            Err(ConfigError::Deserialization(msg))
        },
    }
}

} // verus!

//! A plain JSON tree and the trusted parse that produces it. Numbers are
//! carried as their raw decimal text, so the tree holds nothing but plain
//! values; the decoder interprets the pieces the record model needs.

use vstd::prelude::*;

verus! {

/// One JSON value. An object's members carry distinct keys, in the order the
/// parse hands them out; a number keeps its decimal text.
pub enum JsonValue {
    Null,
    Bool(bool),
    Num(String),
    Str(String),
    Arr(Vec<JsonValue>),
    Obj(Vec<(String, JsonValue)>),
}

#[verifier::external_type_specification]
#[verifier::external_body]
pub struct ExValue(serde_json::Value);

/// The JSON document denoted by `text`: `Some` exactly when `text` is valid
/// JSON, in which case it is the corresponding tree. The parse depends on the
/// text alone.
pub uninterp spec fn json_doc_of(text: Seq<char>) -> Option<JsonValue>;

/// Relies on serde_json::Value: one arm per variant, moving each payload into
/// the library's own tree; a number's text comes from serde_json::Number's
/// display form, and an object's members come out of serde_json::Map with
/// duplicate keys already collapsed.
#[verifier::external_body]
fn tree_of_value(v: serde_json::Value) -> JsonValue {
    match v {
        serde_json::Value::Null => JsonValue::Null,
        serde_json::Value::Bool(b) => JsonValue::Bool(b),
        serde_json::Value::Number(n) => JsonValue::Num(n.to_string()),
        serde_json::Value::String(s) => JsonValue::Str(s),
        serde_json::Value::Array(a) => JsonValue::Arr(
            a.into_iter().map(tree_of_value).collect(),
        ),
        serde_json::Value::Object(m) => JsonValue::Obj(
            m.into_iter().map(|(k, w)| (k, tree_of_value(w))).collect(),
        ),
    }
}

/// Relies on serde_json::from_str: it returns `Ok` exactly on valid JSON
/// text, and the value it returns is a function of the text alone. The error
/// message is serde_json's own.
#[verifier::external_body]
pub fn parse_json_text(text: &str) -> (r: Result<JsonValue, String>)
    ensures
        r matches Ok(v) ==> json_doc_of(text@) == Some(v),
        r is Err ==> json_doc_of(text@) is None,
{
    match serde_json::from_str::<serde_json::Value>(text) {
        Ok(v) => Ok(tree_of_value(v)),
        Err(e) => Err(e.to_string()),
    }
}

} // verus!

use vstd::prelude::*;
use crate::json::{Json, JsonModel};

verus! {

/// Trusted: the type `serde_json::Value`, carried through as an opaque value.
#[verifier::external_type_specification]
#[verifier::external_body]
pub struct ExJsonValue(serde_json::Value);

/// What `serde_json::from_slice` makes of a request body: the document it
/// reads, or the text of its error where the bytes are no JSON document.
pub uninterp spec fn decoded(bytes: Seq<u8>) -> Result<JsonModel, Seq<char>>;

/// What `serde_json::to_string` writes for a document: its compact text, or
/// nothing where the document holds a number whose text serde_json does not
/// read as a number.
pub uninterp spec fn compact_text(doc: JsonModel) -> Option<Seq<char>>;

/// What `serde_json::to_string_pretty` writes for a document: its indented
/// text, or nothing where the document holds a number whose text serde_json
/// does not read as a number.
pub uninterp spec fn pretty_text(doc: JsonModel) -> Option<Seq<char>>;

/// Trusted: turns a `serde_json::Value` into a `Json`, variant by variant.
/// A number is kept by the text that `serde_json::Number::to_string` gives,
/// an object by its members in the order in which the map hands them out.
#[verifier::external_body]
fn json_from_value(v: &serde_json::Value) -> Json {
    match v {
        serde_json::Value::Null => Json::Null,
        serde_json::Value::Bool(b) => Json::Bool(*b),
        serde_json::Value::Number(n) => Json::Number(n.to_string()),
        serde_json::Value::String(s) => Json::Text(s.clone()),
        serde_json::Value::Array(a) => Json::Array(a.iter().map(json_from_value).collect()),
        serde_json::Value::Object(m) => Json::Object(
            m.iter().map(|(k, v)| (k.clone(), json_from_value(v))).collect(),
        ),
    }
}

/// Trusted: turns a `Json` into a `serde_json::Value`, variant by variant.
/// A number is read back with `serde_json::from_str`; where its text is no
/// JSON number there is no value.
#[verifier::external_body]
fn value_from_json(j: &Json) -> Option<serde_json::Value> {
    Some(match j {
        Json::Null => serde_json::Value::Null,
        Json::Bool(b) => serde_json::Value::Bool(*b),
        Json::Number(t) => serde_json::Value::Number(serde_json::from_str(t).ok()?),
        Json::Text(s) => serde_json::Value::String(s.clone()),
        Json::Array(a) => serde_json::Value::Array(
            a.iter().map(value_from_json).collect::<Option<_>>()?,
        ),
        Json::Object(m) => serde_json::Value::Object(
            m.iter().map(|(k, v)| Some((k.clone(), value_from_json(v)?))).collect::<Option<_>>()?,
        ),
    })
}

/// Trusted: `serde_json::from_slice`, reading a `serde_json::Value`. The
/// result is the document named by `decoded` for these bytes, or the text of
/// the error.
#[verifier::external_body]
pub(crate) fn parse_json(bytes: &[u8]) -> (out: Result<Json, String>)
    ensures
        match out {
            Ok(doc) => decoded(bytes@) == Ok::<JsonModel, Seq<char>>(doc@),
            Err(why) => decoded(bytes@) == Err::<JsonModel, Seq<char>>(why@),
        },
{
    match serde_json::from_slice::<serde_json::Value>(bytes) {
        Ok(v) => Ok(json_from_value(&v)),
        Err(e) => Err(e.to_string()),
    }
}

/// Trusted: `serde_json::to_string`. The result is the text named by
/// `compact_text` for this document. There is a text wherever every number
/// of the document is a whole number in plain digits that fits `i64` or
/// `u64`: serde_json reads each of them, and writing a value does not fail.
#[verifier::external_body]
pub(crate) fn to_text(doc: &Json) -> (out: Option<String>)
    ensures
        match out {
            Some(t) => compact_text(doc@) == Some(t@),
            None => compact_text(doc@) is None,
        },
        doc@.plain_numbers() ==> out is Some,
{
    let v = value_from_json(doc)?;
    serde_json::to_string(&v).ok()
}

/// Trusted: `serde_json::to_string_pretty`. The result is the text named by
/// `pretty_text` for this document. There is a text wherever every number
/// of the document is a whole number in plain digits that fits `i64` or
/// `u64`.
#[verifier::external_body]
pub(crate) fn to_pretty_text(doc: &Json) -> (out: Option<String>)
    ensures
        match out {
            Some(t) => pretty_text(doc@) == Some(t@),
            None => pretty_text(doc@) is None,
        },
        doc@.plain_numbers() ==> out is Some,
{
    let v = value_from_json(doc)?;
    serde_json::to_string_pretty(&v).ok()
}

} // verus!

//! JSON text: the calls into the JSON codec, and the framing of objects and
//! arrays from already encoded members.

use vstd::prelude::*;
use serde_json::Error as JsonError;
use serde_json::Value as JsonValue;

verus! {

/// `serde_json::Value`, a parsed JSON document. Opaque: it is carried
/// through, never looked into.
#[verifier::external_type_specification]
#[verifier::external_body]
pub struct ExJsonValue(serde_json::Value);

/// `serde_json::Error`, the codec's error. Opaque.
#[verifier::external_type_specification]
#[verifier::external_body]
pub struct ExJsonError(JsonError);

/// `serde_json::Map`, the members of a JSON object. Opaque.
#[verifier::external_type_specification]
#[verifier::external_body]
#[verifier::reject_recursive_types(K)]
#[verifier::reject_recursive_types(V)]
pub struct ExJsonMap<K, V>(serde_json::Map<K, V>);

/// The members of a JSON object as the codec holds them.
pub type JsonObject = serde_json::Map<String, JsonValue>;

/// The JSON string literal that the codec writes for `text`, quotes and
/// escapes included.
pub uninterp spec fn json_quoted(text: Seq<char>) -> Seq<char>;

/// What the codec makes of `text` when it reads it as JSON: the document,
/// or the error with which it rejects the text as malformed.
pub uninterp spec fn json_reading(text: Seq<char>) -> Result<JsonValue, JsonError>;

/// The members of `value` where it is a JSON object, `None` for every other
/// kind of document.
pub uninterp spec fn json_members(value: JsonValue) -> Option<JsonObject>;

/// The text with which the codec describes the error `e`.
pub uninterp spec fn json_error_text(e: JsonError) -> Seq<char>;

/// What a fallible encoding produced, as text.
pub open spec fn encoded(r: Result<String, JsonError>) -> Option<Seq<char>> {
    match r {
        Ok(text) => Some(text@),
        Err(_) => None,
    }
}

/// The document that `text` holds, or `None` where the codec rejects the
/// text.
pub open spec fn json_document(text: Seq<char>) -> Option<JsonValue> {
    match json_reading(text) {
        Ok(document) => Some(document),
        Err(_) => None,
    }
}

/// The document that `text` holds, or the codec's reason for rejecting the
/// text, in words.
pub open spec fn json_parse(text: Seq<char>) -> Result<JsonValue, Seq<char>> {
    match json_reading(text) {
        Ok(document) => Ok(document),
        Err(e) => Err(json_error_text(e)),
    }
}

/// What a reading gave: the document, or the reason as text.
pub open spec fn reading_of(parsed: Result<JsonValue, String>) -> Result<JsonValue, Seq<char>> {
    match parsed {
        Ok(document) => Ok(document),
        Err(reason) => Err(reason@),
    }
}

/// The view of an optional string.
pub open spec fn text_of(s: Option<String>) -> Option<Seq<char>> {
    match s {
        Some(text) => Some(text@),
        None => None,
    }
}

/// `serde_json::to_string` applied to a string slice. Trusted: writing a
/// string into a buffer in memory never fails, and the result is the
/// codec's string literal for the text, a fixed function of the text alone.
#[verifier::external_body]
fn encode_str(text: &str) -> (r: Result<String, JsonError>)
    ensures
        r is Ok,
        encoded(r) == Some(json_quoted(text@)),
{
    serde_json::to_string(text)
}

/// `serde_json::from_str` at type `serde_json::Value`. Trusted: whether the
/// text is accepted, the document read and the error raised are fixed
/// functions of the text alone.
#[verifier::external_body]
fn decode_value(text: &str) -> (r: Result<JsonValue, JsonError>)
    ensures
        r == json_reading(text@),
{
    serde_json::from_str::<JsonValue>(text)
}

/// `serde_json::Value::as_object`, with the members cloned out. Trusted: the
/// result is `Some` exactly for an object, and then holds its members.
#[verifier::external_body]
fn value_members(value: &JsonValue) -> (r: Option<JsonObject>)
    ensures
        r == json_members(*value),
{
    value.as_object().cloned()
}

/// The `Display` text of `serde_json::Error`. Trusted: the text is a fixed
/// function of the error.
#[verifier::external_body]
fn describe_error(e: &JsonError) -> (r: String)
    ensures
        r@ == json_error_text(*e),
{
    e.to_string()
}

/// Encodes `text` as a JSON string literal.
pub fn quote(text: &str) -> (r: String)
    ensures
        r@ == json_quoted(text@),
{
    match encode_str(text) {
        Ok(literal) => literal,
        Err(_) => String::new(),
    }
}

/// What `quote_nullable` writes: the literal of the text, or `null`.
pub open spec fn json_nullable(text: Option<Seq<char>>) -> Seq<char> {
    match text {
        Some(t) => json_quoted(t),
        None => "null"@,
    }
}

/// The view of an optional string slice.
pub open spec fn slice_of(s: Option<&str>) -> Option<Seq<char>> {
    match s {
        Some(text) => Some(text@),
        None => None,
    }
}

/// Encodes an optional text: its string literal, or `null` where absent.
pub fn quote_nullable(text: Option<&str>) -> (r: String)
    ensures
        r@ == json_nullable(slice_of(text)),
{
    match text {
        Some(t) => quote(t),
        None => String::from_str("null"),
    }
}

/// The items separated by commas.
pub open spec fn comma_joined(items: Seq<Seq<char>>) -> Seq<char>
    decreases items.len(),
{
    if items.len() == 0 {
        Seq::empty()
    } else if items.len() == 1 {
        items[0]
    } else {
        comma_joined(items.drop_last()) + ","@ + items.last()
    }
}

/// The JSON array whose elements are the given, already encoded, texts.
pub open spec fn json_array(items: Seq<Seq<char>>) -> Seq<char> {
    "["@ + comma_joined(items) + "]"@
}

/// Frames already encoded elements as a JSON array.
pub fn frame_array(items: &Vec<String>) -> (r: String)
    ensures
        r@ == json_array(items.deep_view()),
{
    let mut text = String::from_str("[");
    let mut i: usize = 0;
    while i < items.len()
        invariant
            i <= items.len(),
            text@ == "["@ + comma_joined(items.deep_view().take(i as int)),
        decreases items.len() - i,
    {
        proof {
            let done = items.deep_view().take(i as int);
            let next = items.deep_view().take(i + 1);
            assert(next.drop_last() =~= done);
        }
        if i > 0 {
            text.append(",");
        }
        text.append(items[i].as_str());
        i = i + 1;
    }
    proof {
        assert(items.deep_view().take(i as int) =~= items.deep_view());
    }
    text.append("]");
    text
}

/// Reads `text` as JSON: the document, or the codec's reason for rejecting
/// the text.
pub fn parse(text: &str) -> (r: Result<JsonValue, String>)
    ensures
        reading_of(r) == json_parse(text@),
{
    match decode_value(text) {
        Ok(value) => Ok(value),
        Err(e) => Err(describe_error(&e)),
    }
}

/// The members of a document that is an object.
pub fn members(value: &JsonValue) -> (r: Option<JsonObject>)
    ensures
        r == json_members(*value),
{
    value_members(value)
}

} // verus!

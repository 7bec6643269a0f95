//! JSON documents, read and kept with `serde_json`.

use vstd::prelude::*;

verus! {

/// A JSON value of `serde_json`.
#[verifier::external_type_specification]
#[verifier::external_body]
pub struct ExJsonValue(serde_json::Value);

/// The members of a JSON object, as `serde_json` keeps them.
#[verifier::external_type_specification]
#[verifier::external_body]
#[verifier::reject_recursive_types(K)]
#[verifier::reject_recursive_types(V)]
pub struct ExJsonMap<K, V>(serde_json::Map<K, V>);

/// The members of a JSON object.
pub type Document = serde_json::Map<String, serde_json::Value>;

/// What a document holds: each key with the JSON text of its value, as
/// `Value`'s `Display` writes it.
pub uninterp spec fn json_members(document: serde_json::Map<String, serde_json::Value>) -> Map<
    Seq<char>,
    Seq<char>,
>;

/// What `serde_json` makes of the bytes of a document: for bytes that are no
/// JSON, the message of its error; for a document that is no object, nothing;
/// for an object, what it holds.
pub uninterp spec fn json_reading(bytes: Seq<u8>) -> Result<
    Option<Map<Seq<char>, Seq<char>>>,
    Seq<char>,
>;

/// The digit that stands for a number below sixteen, in lower case.
pub open spec fn hex_digit(n: int) -> char {
    if n < 10 {
        (n + 48) as char
    } else {
        (n + 87) as char
    }
}

/// A character as it stands inside a JSON string: `"` and `\` behind a `\`, the
/// five control characters that have a letter as that letter behind a `\`, any
/// other character below the space as `\u00` and its two hex digits, and every
/// other character as itself.
pub open spec fn json_escape(c: char) -> Seq<char> {
    if c == '"' {
        seq!['\\', '"']
    } else if c == '\\' {
        seq!['\\', '\\']
    } else if c == '\u{8}' {
        seq!['\\', 'b']
    } else if c == '\t' {
        seq!['\\', 't']
    } else if c == '\n' {
        seq!['\\', 'n']
    } else if c == '\u{c}' {
        seq!['\\', 'f']
    } else if c == '\r' {
        seq!['\\', 'r']
    } else if (c as u32) < 0x20 {
        seq!['\\', 'u', '0', '0', hex_digit((c as u32) as int / 16), hex_digit((c as u32) as int % 16)]
    } else {
        seq![c]
    }
}

/// A text as it stands inside a JSON string.
pub open spec fn json_escaped(text: Seq<char>) -> Seq<char>
    decreases text.len(),
{
    if text.len() == 0 {
        Seq::empty()
    } else {
        json_escaped(text.drop_last()) + json_escape(text.last())
    }
}

/// The JSON text of a string value: the text as it stands inside a JSON string,
/// between two `"`.
pub open spec fn json_string_text(text: Seq<char>) -> Seq<char> {
    seq!['"'] + json_escaped(text) + seq!['"']
}

/// What a document without members holds.
pub open spec fn no_members() -> Map<Seq<char>, Seq<char>> {
    Map::empty()
}

/// What a reading gave, as the contracts speak of it.
pub open spec fn reading_of(r: Result<Option<Document>, String>) -> Result<
    Option<Map<Seq<char>, Seq<char>>>,
    Seq<char>,
> {
    match r {
        Ok(Some(document)) => Ok(Some(json_members(document))),
        Ok(None) => Ok(None),
        Err(message) => Err(message@),
    }
}

/// Calls `serde_json::from_slice` for a `Value`. An error is handed on as its
/// message, from its `Display`; an object as its members; any other value as
/// nothing. What comes out depends on the bytes alone.
#[verifier::external_body]
pub(crate) fn parse_document(bytes: &[u8]) -> (r: Result<Option<Document>, String>)
    ensures
        reading_of(r) == json_reading(bytes@),
{
    let value: serde_json::Value = serde_json::from_slice(bytes).map_err(|e| e.to_string())?;
    Ok(
        match value {
            serde_json::Value::Object(members) => Some(members),
            _ => None,
        },
    )
}

/// `Map::new` of `serde_json`: a document without members.
#[verifier::external_body]
pub(crate) fn new_document() -> (r: Document)
    ensures
        json_members(r) == no_members(),
{
    serde_json::Map::new()
}

/// `Map::get` of `serde_json`, and `Value`'s `Display` for the value found: the
/// JSON text of the value of a key, if the document has the key.
#[verifier::external_body]
pub(crate) fn member_text(document: &Document, key: &str) -> (r: Option<String>)
    ensures
        r is Some <==> json_members(*document).contains_key(key@),
        r matches Some(text) ==> text@ == json_members(*document)[key@],
{
    document.get(key).map(|value| value.to_string())
}

/// `Map::remove` of `serde_json`: the document without the key.
#[verifier::external_body]
pub(crate) fn remove_member(document: &mut Document, key: &str)
    ensures
        json_members(*final(document)) == json_members(*old(document)).remove(key@),
{
    document.remove(key);
}

/// `Map::insert` of `serde_json` with a `Value::String`: the key holds the
/// string, in place of any value that it held. The JSON text of a string value
/// is the one that `json_string_text` states.
#[verifier::external_body]
pub(crate) fn insert_string(document: &mut Document, key: &str, text: &str)
    ensures
        json_members(*final(document)) == json_members(*old(document)).insert(
            key@,
            json_string_text(text@),
        ),
{
    document.insert(key.to_string(), serde_json::Value::String(text.to_string()));
}

} // verus!

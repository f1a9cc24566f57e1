//! JSON documents, built and written out by `serde_json`.
//!
//! The library decides which keys and texts a document holds; `serde_json`
//! decides how they are written.  What it writes is not restated here: the
//! functions below name it, and the contracts of the library speak of those
//! names.

use vstd::prelude::*;

verus! {

#[verifier::external_type_specification]
#[verifier::external_body]
pub struct ExJsonValue(serde_json::Value);

/// The compact JSON text of a value.
pub uninterp spec fn json_text(value: serde_json::Value) -> Seq<u8>;

/// The compact JSON text of a string: the text in quotes, escaped.
pub uninterp spec fn json_string_text(text: Seq<char>) -> Seq<u8>;

/// The compact JSON text of an object, given the key and the JSON text of
/// the value of each entry in the order of insertion.
pub uninterp spec fn json_object_text(entries: Seq<(Seq<char>, Seq<u8>)>) -> Seq<u8>;

/// What comes of writing out a value whose compact JSON text is `text`: the
/// bytes written, or the text of the error.
pub uninterp spec fn json_written(text: Seq<u8>) -> Result<Seq<u8>, Seq<char>>;

/// Key and JSON text of each entry.
pub open spec fn entry_texts(entries: Seq<(String, serde_json::Value)>) -> Seq<
    (Seq<char>, Seq<u8>),
> {
    entries.map_values(|e: (String, serde_json::Value)| (e.0@, json_text(e.1)))
}

/// Bytes or error text, as sequences.
pub open spec fn written_view(written: Result<Vec<u8>, String>) -> Result<Seq<u8>, Seq<char>> {
    match written {
        Ok(bytes) => Ok(bytes@),
        Err(text) => Err(text@),
    }
}

/// `serde_json::Value::from` on a string slice: the JSON string with that
/// text.
#[verifier::external_body]
pub(crate) fn json_string(text: &str) -> (value: serde_json::Value)
    ensures
        json_text(value) == json_string_text(text@),
{
    serde_json::Value::from(text)
}

/// `serde_json::Value::from_iter` on key-value pairs: the JSON object that
/// holds the pairs, inserted in their order.
#[verifier::external_body]
pub(crate) fn json_object(entries: Vec<(String, serde_json::Value)>) -> (value: serde_json::Value)
    ensures
        json_text(value) == json_object_text(entry_texts(entries@)),
{
    serde_json::Value::from_iter(entries)
}

/// `serde_json::to_vec`, with its error taken as text.  What it returns
/// depends on the value alone.  Where it succeeds, the bytes are the
/// compact JSON text of the value.  Nothing is claimed of when it fails.
#[verifier::external_body]
pub(crate) fn json_to_vec(value: &serde_json::Value) -> (written: Result<Vec<u8>, String>)
    ensures
        written_view(written) == json_written(json_text(*value)),
        written matches Ok(bytes) ==> bytes@ == json_text(*value),
{
    match serde_json::to_vec(value) {
        Ok(bytes) => Ok(bytes),
        Err(error) => Err(error.to_string()),
    }
}

/// The JSON text of an object with one field, a string.
pub open spec fn field_object_text(key: Seq<char>, text: Seq<char>) -> Seq<u8> {
    json_object_text(seq![(key, json_string_text(text))])
}

/// The JSON object with one field, a string.
pub fn field_object(key: &str, text: &str) -> (value: serde_json::Value)
    ensures
        json_text(value) == field_object_text(key@, text@),
{
    let mut entries: Vec<(String, serde_json::Value)> = Vec::new();
    entries.push((String::from_str(key), json_string(text)));
    assert(entry_texts(entries@) =~= seq![(key@, json_string_text(text@))]);
    json_object(entries)
}

/// The JSON text of an object with two fields, strings both.
pub open spec fn text_pair_text(first: (Seq<char>, Seq<char>), second: (Seq<char>, Seq<char>)) -> Seq<
    u8,
> {
    json_object_text(
        seq![(first.0, json_string_text(first.1)), (second.0, json_string_text(second.1))],
    )
}

/// The JSON object with two fields, strings both.
pub fn text_pair(first_key: &str, first: &str, second_key: &str, second: &str) -> (value:
    serde_json::Value)
    ensures
        json_text(value) == text_pair_text((first_key@, first@), (second_key@, second@)),
{
    let mut entries: Vec<(String, serde_json::Value)> = Vec::new();
    entries.push((String::from_str(first_key), json_string(first)));
    entries.push((String::from_str(second_key), json_string(second)));
    assert(entry_texts(entries@) =~= seq![
        (first_key@, json_string_text(first@)),
        (second_key@, json_string_text(second@)),
    ]);
    json_object(entries)
}

/// The JSON text of an object with two fields, objects both, given the key
/// and the JSON text of each.
pub open spec fn section_pair_text(
    first: (Seq<char>, Seq<u8>),
    second: (Seq<char>, Seq<u8>),
) -> Seq<u8> {
    json_object_text(seq![first, second])
}

/// The JSON object with two fields.
pub fn section_pair(
    first_key: &str,
    first: serde_json::Value,
    second_key: &str,
    second: serde_json::Value,
) -> (value: serde_json::Value)
    ensures
        json_text(value) == section_pair_text(
            (first_key@, json_text(first)),
            (second_key@, json_text(second)),
        ),
{
    let mut entries: Vec<(String, serde_json::Value)> = Vec::new();
    entries.push((String::from_str(first_key), first));
    entries.push((String::from_str(second_key), second));
    assert(entry_texts(entries@) =~= seq![
        (first_key@, json_text(first)),
        (second_key@, json_text(second)),
    ]);
    json_object(entries)
}

} // verus!

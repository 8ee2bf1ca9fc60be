//! JSON values, as far as this crate looks into them.
//!
//! Parsing and printing are `serde_json`'s. A value is opaque here; the
//! specifications speak of it through the compact text that `serde_json`
//! prints for it, and of the members of an object through theirs.

use vstd::prelude::*;
use crate::text::joined;

verus! {

/// A JSON value of `serde_json`. Its inside is not visible to the proofs.
#[verifier::external_type_specification]
#[verifier::external_body]
pub struct ExJsonValue(serde_json::Value);

/// An error of `serde_json`. Its inside is not visible to the proofs.
#[verifier::external_type_specification]
#[verifier::external_body]
pub struct ExJsonError(serde_json::Error);

/// What a value holds: the compact text that `serde_json::to_string` prints
/// for it.
pub uninterp spec fn json_text(value: serde_json::Value) -> Seq<char>;

/// What `serde_json::from_str` makes of a text: the compact text of the
/// value it reads, or `None` where it reports an error.
pub uninterp spec fn json_parsed(text: Seq<char>) -> Option<Seq<char>>;

/// What `serde_json::Value::get` finds under a text key in the value with
/// the compact text `object`: the compact text of the member, or `None`
/// where the value is no object or has no such member.
pub uninterp spec fn json_member(object: Seq<char>, key: Seq<char>) -> Option<Seq<char>>;

/// What `serde_json::to_string_pretty` prints for the value with the compact
/// text `compact`.
pub uninterp spec fn json_pretty(compact: Seq<char>) -> Seq<char>;

/// What `serde_json::from_str` makes of a text that is read as a list of
/// values: the compact text of each element, or `None` where it reports an
/// error, as it does for every text that is no JSON array.
pub uninterp spec fn json_elements(text: Seq<char>) -> Option<Seq<Seq<char>>>;

/// The compact text of each value.
pub open spec fn texts_of(values: Seq<serde_json::Value>) -> Seq<Seq<char>> {
    values.map_values(|value: serde_json::Value| json_text(value))
}

/// The compact text of the array with these elements: the elements between
/// brackets, with a comma and nothing else between two of them.
pub open spec fn array_text(elements: Seq<Seq<char>>) -> Seq<char> {
    "["@ + joined(elements, ","@) + "]"@
}

/// Whether `serde_json` prints the text as it is when it prints it as a JSON
/// string: it holds no quote, no backslash and no control character.
pub open spec fn needs_no_escape(text: Seq<char>) -> bool {
    forall|i: int|
        0 <= i < text.len() ==> text[i] != '"' && text[i] != '\\' && (#[trigger] text[i]) as u32
            >= 0x20
}

/// The text between two quotes.
pub open spec fn quoted(text: Seq<char>) -> Seq<char> {
    seq!['"'] + text + seq!['"']
}

/// The compact text of the value that stands under `key` in the entries: the
/// last entry with that key counts.
pub open spec fn entry_text(entries: Seq<(String, serde_json::Value)>, key: Seq<char>) -> Option<
    Seq<char>,
>
    decreases entries.len(),
{
    if entries.len() == 0 {
        None
    } else if entries.last().0@ == key {
        Some(json_text(entries.last().1))
    } else {
        entry_text(entries.drop_last(), key)
    }
}

/// Whether no key stands twice in the entries.
pub open spec fn distinct_keys(entries: Seq<(String, serde_json::Value)>) -> bool {
    forall|i: int, j: int|
        0 <= i < j < entries.len() ==> (#[trigger] entries[i]).0@ != (#[trigger] entries[j]).0@
}

/// Calls `serde_json::from_str` for a `Value`. The contract names what comes
/// back: a value exactly where `json_parsed` has one, and then the value with
/// that compact text.
#[verifier::external_body]
pub(crate) fn parse_value(text: &str) -> (res: Result<serde_json::Value, serde_json::Error>)
    ensures
        match res {
            Ok(value) => json_parsed(text@) == Some(json_text(value)),
            Err(_) => json_parsed(text@) is None,
        },
{
    serde_json::from_str::<serde_json::Value>(text)
}

/// Calls `to_string` on a `serde_json::Error`. Nothing is claimed of the text.
#[verifier::external_body]
pub(crate) fn error_text(error: &serde_json::Error) -> (text: String) {
    error.to_string()
}

/// Calls `serde_json::Value::get` with a text key and clones what it finds.
/// The contract names the member's compact text by `json_member`.
#[verifier::external_body]
pub(crate) fn member(value: &serde_json::Value, key: &str) -> (res: Option<serde_json::Value>)
    ensures
        match res {
            Some(found) => json_member(json_text(*value), key@) == Some(json_text(found)),
            None => json_member(json_text(*value), key@) is None,
        },
{
    value.get(key).cloned()
}

/// Makes `serde_json::Value::Null`, which is printed as `null`.
#[verifier::external_body]
pub(crate) fn null_value() -> (value: serde_json::Value)
    ensures
        json_text(value) == "null"@,
{
    serde_json::Value::Null
}

/// Makes a `serde_json::Value::String`. A text that needs no escape is
/// printed as it is, between quotes.
#[verifier::external_body]
pub(crate) fn string_value(text: &str) -> (value: serde_json::Value)
    ensures
        needs_no_escape(text@) ==> json_text(value) == quoted(text@),
{
    serde_json::Value::String(text.to_string())
}

/// Makes a `serde_json::Value::Array` of the elements, which is printed as
/// the elements between brackets, separated by commas.
#[verifier::external_body]
pub(crate) fn array_value(elements: Vec<serde_json::Value>) -> (value: serde_json::Value)
    ensures
        json_text(value) == array_text(texts_of(elements@)),
{
    serde_json::Value::Array(elements)
}

/// Calls `serde_json::from_str` for a `Vec` of values. The contract names
/// what comes back: the elements exactly where `json_elements` has them.
#[verifier::external_body]
pub(crate) fn parse_array(text: &str) -> (res: Result<Vec<serde_json::Value>, serde_json::Error>)
    ensures
        match res {
            Ok(elements) => json_elements(text@) == Some(texts_of(elements@)),
            Err(_) => json_elements(text@) is None,
        },
{
    serde_json::from_str::<Vec<serde_json::Value>>(text)
}

/// An array without elements is printed as `[]`.
pub proof fn lemma_empty_array_text()
    ensures
        array_text(Seq::empty()) == "[]"@,
{
    reveal_strlit("[");
    reveal_strlit("]");
    reveal_strlit("[]");
    assert(array_text(Seq::empty()) =~= "[]"@);
}

/// Collects the entries into a `serde_json::Map` and makes a
/// `serde_json::Value::Object` of it. The object's members are the entries,
/// each under its key.
#[verifier::external_body]
pub(crate) fn object_value(entries: Vec<(String, serde_json::Value)>) -> (value: serde_json::Value)
    requires
        distinct_keys(entries@),
    ensures
        forall|key: Seq<char>| #[trigger]
            json_member(json_text(value), key) == entry_text(entries@, key),
{
    serde_json::Value::Object(entries.into_iter().collect())
}

/// Calls `serde_json::to_string_pretty`. The contract names the text by
/// `json_pretty`, and claims that there is one: printing fails only on a
/// writer that fails or on a value that refuses to be printed, and here the
/// writer is a `Vec` and the value a `serde_json::Value`, whose keys are
/// strings and whose numbers are printed whatever they are.
#[verifier::external_body]
pub(crate) fn pretty_text(value: &serde_json::Value) -> (res: Result<String, serde_json::Error>)
    ensures
        res is Ok,
        res matches Ok(text) ==> text@ == json_pretty(json_text(*value)),
{
    serde_json::to_string_pretty(value)
}

} // verus!

//! Reading JSON documents held as text.
//!
//! Model output, MCP replies and stored permissions arrive as JSON text. The
//! parsing is done by `serde_json`; each reader below looks one value up by a
//! JSON pointer (RFC 6901, as `serde_json::Value::pointer` reads it) and hands
//! it back as a plain value. What a lookup gives is named, not restated: the
//! names below stand for what `serde_json` computes, and the library's
//! contracts are written over them.
use vstd::prelude::*;

verus! {

/// The string at `pointer` in the JSON document `text`, if the text parses
/// and the pointer reaches a string.
pub uninterp spec fn json_str_at(text: Seq<char>, pointer: Seq<char>) -> Option<Seq<char>>;

/// The boolean at `pointer` in the JSON document `text`.
pub uninterp spec fn json_bool_at(text: Seq<char>, pointer: Seq<char>) -> Option<bool>;

/// The number at `pointer` in `text`, where it is an integer in `u64`.
pub uninterp spec fn json_u64_at(text: Seq<char>, pointer: Seq<char>) -> Option<u64>;

/// The number at `pointer` in `text`, where it is an integer in `i64`.
pub uninterp spec fn json_i64_at(text: Seq<char>, pointer: Seq<char>) -> Option<i64>;

/// The items of the array at `pointer` in `text`, each written back as
/// compact JSON text.
pub uninterp spec fn json_items_at(text: Seq<char>, pointer: Seq<char>) -> Option<Seq<Seq<char>>>;

/// The value at `pointer` in `text`, whatever its kind, written back as
/// compact JSON text.
pub uninterp spec fn json_text_at(text: Seq<char>, pointer: Seq<char>) -> Option<Seq<char>>;

/// The value at `pointer` in `text` in the debug notation of
/// `serde_json::Value` (as `{:?}` prints it).
pub uninterp spec fn json_debug_at(text: Seq<char>, pointer: Seq<char>) -> Option<Seq<char>>;

/// The JSON document `text` pretty-printed by `serde_json`, if it parses.
pub uninterp spec fn json_pretty_text(text: Seq<char>) -> Option<Seq<char>>;

/// The message of the error that parsing `text` as JSON gives, if it fails.
pub uninterp spec fn json_parse_error(text: Seq<char>) -> Option<Seq<char>>;

/// The pretty-printed JSON text of an object with one member `key` whose
/// value is the array of the given strings.
pub uninterp spec fn json_pretty_string_list(key: Seq<char>, items: Seq<Seq<char>>) -> Seq<char>;

/// Calls `serde_json::from_str::<Value>` on `text`, then `Value::pointer`
/// and `Value::as_str`. Claimed: the result is `json_str_at` of the
/// arguments. Nothing is claimed of what that name is on given text, but
/// that text that does not parse gives nothing (as for every reader here).
#[verifier::external_body]
pub(crate) fn str_at(text: &str, pointer: &str) -> (r: Option<String>)
    ensures
        r.deep_view() == json_str_at(text@, pointer@),
        json_parse_error(text@) is Some ==> r is None,
{
    let v: serde_json::Value = serde_json::from_str(text).ok()?;
    v.pointer(pointer).and_then(|x| x.as_str()).map(|s| s.to_string())
}

/// Calls `serde_json::from_str::<Value>`, `Value::pointer` and
/// `Value::as_bool`. Claimed: the result is `json_bool_at` of the arguments.
#[verifier::external_body]
pub(crate) fn bool_at(text: &str, pointer: &str) -> (r: Option<bool>)
    ensures
        r == json_bool_at(text@, pointer@),
        json_parse_error(text@) is Some ==> r is None,
{
    let v: serde_json::Value = serde_json::from_str(text).ok()?;
    v.pointer(pointer).and_then(|x| x.as_bool())
}

/// Calls `serde_json::from_str::<Value>`, `Value::pointer` and
/// `Value::as_u64`. Claimed: the result is `json_u64_at` of the arguments.
#[verifier::external_body]
pub(crate) fn u64_at(text: &str, pointer: &str) -> (r: Option<u64>)
    ensures
        r == json_u64_at(text@, pointer@),
        json_parse_error(text@) is Some ==> r is None,
{
    let v: serde_json::Value = serde_json::from_str(text).ok()?;
    v.pointer(pointer).and_then(|x| x.as_u64())
}

/// Calls `serde_json::from_str::<Value>`, `Value::pointer` and
/// `Value::as_i64`. Claimed: the result is `json_i64_at` of the arguments.
#[verifier::external_body]
pub(crate) fn i64_at(text: &str, pointer: &str) -> (r: Option<i64>)
    ensures
        r == json_i64_at(text@, pointer@),
        json_parse_error(text@) is Some ==> r is None,
{
    let v: serde_json::Value = serde_json::from_str(text).ok()?;
    v.pointer(pointer).and_then(|x| x.as_i64())
}

/// Calls `serde_json::from_str::<Value>`, `Value::pointer` and
/// `Value::as_array`, and writes each item back with `Value::to_string`.
/// Claimed: the result is `json_items_at` of the arguments.
#[verifier::external_body]
pub(crate) fn items_at(text: &str, pointer: &str) -> (r: Option<Vec<String>>)
    ensures
        r.deep_view() == json_items_at(text@, pointer@),
        json_parse_error(text@) is Some ==> r is None,
{
    let v: serde_json::Value = serde_json::from_str(text).ok()?;
    v.pointer(pointer).and_then(|x| x.as_array()).map(|a| a.iter().map(|i| i.to_string()).collect())
}

/// Calls `serde_json::from_str::<Value>` and `Value::pointer`, and writes
/// the value found back with `Value::to_string`. Claimed: the result is
/// `json_text_at` of the arguments.
#[verifier::external_body]
pub(crate) fn text_at(text: &str, pointer: &str) -> (r: Option<String>)
    ensures
        r.deep_view() == json_text_at(text@, pointer@),
        json_parse_error(text@) is Some ==> r is None,
{
    let v: serde_json::Value = serde_json::from_str(text).ok()?;
    v.pointer(pointer).map(|x| x.to_string())
}

/// Calls `serde_json::from_str::<Value>` and `Value::pointer`, and prints
/// the value found with its `Debug` impl. Claimed: the result is
/// `json_debug_at` of the arguments.
#[verifier::external_body]
pub(crate) fn debug_at(text: &str, pointer: &str) -> (r: Option<String>)
    ensures
        r.deep_view() == json_debug_at(text@, pointer@),
        json_parse_error(text@) is Some ==> r is None,
{
    let v: serde_json::Value = serde_json::from_str(text).ok()?;
    v.pointer(pointer).map(|x| format!("{:?}", x))
}

/// Calls `serde_json::from_str::<Value>` and prints the value with
/// `serde_json::to_string_pretty`. Claimed: the result is
/// `json_pretty_text` of `text`.
#[verifier::external_body]
pub(crate) fn pretty_text(text: &str) -> (r: Option<String>)
    ensures
        r.deep_view() == json_pretty_text(text@),
        json_parse_error(text@) is Some ==> r is None,
{
    let v: serde_json::Value = serde_json::from_str(text).ok()?;
    serde_json::to_string_pretty(&v).ok()
}

/// Calls `serde_json::from_str::<Value>` and prints the error, if any, with
/// its `Display` impl. Claimed: the result is `json_parse_error` of `text`.
#[verifier::external_body]
pub(crate) fn parse_error(text: &str) -> (r: Option<String>)
    ensures
        r.deep_view() == json_parse_error(text@),
{
    match serde_json::from_str::<serde_json::Value>(text) {
        Ok(_) => None,
        Err(e) => Some(e.to_string()),
    }
}

/// Whether `key` can be written as one step of a JSON pointer as it stands
/// (it holds neither `/` nor `~`).
pub open spec fn plain_pointer_step(key: Seq<char>) -> bool {
    forall|i: int| 0 <= i < key.len() ==> #[trigger] key[i] != '/' && key[i] != '~'
}

/// Builds a `serde_json::Value` object with one member `key` holding the
/// strings as an array and prints it with `serde_json::to_string_pretty`.
/// Claimed: the result is `json_pretty_string_list` of the arguments; the
/// text is an object, not an array; and, as `serde_json` reads back what it
/// writes, the text parses, starts with the `{` of the object, and the
/// array at `/key` has one item per string, each item reading back as that
/// string.
#[verifier::external_body]
pub(crate) fn pretty_string_list(key: &str, items: &Vec<String>) -> (r: String)
    ensures
        r@ == json_pretty_string_list(key@, items.deep_view()),
        json_items_at(r@, Seq::empty()) is None,
        plain_pointer_step(key@) ==> json_parse_error(r@) is None,
        plain_pointer_step(key@) ==> r@.len() > 0 && r@[0] == '{',
        plain_pointer_step(key@) ==> (json_items_at(r@, seq!['/'] + key@) matches Some(texts)
            && texts.len() == items@.len() && forall|i: int|
            0 <= i < texts.len() ==> json_str_at(#[trigger] texts[i], Seq::empty()) == Some(
                items@[i]@,
            )),
{
    let list = items.iter().map(|s| serde_json::Value::String(s.clone())).collect();
    let mut object = serde_json::Map::new();
    object.insert(key.to_string(), serde_json::Value::Array(list));
    serde_json::to_string_pretty(&serde_json::Value::Object(object)).unwrap_or_default()
}
} // verus!

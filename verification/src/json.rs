//! The JSON value type of `serde_json`, carried through the library as
//! an opaque payload, and the few calls the library makes on it.
use vstd::prelude::*;

use crate::text::{chars_of, find_chars, find_seq, rfind_chars, rfind_seq, string_from_chars};

verus! {

/// `serde_json::Value`, declared so that records can carry JSON payloads.
#[verifier::external_type_specification]
#[verifier::external_body]
pub struct ExJsonValue(serde_json::Value);

/// The compact JSON text that `serde_json::to_string` writes for a value.
pub uninterp spec fn json_text(v: serde_json::Value) -> Seq<char>;

/// Calls `serde_json::to_string` on a JSON value. Writing a `Value` never
/// fails (its object keys are strings), so the result is the value's
/// compact JSON text, named `json_text`.
#[verifier::external_body]
pub(crate) fn json_to_string(v: &serde_json::Value) -> (s: String)
    ensures
        s@ == json_text(*v),
{
    serde_json::to_string(v).unwrap_or_default()
}

/// `Clone` of `serde_json::Value` (derived in serde_json): the copy is the
/// same JSON value.
pub assume_specification[ <serde_json::Value as Clone>::clone ](v: &serde_json::Value) -> (r: serde_json::Value)
    ensures
        r == *v,
;

/// Builds `serde_json::Value::Null`, whose JSON text is `null`. Null is
/// not an object, a string, an array or a number, so it has no members,
/// no text, no items and no unsigned value.
#[verifier::external_body]
pub(crate) fn json_null() -> (v: serde_json::Value)
    ensures
        json_text(v) == "null"@,
        forall|k: Seq<char>| #[trigger] json_member(v, k) is None,
        json_str(v) is None,
        json_items(v) is None,
        json_u64(v) is None,
{
    serde_json::Value::Null
}

/// The value `serde_json::from_str` reads from a text, where the text is
/// one JSON value.
pub uninterp spec fn json_parse(text: Seq<char>) -> Option<serde_json::Value>;

/// The member under a key of an object value (`Value::get` with a string
/// key): none where the value is not an object or lacks the key.
pub uninterp spec fn json_member(v: serde_json::Value, key: Seq<char>) -> Option<serde_json::Value>;

/// The text of a string value (`Value::as_str`).
pub uninterp spec fn json_str(v: serde_json::Value) -> Option<Seq<char>>;

/// The items of an array value (`Value::as_array`).
pub uninterp spec fn json_items(v: serde_json::Value) -> Option<Seq<serde_json::Value>>;

/// An integer value that fits in `u64` (`Value::as_u64`).
pub uninterp spec fn json_u64(v: serde_json::Value) -> Option<u64>;

/// The text that `{:?}` writes for a value.
pub uninterp spec fn json_debug_text(v: serde_json::Value) -> Seq<char>;

/// The text that `Display` writes for the error `serde_json::from_str`
/// reports on a text that is not one JSON value (what went wrong, with
/// its line and column).
pub uninterp spec fn json_parse_error(text: Seq<char>) -> Seq<char>;

/// Calls `serde_json::from_str::<Value>`: the value the text holds, or,
/// where it is not one JSON value, the text of the error. Both depend on
/// the text alone and are named `json_parse` and `json_parse_error`.
#[verifier::external_body]
pub(crate) fn parse_json(text: &str) -> (r: Result<serde_json::Value, String>)
    ensures
        match r {
            Ok(v) => json_parse(text@) == Some(v),
            Err(m) => json_parse(text@) is None && m@ == json_parse_error(text@),
        },
{
    serde_json::from_str::<serde_json::Value>(text).map_err(|e| e.to_string())
}

/// The value a text holds, or none where it is not one JSON value.
pub fn parse_json_value(text: &str) -> (r: Option<serde_json::Value>)
    ensures
        r == json_parse(text@),
{
    match parse_json(text) {
        Ok(v) => Some(v),
        Err(_) => None,
    }
}

/// Calls `Value::get` with a string key and clones the member found.
#[verifier::external_body]
pub(crate) fn json_get(v: &serde_json::Value, key: &str) -> (r: Option<serde_json::Value>)
    ensures
        r == json_member(*v, key@),
{
    v.get(key).cloned()
}

/// Calls `Value::as_str` and copies the text found.
#[verifier::external_body]
pub(crate) fn json_as_str(v: &serde_json::Value) -> (r: Option<String>)
    ensures
        match r {
            Some(s) => json_str(*v) == Some(s@),
            None => json_str(*v) is None,
        },
{
    v.as_str().map(String::from)
}

/// Calls `Value::as_array` and clones the items found.
#[verifier::external_body]
pub(crate) fn json_as_array(v: &serde_json::Value) -> (r: Option<Vec<serde_json::Value>>)
    ensures
        match r {
            Some(a) => json_items(*v) == Some(a@),
            None => json_items(*v) is None,
        },
{
    v.as_array().cloned()
}

/// Calls `Value::as_u64`.
#[verifier::external_body]
pub(crate) fn json_as_u64(v: &serde_json::Value) -> (r: Option<u64>)
    ensures
        r == json_u64(*v),
{
    v.as_u64()
}

/// Writes a value with `{:?}`.
#[verifier::external_body]
pub(crate) fn json_debug(v: &serde_json::Value) -> (s: String)
    ensures
        s@ == json_debug_text(*v),
{
    format!("{:?}", v)
}

/// The member under a key, where there is one and it is a string: what
/// indexing with the key and then `as_str` gives.
pub open spec fn member_str(v: serde_json::Value, key: Seq<char>) -> Option<Seq<char>> {
    match json_member(v, key) {
        Some(m) => json_str(m),
        None => None,
    }
}

/// The items of the member under a key, where it is an array.
pub open spec fn member_items(v: serde_json::Value, key: Seq<char>) -> Option<Seq<serde_json::Value>> {
    match json_member(v, key) {
        Some(m) => json_items(m),
        None => None,
    }
}

/// The member under a key, where it is an integer that fits in `u64`.
pub open spec fn member_u64(v: serde_json::Value, key: Seq<char>) -> Option<u64> {
    match json_member(v, key) {
        Some(m) => json_u64(m),
        None => None,
    }
}

/// Indexes a value with a string key, as `value[key]` does: the member, or
/// null where there is none.
pub fn json_index(v: &serde_json::Value, key: &str) -> (r: serde_json::Value)
    ensures
        json_member(*v, key@) matches Some(m) ==> r == m,
        json_member(*v, key@) is None ==> json_text(r) == "null"@ && json_str(r) is None && json_items(r) is None
            && json_u64(r) is None && forall|k: Seq<char>| #[trigger] json_member(r, k) is None,
{
    match json_get(v, key) {
        Some(m) => m,
        None => json_null(),
    }
}

/// `member_str(v, key)`, computed.
pub fn get_member_str(v: &serde_json::Value, key: &str) -> (r: Option<String>)
    ensures
        match r {
            Some(s) => member_str(*v, key@) == Some(s@),
            None => member_str(*v, key@) is None,
        },
{
    match json_get(v, key) {
        Some(m) => json_as_str(&m),
        None => None,
    }
}

/// `member_items(v, key)`, computed.
pub fn get_member_items(v: &serde_json::Value, key: &str) -> (r: Option<Vec<serde_json::Value>>)
    ensures
        match r {
            Some(a) => member_items(*v, key@) == Some(a@),
            None => member_items(*v, key@) is None,
        },
{
    match json_get(v, key) {
        Some(m) => json_as_array(&m),
        None => None,
    }
}

/// `member_u64(v, key)`, computed.
pub fn get_member_u64(v: &serde_json::Value, key: &str) -> (r: Option<u64>)
    ensures
        r == member_u64(*v, key@),
{
    match json_get(v, key) {
        Some(m) => json_as_u64(&m),
        None => None,
    }
}

/// The texts of the string items of a list, in order (what
/// `filter_map(as_str)` keeps).
pub open spec fn str_items(items: Seq<serde_json::Value>) -> Seq<Seq<char>>
    decreases items.len(),
{
    if items.len() == 0 {
        seq![]
    } else {
        let rest = str_items(items.drop_last());
        match json_str(items.last()) {
            Some(s) => rest.push(s),
            None => rest,
        }
    }
}

/// The string items of a list, in order.
pub fn string_items(items: &Vec<serde_json::Value>) -> (r: Vec<String>)
    ensures
        crate::text::views(r@) == str_items(items@),
{
    let mut r: Vec<String> = Vec::new();
    let mut i: usize = 0;
    while i < items.len()
        invariant
            i <= items@.len(),
            crate::text::views(r@) == str_items(items@.subrange(0, i as int)),
        decreases items@.len() - i,
    {
        let ghost before = r@;
        proof {
            assert(items@.subrange(0, i + 1).drop_last() =~= items@.subrange(0, i as int));
            assert(items@.subrange(0, i + 1).last() == items@[i as int]);
        }
        match json_as_str(&items[i]) {
            Some(s) => {
                r.push(s);
                proof {
                    assert(crate::text::views(r@) =~= crate::text::views(before).push(r@.last()@));
                }
            },
            None => {},
        }
        i = i + 1;
    }
    proof {
        assert(items@.subrange(0, items@.len() as int) =~= items@);
    }
    r
}

/// The part of a text from its first `{` to its last `}`, both included;
/// the whole text where it lacks either.
pub open spec fn object_span(t: Seq<char>) -> Seq<char> {
    match find_seq(t, seq!['{']) {
        Some(s) => match rfind_seq(t, seq!['}']) {
            Some(e) => t.subrange(s, e + 1),
            None => t,
        },
        None => t,
    }
}

/// The span can be cut: the last `}` does not stand more than one place
/// before the first `{` (where it does, slicing the text panics).
pub open spec fn object_span_defined(t: Seq<char>) -> bool {
    match find_seq(t, seq!['{']) {
        Some(s) => match rfind_seq(t, seq!['}']) {
            Some(e) => s <= e + 1,
            None => true,
        },
        None => true,
    }
}

/// Whether the object span of a reply can be cut (see
/// `object_span_defined`).
pub fn object_span_sliceable(text: &str) -> (b: bool)
    ensures
        b == object_span_defined(text@),
{
    let v = chars_of(text);
    let open = vec!['{'];
    let close = vec!['}'];
    assert(open@ == seq!['{']);
    assert(close@ == seq!['}']);
    match find_chars(&v, &open) {
        Some(s) => match rfind_chars(&v, &close) {
            Some(e) => s <= e || s == e + 1,
            None => true,
        },
        None => true,
    }
}

/// The JSON object span of a model reply: from its first `{` to its last
/// `}`, or the whole reply where it lacks either.
pub fn object_span_of(text: &str) -> (r: String)
    requires
        object_span_defined(text@),
    ensures
        r@ == object_span(text@),
{
    let v = chars_of(text);
    let open = vec!['{'];
    let close = vec!['}'];
    assert(open@ == seq!['{']);
    assert(close@ == seq!['}']);
    assert(close@.len() == 1);
    assert(v@.subrange(0, v@.len() as int) == v@);
    match find_chars(&v, &open) {
        Some(s) => match rfind_chars(&v, &close) {
            Some(e) => {
                assert(rfind_seq(v@, close@) == Some(e as int));
                assert(e + close@.len() <= v@.len());
                assert(close@.len() == 1);
                assert(e + 1 <= v.len());
                string_from_chars(&v, s, e + 1)
            },
            None => string_from_chars(&v, 0, v.len()),
        },
        None => string_from_chars(&v, 0, v.len()),
    }
}

// ---------------------------------------------------------------------
// Building values
// ---------------------------------------------------------------------

/// The flag of a boolean value (`Value::as_bool`).
pub uninterp spec fn json_bool(v: serde_json::Value) -> Option<bool>;

/// Whether a value is an object (`Value::is_object`).
pub uninterp spec fn json_is_object(v: serde_json::Value) -> bool;

/// Builds `Value::String`; its text is the string's.
#[verifier::external_body]
pub(crate) fn json_string_value(s: &str) -> (v: serde_json::Value)
    ensures
        json_str(v) == Some(s@),
{
    serde_json::Value::String(s.to_string())
}

/// Builds `Value::Bool`.
#[verifier::external_body]
pub(crate) fn json_bool_value(b: bool) -> (v: serde_json::Value)
    ensures
        json_bool(v) == Some(b),
{
    serde_json::Value::Bool(b)
}

/// Builds a number from a `u64` (`Value::from`); `as_u64` reads it back.
#[verifier::external_body]
pub(crate) fn json_u64_value(n: u64) -> (v: serde_json::Value)
    ensures
        json_u64(v) == Some(n),
{
    serde_json::Value::from(n)
}

/// Builds `Value::Array` from the items, in order.
#[verifier::external_body]
pub(crate) fn json_array_value(items: Vec<serde_json::Value>) -> (v: serde_json::Value)
    ensures
        json_items(v) == Some(items@),
{
    serde_json::Value::Array(items)
}

/// Builds an empty object (`Value::Object(Map::new())`).
#[verifier::external_body]
pub(crate) fn json_empty_object() -> (v: serde_json::Value)
    ensures
        json_is_object(v),
        forall|k: Seq<char>| #[trigger] json_member(v, k) is None,
{
    serde_json::Value::Object(serde_json::Map::new())
}

/// Calls `Map::insert` on an object value: the key now holds the given
/// value (replacing what it held), and the other members stay.
#[verifier::external_body]
pub(crate) fn json_insert(obj: &mut serde_json::Value, key: &str, val: serde_json::Value)
    requires
        json_is_object(*old(obj)),
    ensures
        json_is_object(*final(obj)),
        json_member(*final(obj), key@) == Some(val),
        forall|k: Seq<char>| k != key@ ==> #[trigger] json_member(*final(obj), k) == json_member(*old(obj), k),
{
    if let serde_json::Value::Object(m) = obj {
        m.insert(key.to_string(), val);
    }
}

/// A string, or null where there is none.
pub open spec fn str_or_null(v: serde_json::Value, o: Option<Seq<char>>) -> bool {
    match o {
        Some(s) => json_str(v) == Some(s),
        None => json_text(v) == "null"@,
    }
}

/// Builds a string value, or null where there is none.
pub fn json_opt_string(o: &Option<String>) -> (v: serde_json::Value)
    ensures
        str_or_null(v, crate::models::opt_view(*o)),
{
    match o {
        Some(s) => json_string_value(s.as_str()),
        None => json_null(),
    }
}

/// Builds an array of string values.
pub fn json_string_array(items: &Vec<String>) -> (v: serde_json::Value)
    ensures
        json_items(v) matches Some(a) && a.len() == items@.len()
            && forall|i: int| 0 <= i < a.len() ==> json_str(#[trigger] a[i]) == Some(items@[i]@),
{
    let mut a: Vec<serde_json::Value> = Vec::new();
    let mut i: usize = 0;
    while i < items.len()
        invariant
            i <= items@.len(),
            a@.len() == i,
            forall|j: int| 0 <= j < i ==> json_str(#[trigger] a@[j]) == Some(items@[j]@),
        decreases items@.len() - i,
    {
        a.push(json_string_value(items[i].as_str()));
        i = i + 1;
    }
    json_array_value(a)
}

} // verus!

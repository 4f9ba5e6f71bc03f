//! JSON documents as plain values, and reading typed fields out of them.
use vstd::prelude::*;
use vstd::utf8::{decode_utf8, valid_utf8};
use crate::decimal::{digits_value, is_decimal, parse_decimal};
use crate::error::ClientError;

verus! {

#[verifier::external_type_specification]
#[verifier::external_body]
pub struct ExJsonValue(serde_json::Value);

/// A JSON document.
#[derive(Debug, PartialEq, Eq)]
pub enum Json {
    Null,
    Bool(bool),
    /// A number, kept as its JSON text (`42`, `-7`, `1.5`).
    Number(String),
    Str(String),
    Array(Vec<Json>),
    /// The members of an object, in order.
    Object(Vec<(String, Json)>),
}

/// The document that a JSON text denotes, or `None` where the text is not JSON.
pub uninterp spec fn parsed_json(text: Seq<char>) -> Option<Json>;

impl Json {
    /// Moves a parsed document into the library's own representation.
    #[verifier::external_body]
    fn from_value(v: serde_json::Value) -> Json {
        match v {
            serde_json::Value::Null => Json::Null,
            serde_json::Value::Bool(b) => Json::Bool(b),
            serde_json::Value::Number(n) => Json::Number(n.to_string()),
            serde_json::Value::String(s) => Json::Str(s),
            serde_json::Value::Array(a) => Json::Array(a.into_iter().map(Json::from_value).collect()),
            serde_json::Value::Object(m) => Json::Object(
                m.into_iter().map(|(k, x)| (k, Json::from_value(x))).collect(),
            ),
        }
    }
}

/// Relies on serde_json::from_str into serde_json::Value: it accepts a JSON text or
/// fails, and the document it yields depends on the text alone.
#[verifier::external_body]
fn parse_json_text(text: &str) -> (r: Option<Json>)
    ensures
        r == parsed_json(text@),
{
    serde_json::from_str::<serde_json::Value>(text).ok().map(Json::from_value)
}

/// Relies on std::str::from_utf8: it accepts exactly the valid UTF-8 byte strings,
/// and decodes them.
#[verifier::external_body]
fn utf8_text(bytes: &[u8]) -> (r: Option<&str>)
    ensures
        r is Some <==> valid_utf8(bytes@),
        r matches Some(s) ==> s@ == decode_utf8(bytes@),
{
    std::str::from_utf8(bytes).ok()
}

/// The text that a byte string holds, where it is valid UTF-8.
pub open spec fn utf8_of(bytes: Seq<u8>) -> Option<Seq<char>> {
    if valid_utf8(bytes) {
        Some(decode_utf8(bytes))
    } else {
        None
    }
}

/// The document that a byte string holds: UTF-8 text that parses as JSON.
pub open spec fn json_of_bytes(bytes: Seq<u8>) -> Option<Json> {
    match utf8_of(bytes) {
        Some(text) => parsed_json(text),
        None => None,
    }
}

/// Decodes bytes as UTF-8; `None` where they are not valid UTF-8.
pub fn decode_text(bytes: &[u8]) -> (r: Option<&str>)
    ensures
        r is Some <==> utf8_of(bytes@) is Some,
        r matches Some(s) ==> utf8_of(bytes@) == Some(s@),
{
    utf8_text(bytes)
}

/// Parses JSON text; `None` where it is not JSON.
pub fn parse_text(text: &str) -> (r: Option<Json>)
    ensures
        r == parsed_json(text@),
{
    parse_json_text(text)
}

/// Decodes bytes as UTF-8 and parses the text as JSON.
pub fn parse_bytes(bytes: &[u8]) -> (r: Option<Json>)
    ensures
        r == json_of_bytes(bytes@),
{
    match utf8_text(bytes) {
        Some(text) => parse_json_text(text),
        None => None,
    }
}

/// The value of the first member named `key`.
pub open spec fn field_of(entries: Seq<(String, Json)>, key: Seq<char>) -> Option<Json>
    decreases entries.len(),
{
    if entries.len() == 0 {
        None
    } else if entries[0].0@ == key {
        Some(entries[0].1)
    } else {
        field_of(entries.drop_first(), key)
    }
}

/// The member `key` of an object; `None` for a missing member or a value that is no object.
pub open spec fn member_of(j: Json, key: Seq<char>) -> Option<Json> {
    match j {
        Json::Object(entries) => field_of(entries@, key),
        _ => None,
    }
}

/// Looks up the member `key` of an object.
pub fn member<'a>(j: &'a Json, key: &str) -> (r: Option<&'a Json>)
    ensures
        r is Some <==> member_of(*j, key@) is Some,
        r matches Some(v) ==> member_of(*j, key@) == Some(*v),
{
    match j {
        Json::Object(entries) => {
            let k = String::from_str(key);
            let mut i: usize = 0;
            assert(entries@.subrange(0, entries@.len() as int) =~= entries@);
            while i < entries.len()
                invariant
                    0 <= i <= entries@.len(),
                    k@ == key@,
                    member_of(*j, key@) == field_of(entries@, key@),
                    field_of(entries@, key@) == field_of(entries@.subrange(i as int, entries@.len() as int), key@),
                decreases entries.len() - i,
            {
                let ghost rest = entries@.subrange(i as int, entries@.len() as int);
                assert(rest[0] == entries@[i as int]);
                if entries[i].0 == k {
                    return Some(&entries[i].1);
                }
                assert(rest.drop_first() =~= entries@.subrange(i as int + 1, entries@.len() as int));
                i = i + 1;
            }
            None
        },
        _ => None,
    }
}

/// A string member.
pub open spec fn str_member(j: Json, key: Seq<char>) -> Option<String> {
    match member_of(j, key) {
        Some(Json::Str(s)) => Some(s),
        _ => None,
    }
}

/// A member that may be absent or null, and is a string otherwise; `None` for any other value.
pub open spec fn opt_str_member(j: Json, key: Seq<char>) -> Option<Option<String>> {
    match member_of(j, key) {
        None => Some(None),
        Some(Json::Null) => Some(None),
        Some(Json::Str(s)) => Some(Some(s)),
        _ => None,
    }
}

/// A boolean member.
pub open spec fn bool_member(j: Json, key: Seq<char>) -> Option<bool> {
    match member_of(j, key) {
        Some(Json::Bool(b)) => Some(b),
        _ => None,
    }
}

/// A member that is a number without sign, fraction or exponent, and fits in a `u32`.
pub open spec fn u32_member(j: Json, key: Seq<char>) -> Option<u32> {
    match member_of(j, key) {
        Some(Json::Number(t)) => if is_decimal(t@) && digits_value(t@) <= u32::MAX {
            Some(digits_value(t@) as u32)
        } else {
            None
        },
        _ => None,
    }
}

/// The failure of a strict decoder on the member `key`.
pub fn field_error(key: &str) -> (r: ClientError)
    ensures
        r is DecodeFailure,
{
    let mut m = String::from_str("missing or mistyped field: ");
    m.append(key);
    ClientError::DecodeFailure(m)
}

/// Reads a string member.
pub fn get_str(j: &Json, key: &str) -> (r: Option<String>)
    ensures
        r == str_member(*j, key@),
{
    match member(j, key) {
        Some(Json::Str(s)) => Some(s.clone()),
        _ => None,
    }
}

/// Reads a member that may be absent or null.
pub fn get_opt_str(j: &Json, key: &str) -> (r: Option<Option<String>>)
    ensures
        r == opt_str_member(*j, key@),
{
    match member(j, key) {
        None => Some(None),
        Some(Json::Null) => Some(None),
        Some(Json::Str(s)) => Some(Some(s.clone())),
        _ => None,
    }
}

/// Reads a boolean member.
pub fn get_bool(j: &Json, key: &str) -> (r: Option<bool>)
    ensures
        r == bool_member(*j, key@),
{
    match member(j, key) {
        Some(Json::Bool(b)) => Some(*b),
        _ => None,
    }
}

/// Reads a `u32` member.
pub fn get_u32(j: &Json, key: &str) -> (r: Option<u32>)
    ensures
        r == u32_member(*j, key@),
{
    match member(j, key) {
        Some(Json::Number(t)) => match parse_decimal(t.as_str()) {
            Some(n) => if n <= u32::MAX as u64 {
                Some(n as u32)
            } else {
                None
            },
            None => None,
        },
        _ => None,
    }
}

/// The text of a number that is an integer within the range of `i64`.
pub open spec fn is_i64_text(t: Seq<char>) -> bool {
    (is_decimal(t) && digits_value(t) <= i64::MAX)
        || (t.len() > 1 && t[0] == '-' && is_decimal(t.drop_first())
            && digits_value(t.drop_first()) <= i64::MAX as nat + 1)
}

/// The member `key` as display text: a string as it stands, an integer within the range
/// of `i64` in decimal, anything else (absent, null, other numbers, other values) empty.
pub open spec fn member_text(j: Json, key: Seq<char>) -> Seq<char> {
    match member_of(j, key) {
        Some(Json::Str(s)) => s@,
        Some(Json::Number(t)) => if is_i64_text(t@) {
            t@
        } else {
            Seq::empty()
        },
        _ => Seq::empty(),
    }
}

fn is_i64_number(t: &str) -> (r: bool)
    ensures
        r == is_i64_text(t@),
{
    let n = t.unicode_len();
    if n > 1 && t.get_char(0) == '-' {
        let digits = t.substring_char(1, n);
        assert(digits@ =~= t@.drop_first());
        match parse_decimal(digits) {
            Some(v) => v <= i64::MAX as u64 + 1,
            None => false,
        }
    } else {
        match parse_decimal(t) {
            Some(v) => v <= i64::MAX as u64,
            None => false,
        }
    }
}

/// Reads the member `key` as display text.
pub fn get(json: &Json, key: &str) -> (r: String)
    ensures
        r@ == member_text(*json, key@),
{
    match member(json, key) {
        Some(Json::Str(s)) => s.clone(),
        Some(Json::Number(t)) => if is_i64_number(t.as_str()) {
            t.clone()
        } else {
            String::new()
        },
        _ => String::new(),
    }
}

} // verus!

//! The JSON document model that the forecast parser reads.
//!
//! A weather response is turned into a `Json` value outside the library (by
//! `serde_json`, one variant for one variant), and everything the report
//! reads from it is read here, with contracts.

use vstd::prelude::*;
use crate::text::{chars_eq, chars_of};

verus! {

/// A JSON number, held as the two readings that the report makes of it.
#[derive(Debug, Clone)]
pub struct JsonNumber {
    /// The number as a `u64`, when it is a non-negative integer literal
    /// (what `serde_json::Number::as_u64` gives).
    pub as_u64: Option<u64>,
    /// The number as an `f64`, printed with no decimals (`{:.0}`).
    pub rounded: String,
}

/// A JSON value. An object holds each key once; the order of its entries
/// does not matter to any lookup.
#[derive(Debug)]
pub enum Json {
    Null,
    Bool(bool),
    Number(JsonNumber),
    Str(String),
    Array(Vec<Json>),
    Object(Vec<(String, Json)>),
}

/// The value stored under `key`, if any.
pub open spec fn lookup(entries: Seq<(String, Json)>, key: Seq<char>) -> Option<Json>
    decreases entries.len(),
{
    if entries.len() == 0 {
        None
    } else if entries[0].0@ == key {
        Some(entries[0].1)
    } else {
        lookup(entries.drop_first(), key)
    }
}

/// `v[key]` for any value: the entry of an object, `Null` otherwise.
pub open spec fn member(v: Json, key: Seq<char>) -> Json {
    match v {
        Json::Object(entries) => match lookup(entries@, key) {
            Some(x) => x,
            None => Json::Null,
        },
        _ => Json::Null,
    }
}

/// The text of a string value; empty for any other value.
pub open spec fn str_or_empty(v: Json) -> Seq<char> {
    match v {
        Json::Str(s) => s@,
        _ => Seq::empty(),
    }
}

/// The value as a `u64`; 0 when it is not a non-negative integer.
pub open spec fn u64_or_zero(v: Json) -> u64 {
    match v {
        Json::Number(n) => match n.as_u64 {
            Some(x) => x,
            None => 0,
        },
        _ => 0,
    }
}

/// The entry stored under `key`.
pub fn lookup_entry<'a>(entries: &'a Vec<(String, Json)>, key: &str) -> (r: Option<&'a Json>)
    ensures
        r matches Some(x) ==> lookup(entries@, key@) == Some(*x),
        r is None ==> lookup(entries@, key@) is None,
{
    let k = chars_of(key);
    assert(entries@.skip(0) == entries@);
    for i in 0..entries.len()
        invariant
            k@ == key@,
            lookup(entries@, key@) == lookup(entries@.skip(i as int), key@),
    {
        let ghost rest = entries@.skip(i as int);
        assert(rest[0] == entries@[i as int]);
        assert(rest.drop_first() == entries@.skip(i + 1));
        let name = chars_of(entries[i].0.as_str());
        if chars_eq(&name, &k) {
            return Some(&entries[i].1);
        }
    }
    assert(entries@.skip(entries.len() as int) =~= Seq::<(String, Json)>::empty());
    None
}

/// The text of a string value, or an empty string.
pub fn str_or_empty_chars(v: &Json) -> (r: Vec<char>)
    ensures
        r@ == str_or_empty(*v),
{
    match v {
        Json::Str(s) => chars_of(s.as_str()),
        _ => Vec::new(),
    }
}

/// The value as a `u64`, or 0.
pub fn u64_or_zero_exec(v: &Json) -> (r: u64)
    ensures
        r == u64_or_zero(*v),
{
    match v {
        Json::Number(n) => match n.as_u64 {
            Some(x) => x,
            None => 0,
        },
        _ => 0,
    }
}

} // verus!

//! A JSON-compatible value, as carried by envelopes, responses and events.

use vstd::prelude::*;

verus! {

/// One JSON-compatible value. Objects keep their keys in insertion order, so
/// that records such as `{e, d}` always serialise with `e` first.
#[derive(Debug, PartialEq)]
pub enum Value {
    Null,
    Bool(bool),
    Int(i64),
    Str(String),
    Array(Vec<Value>),
    Object(Vec<(String, Value)>),
}

/// An object with no keys.
pub fn empty_object() -> (r: Value)
    ensures
        r is Object,
        r->Object_0@.len() == 0,
{
    Value::Object(Vec::new())
}

/// A string value holding a copy of `s`.
pub fn str_value(s: &str) -> (r: Value)
    ensures
        r is Str,
        r->Str_0@ == s@,
{
    Value::Str(String::from_str(s))
}

} // verus!

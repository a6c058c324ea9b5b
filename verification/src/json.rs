//! A plain model of decoded JSON values.
//!
//! The transport hands the library already-decoded JSON in this shape; the
//! dispatcher classifies it. Numbers are modeled as unsigned integers: every
//! numeric field of the service's envelope (view counts, timestamps, HTTP
//! status, retention milliseconds) is a non-negative integer, and a number
//! outside `u64` or with a fractional part is represented by `BadNumber`,
//! which matches no envelope shape.

use vstd::prelude::*;

verus! {

/// A decoded JSON value, as the dispatcher sees it.
#[derive(Debug)]
pub enum JsonValue {
    /// JSON `null`.
    Null,
    /// A JSON boolean.
    Bool(bool),
    /// A JSON number that is a non-negative integer fitting in `u64`.
    UInt(u64),
    /// Any other JSON number (negative, fractional, or too large); no
    /// envelope field carries such a number, so it never matches a shape.
    BadNumber,
    /// A JSON string.
    Str(String),
    /// A JSON array.
    Arr(Vec<JsonValue>),
    /// A JSON object as a sequence of key/value pairs, in source order.
    Obj(Vec<(String, JsonValue)>),
}

/// First value bound to `key` in an object's field list, if any.
pub open spec fn spec_lookup(fields: Seq<(String, JsonValue)>, key: Seq<char>) -> Option<
    JsonValue,
>
    decreases fields.len(),
{
    if fields.len() == 0 {
        None
    } else if fields[0].0@ == key {
        Some(fields[0].1)
    } else {
        spec_lookup(fields.drop_first(), key)
    }
}

/// Looks a key up in an object's field list.
pub fn obj_get<'a>(fields: &'a Vec<(String, JsonValue)>, key: &str) -> (r: Option<&'a JsonValue>)
    ensures
        match r {
            Some(v) => spec_lookup(fields@, key@) == Some(*v),
            None => spec_lookup(fields@, key@) is None,
        },
{
    let key_owned = key.to_owned();
    let mut i: usize = 0;
    assert(fields@.skip(0) =~= fields@);
    while i < fields.len()
        invariant
            i <= fields.len(),
            key_owned@ == key@,
            spec_lookup(fields@, key@) == spec_lookup(fields@.skip(i as int), key@),
        decreases fields.len() - i,
    {
        assert(fields@.skip(i as int)[0] == fields@[i as int]);
        assert(fields@.skip(i as int).drop_first() =~= fields@.skip(i + 1));
        if fields[i].0 == key_owned {
            return Some(&fields[i].1);
        }
        i += 1;
    }
    None
}

} // verus!

//! JSON documents as the ISBN lookup reads them.
use vstd::prelude::*;
use crate::text::same_text;

verus! {

/// A JSON value. Object members keep their order and the first member with a
/// given key is the one that indexing finds; numbers keep their text.
#[derive(Debug)]
pub enum JsonValue {
    Null,
    Bool(bool),
    Number(String),
    Text(String),
    Array(Vec<JsonValue>),
    Object(Vec<(String, JsonValue)>),
}

/// The value of the first member named `key` among `members`.
pub open spec fn member_of(members: Seq<(String, JsonValue)>, key: Seq<char>) -> Option<JsonValue>
    decreases members.len(),
{
    if members.len() == 0 {
        None
    } else if members[0].0@ == key {
        Some(members[0].1)
    } else {
        member_of(members.drop_first(), key)
    }
}

/// `v[key]`: the member named `key` when `v` is an object that has one.
/// `None` stands for JSON `null`, which is what indexing gives for anything else.
pub open spec fn at(v: Option<JsonValue>, key: Seq<char>) -> Option<JsonValue> {
    match v {
        Some(JsonValue::Object(members)) => member_of(members@, key),
        _ => None,
    }
}

/// `v.as_str()`: the text of a JSON string.
pub open spec fn text_of(v: Option<JsonValue>) -> Option<Seq<char>> {
    match v {
        Some(JsonValue::Text(s)) => Some(s@),
        _ => None,
    }
}

/// `v.as_array().and_then(|a| a.first())`: the first element of a non-empty array.
pub open spec fn first_of(v: Option<JsonValue>) -> Option<JsonValue> {
    match v {
        Some(JsonValue::Array(items)) => if items@.len() > 0 { Some(items@[0]) } else { None },
        _ => None,
    }
}

/// `v.as_array().filter(|a| !a.is_empty()).is_some()`.
pub open spec fn is_nonempty_array(v: Option<JsonValue>) -> bool {
    match v {
        Some(JsonValue::Array(items)) => items@.len() > 0,
        _ => false,
    }
}

/// The value behind an optional reference.
pub open spec fn deref(v: Option<&JsonValue>) -> Option<JsonValue> {
    match v {
        Some(w) => Some(*w),
        None => None,
    }
}

/// `v[key]` on a value that may be absent.
pub fn member<'a>(v: Option<&'a JsonValue>, key: &str) -> (r: Option<&'a JsonValue>)
    ensures
        match r {
            Some(x) => at(deref(v), key@) == Some(*x),
            None => at(deref(v), key@) is None,
        },
{
    match v {
        Some(JsonValue::Object(members)) => {
            let mut i: usize = 0;
            assert(members@.skip(0) == members@);
            assert(at(deref(v), key@) == member_of(members@, key@));
            while i < members.len()
                invariant
                    i <= members@.len(),
                    at(deref(v), key@) == member_of(members@, key@),
                    member_of(members@, key@) == member_of(members@.skip(i as int), key@),
                decreases members@.len() - i,
            {
                proof {
                    assert(members@.skip(i as int).drop_first() == members@.skip(i + 1));
                }
                if same_text(members[i].0.as_str(), key) {
                    assert(members@.skip(i as int)[0] == members@[i as int]);
                    return Some(&members[i].1);
                }
                i += 1;
            }
            None
        },
        _ => None,
    }
}

/// `v.as_str()` on a value that may be absent.
pub fn text<'a>(v: Option<&'a JsonValue>) -> (r: Option<&'a String>)
    ensures
        match r {
            Some(s) => text_of(deref(v)) == Some(s@),
            None => text_of(deref(v)) is None,
        },
{
    match v {
        Some(JsonValue::Text(s)) => Some(s),
        _ => None,
    }
}

/// The first element of `v` when it is a non-empty array.
pub fn first<'a>(v: Option<&'a JsonValue>) -> (r: Option<&'a JsonValue>)
    ensures
        match r {
            Some(x) => first_of(deref(v)) == Some(*x),
            None => first_of(deref(v)) is None,
        },
{
    match v {
        Some(JsonValue::Array(items)) => {
            if items.len() > 0 {
                Some(&items[0])
            } else {
                None
            }
        },
        _ => None,
    }
}

/// Whether `v` is a non-empty array.
pub fn nonempty_array(v: Option<&JsonValue>) -> (b: bool)
    ensures
        b == is_nonempty_array(deref(v)),
{
    match v {
        Some(JsonValue::Array(items)) => items.len() > 0,
        _ => false,
    }
}

} // verus!

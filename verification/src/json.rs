//! JSON documents as plain values, parsed by `serde_json`, and field lookup
//! in them.

use vstd::prelude::*;

use crate::text::str_eq;

verus! {

/// A JSON value. Numbers are kept as the text `serde_json` renders them in;
/// an object keeps its members in the order `serde_json` iterates them.
#[derive(Debug)]
pub enum Json {
    Null,
    Bool(bool),
    Number(String),
    Text(String),
    Array(Vec<Json>),
    Object(Vec<(String, Json)>),
}

#[verifier::external_type_specification]
#[verifier::external_body]
pub struct ExJsonValue(serde_json::Value);

/// What `serde_json::from_str::<serde_json::Value>` gives for the text, as a
/// `Json`; `None` where it reports an error.
pub uninterp spec fn json_of(text: Seq<char>) -> Option<Json>;

/// The conversion step of `parse_json`: one variant of `serde_json::Value`
/// to the same variant of `Json`, members in iteration order.
#[verifier::external_body]
fn value_to_json(v: &serde_json::Value) -> Json {
    match v {
        serde_json::Value::Null => Json::Null,
        serde_json::Value::Bool(b) => Json::Bool(*b),
        serde_json::Value::Number(n) => Json::Number(n.to_string()),
        serde_json::Value::String(s) => Json::Text(s.clone()),
        serde_json::Value::Array(a) => Json::Array(a.iter().map(value_to_json).collect()),
        serde_json::Value::Object(o) => Json::Object(o.iter().map(|(k, x)| (k.clone(), value_to_json(x))).collect()),
    }
}

/// Parses JSON text.
///
/// Trusted: calls `serde_json::from_str::<serde_json::Value>` and converts
/// the value variant by variant; claims that the result is the named parse
/// of the text.
#[verifier::external_body]
pub(crate) fn parse_json(text: &str) -> (r: Option<Json>)
    ensures
        r == json_of(text@),
{
    match serde_json::from_str::<serde_json::Value>(text) {
        Ok(v) => Some(value_to_json(&v)),
        Err(_) => None,
    }
}

/// The value of the first member named `key`.
pub open spec fn lookup(members: Seq<(String, Json)>, key: Seq<char>) -> Option<Json>
    decreases members.len(),
{
    if members.len() == 0 {
        None
    } else if members[0].0@ == key {
        Some(members[0].1)
    } else {
        lookup(members.drop_first(), key)
    }
}

/// The member `key` of an object (`serde_json::Value::get`); `None` for a
/// value that is not an object or has no such member.
pub open spec fn field(v: Json, key: Seq<char>) -> Option<Json> {
    match v {
        Json::Object(members) => lookup(members@, key),
        _ => None,
    }
}

/// The member `key` of an object, by reference.
pub fn get_field<'a>(v: &'a Json, key: &str) -> (r: Option<&'a Json>)
    ensures
        match r {
            Some(x) => field(*v, key@) == Some(*x),
            None => field(*v, key@) is None,
        },
{
    match v {
        Json::Object(members) => {
            let mut i: usize = 0;
            proof {
                assert(members@.subrange(0, members@.len() as int) =~= members@);
            }
            while i < members.len()
                invariant
                    i <= members@.len(),
                    field(*v, key@) == lookup(members@, key@),
                    lookup(members@.subrange(i as int, members@.len() as int), key@) == lookup(members@, key@),
                decreases members@.len() - i,
            {
                let ghost rest = members@.subrange(i as int, members@.len() as int);
                proof {
                    assert(rest[0] == members@[i as int]);
                    assert(rest.drop_first() =~= members@.subrange(i + 1, members@.len() as int));
                }
                if str_eq(members[i].0.as_str(), key) {
                    return Some(&members[i].1);
                }
                i += 1;
            }
            proof {
                assert(members@.subrange(members@.len() as int, members@.len() as int).len() == 0);
            }
            None
        },
        _ => None,
    }
}

} // verus!

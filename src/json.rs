//! A JSON document as plain data, read from bytes by serde_json.

use vstd::prelude::*;
use vstd::string::StringExecFns;

verus! {

#[verifier::external_type_specification]
#[verifier::external_body]
pub struct ExJsonValue(serde_json::Value);

/// A JSON value. A number keeps its value where it is a non-negative
/// integer within `u64`, and `None` otherwise. An object read by serde_json
/// holds each key once, in the order of serde_json's map.
#[derive(Debug)]
pub enum Json {
    Null,
    Bool(bool),
    Number(Option<u64>),
    Str(String),
    Array(Vec<Json>),
    Object(Vec<(String, Json)>),
}

/// The document that serde_json reads from a byte string, or `None` where
/// the bytes are not one JSON document.
pub uninterp spec fn json_document(bytes: Seq<u8>) -> Option<Json>;

/// Relies on `serde_json::from_slice::<serde_json::Value>`: the document it
/// reads depends on the bytes alone; on failure its error text is returned.
#[verifier::external_body]
pub(crate) fn parse_json(bytes: &[u8]) -> (r: Result<Json, String>)
    ensures
        r matches Ok(j) ==> json_document(bytes@) == Some(j),
        r is Err ==> json_document(bytes@) is None,
{
    match serde_json::from_slice::<serde_json::Value>(bytes) {
        Ok(v) => Ok(json_from_value(&v)),
        Err(e) => Err(e.to_string()),
    }
}

/// Relies on the variants of `serde_json::Value` and on `Number::as_u64`:
/// copies a value into a `Json` tree, member for member.
#[verifier::external_body]
fn json_from_value(v: &serde_json::Value) -> Json {
    match v {
        serde_json::Value::Null => Json::Null,
        serde_json::Value::Bool(b) => Json::Bool(*b),
        serde_json::Value::Number(n) => Json::Number(n.as_u64()),
        serde_json::Value::String(s) => Json::Str(s.clone()),
        serde_json::Value::Array(a) => Json::Array(a.iter().map(json_from_value).collect()),
        serde_json::Value::Object(m) => Json::Object(
            m.iter().map(|(k, x)| (k.clone(), json_from_value(x))).collect(),
        ),
    }
}

/// The member of an object's member list with this key; where a key occurs
/// twice, the later one counts.
pub open spec fn lookup(members: Seq<(String, Json)>, key: Seq<char>) -> Option<Json>
    decreases members.len(),
{
    if members.len() == 0 {
        None
    } else if members.last().0@ == key {
        Some(members.last().1)
    } else {
        lookup(members.drop_last(), key)
    }
}

/// The member of `j` with this key, if `j` is an object that has one.
pub open spec fn field(j: Json, key: Seq<char>) -> Option<Json> {
    match j {
        Json::Object(members) => lookup(members@, key),
        _ => None,
    }
}

/// The member of `j` with this key, if `j` is an object that has one.
pub fn get_field<'a>(j: &'a Json, key: &str) -> (r: Option<&'a Json>)
    ensures
        match r {
            Some(v) => field(*j, key@) == Some(*v),
            None => field(*j, key@) is None,
        },
{
    match j {
        Json::Object(members) => {
            let wanted = key.to_owned();
            let mut found: Option<&'a Json> = None;
            let mut i: usize = 0;
            while i < members.len()
                invariant
                    i <= members@.len(),
                    match found {
                        Some(v) => lookup(members@.take(i as int), key@) == Some(*v),
                        None => lookup(members@.take(i as int), key@) is None,
                    },
                    wanted@ == key@,
                decreases members@.len() - i,
            {
                proof {
                    assert(members@.take(i + 1).drop_last() =~= members@.take(i as int));
                }
                if members[i].0 == wanted {
                    found = Some(&members[i].1);
                }
                i = i + 1;
            }
            proof {
                assert(members@.take(members@.len() as int) =~= members@);
            }
            found
        },
        _ => None,
    }
}

/// The text of a required string member, or `None` where it is missing or
/// not a string.
pub open spec fn read_text(f: Option<Json>) -> Option<Seq<char>> {
    match f {
        Some(Json::Str(s)) => Some(s@),
        _ => None,
    }
}

/// An optional string member: absent or null reads as `Some(None)`; the
/// outer `None` means it has another type.
pub open spec fn read_opt_text(f: Option<Json>) -> Option<Option<Seq<char>>> {
    match f {
        None => Some(None),
        Some(Json::Null) => Some(None),
        Some(Json::Str(s)) => Some(Some(s@)),
        _ => None,
    }
}

/// A required boolean member.
pub open spec fn read_flag(f: Option<Json>) -> Option<bool> {
    match f {
        Some(Json::Bool(b)) => Some(b),
        _ => None,
    }
}

/// A required integer member within `0..=max`.
pub open spec fn read_bounded(f: Option<Json>, max: u64) -> Option<u64> {
    match f {
        Some(Json::Number(Some(n))) => if n <= max { Some(n) } else { None },
        _ => None,
    }
}

/// An optional integer member within `0..=max`: absent or null reads as
/// `Some(None)`.
pub open spec fn read_opt_bounded(f: Option<Json>, max: u64) -> Option<Option<u64>> {
    match f {
        None => Some(None),
        Some(Json::Null) => Some(None),
        Some(Json::Number(Some(n))) => if n <= max { Some(Some(n)) } else { None },
        _ => None,
    }
}

/// The text view of an optional string.
pub open spec fn opt_view(o: Option<String>) -> Option<Seq<char>> {
    match o {
        Some(s) => Some(s@),
        None => None,
    }
}

/// The numeric view of an optional `u32`.
pub open spec fn opt_u64(o: Option<u32>) -> Option<u64> {
    match o {
        Some(n) => Some(n as u64),
        None => None,
    }
}

/// The description of a member that could not be read.
pub fn field_error(key: &str) -> (r: String)
    ensures
        r@ == "invalid or missing field `"@ + key@ + "`"@,
{
    let mut r = String::from_str("invalid or missing field `");
    r.append(key);
    r.append("`");
    r
}

/// A required string member.
pub fn text_member(j: &Json, key: &str) -> (r: Result<String, String>)
    ensures
        r is Ok <==> read_text(field(*j, key@)) is Some,
        r matches Ok(s) ==> read_text(field(*j, key@)) == Some(s@),
{
    match get_field(j, key) {
        Some(Json::Str(s)) => Ok(s.clone()),
        _ => Err(field_error(key)),
    }
}

/// An optional string member.
pub fn opt_text_member(j: &Json, key: &str) -> (r: Result<Option<String>, String>)
    ensures
        r is Ok <==> read_opt_text(field(*j, key@)) is Some,
        r matches Ok(o) ==> read_opt_text(field(*j, key@)) == Some(opt_view(o)),
{
    match get_field(j, key) {
        None => Ok(None),
        Some(Json::Null) => Ok(None),
        Some(Json::Str(s)) => Ok(Some(s.clone())),
        _ => Err(field_error(key)),
    }
}

/// A required boolean member.
pub fn flag_member(j: &Json, key: &str) -> (r: Result<bool, String>)
    ensures
        r is Ok <==> read_flag(field(*j, key@)) is Some,
        r matches Ok(b) ==> read_flag(field(*j, key@)) == Some(b),
{
    match get_field(j, key) {
        Some(Json::Bool(b)) => Ok(*b),
        _ => Err(field_error(key)),
    }
}

/// A required integer member within `0..=max`.
pub fn bounded_member(j: &Json, key: &str, max: u64) -> (r: Result<u64, String>)
    ensures
        r is Ok <==> read_bounded(field(*j, key@), max) is Some,
        r matches Ok(n) ==> read_bounded(field(*j, key@), max) == Some(n) && n <= max,
{
    match get_field(j, key) {
        Some(Json::Number(Some(n))) => if *n <= max {
            Ok(*n)
        } else {
            Err(field_error(key))
        },
        _ => Err(field_error(key)),
    }
}

/// An optional integer member within `0..=max`.
pub fn opt_bounded_member(j: &Json, key: &str, max: u64) -> (r: Result<Option<u64>, String>)
    ensures
        r is Ok <==> read_opt_bounded(field(*j, key@), max) is Some,
        r matches Ok(o) ==> read_opt_bounded(field(*j, key@), max) == Some(o)
            && (o matches Some(n) ==> n <= max),
{
    match get_field(j, key) {
        None => Ok(None),
        Some(Json::Null) => Ok(None),
        Some(Json::Number(Some(n))) => if *n <= max {
            Ok(Some(*n))
        } else {
            Err(field_error(key))
        },
        _ => Err(field_error(key)),
    }
}

} // verus!

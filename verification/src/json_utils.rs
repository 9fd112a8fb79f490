//! The JSON documents the pipeline reads, modelled as a plain tree.
//!
//! Parsing itself is delegated to the `serde_json` crate behind a single
//! trusted wrapper; everything the pipeline then does with a parsed document
//! — field lookup, array access, walking a key path — is verified against
//! the `Json` tree the wrapper hands back.

use vstd::prelude::*;
use crate::error::{AppError, ErrModel};
use crate::strutil::str_eq_str;

verus! {

/// A parsed JSON document.
///
/// Numbers that are not unsigned integers appear as `Other`: the pipeline
/// only ever reads unsigned counts and percentages, and treats every other
/// number the same as a value of the wrong shape.
#[derive(Debug, PartialEq, Eq)]
pub enum Json {
    Null,
    Bool(bool),
    UInt(u64),
    /// A number that is not an unsigned 64-bit integer.
    Other,
    Str(String),
    Arr(Vec<Json>),
    Obj(Vec<(String, Json)>),
}

/// What `serde_json` parses `s` to, translated into the `Json` tree:
/// `None` when `s` is not well-formed JSON.
pub uninterp spec fn json_of(s: Seq<char>) -> Option<Json>;

/// Declares `serde_json::Value` so that the trusted translation below may
/// take one; the pipeline never looks inside a value of it.
#[verifier::external_type_specification]
#[verifier::external_body]
pub struct ExValue(serde_json::Value);

/// Translates a `serde_json` value into the pipeline's own tree, one variant
/// to one variant; integer numbers that fit `u64` keep their value, every
/// other number becomes `Json::Other`.
#[verifier::external_body]
fn value_to_json(v: &serde_json::Value) -> Json {
    match v {
        serde_json::Value::Null => Json::Null,
        serde_json::Value::Bool(b) => Json::Bool(*b),
        serde_json::Value::Number(n) => match n.as_u64() {
            Some(u) => Json::UInt(u),
            None => Json::Other,
        },
        serde_json::Value::String(s) => Json::Str(s.clone()),
        serde_json::Value::Array(a) => Json::Arr(a.iter().map(value_to_json).collect()),
        serde_json::Value::Object(m) => Json::Obj(
            m.iter().map(|(k, val)| (k.clone(), value_to_json(val))).collect(),
        ),
    }
}

/// Relies on `serde_json::from_str::<Value>`: whether a document parses, and
/// the value it parses to, depend on the characters alone.
#[verifier::external_body]
pub fn parse_json_str(s: &str) -> (r: Option<Json>)
    ensures
        r == json_of(s@),
{
    match serde_json::from_str::<serde_json::Value>(s) {
        Ok(v) => Some(value_to_json(&v)),
        Err(_) => None,
    }
}

/// The value under `key` in `entries`, searching from position `i` on:
/// the first entry with a matching key wins.
pub open spec fn obj_find(entries: Seq<(String, Json)>, key: Seq<char>, i: int) -> Option<Json>
    decreases entries.len() - i,
{
    if i < 0 || i >= entries.len() {
        None
    } else if entries[i].0@ == key {
        Some(entries[i].1)
    } else {
        obj_find(entries, key, i + 1)
    }
}

/// The value under `key` when `j` is an object that has it, as indexing a
/// `serde_json` value does: anything else yields nothing.
pub open spec fn get_field(j: Json, key: Seq<char>) -> Option<Json> {
    match j {
        Json::Obj(entries) => obj_find(entries@, key, 0),
        _ => None,
    }
}

/// The string under `key`, when `j` is an object holding a string there.
pub open spec fn get_str_field(j: Json, key: Seq<char>) -> Option<String> {
    match get_field(j, key) {
        Some(Json::Str(s)) => Some(s),
        _ => None,
    }
}

/// The array under `key`, when `j` is an object holding an array there.
pub open spec fn get_arr_field(j: Json, key: Seq<char>) -> Option<Seq<Json>> {
    match get_field(j, key) {
        Some(Json::Arr(items)) => Some(items@),
        _ => None,
    }
}

/// Looks `key` up in `j`, as indexing a `serde_json` value does.
pub fn json_get<'a>(j: &'a Json, key: &str) -> (r: Option<&'a Json>)
    ensures
        match r {
            Some(v) => get_field(*j, key@) == Some(*v),
            None => get_field(*j, key@) is None,
        },
{
    match j {
        Json::Obj(entries) => {
            let mut i: usize = 0;
            while i < entries.len()
                invariant
                    i <= entries.len(),
                    *j == Json::Obj(*entries),
                    obj_find(entries@, key@, 0) == obj_find(entries@, key@, i as int),
                decreases entries.len() - i,
            {
                if str_eq_str(entries[i].0.as_str(), key) {
                    proof {
                        assert(obj_find(entries@, key@, i as int) == Some(entries@[i as int].1));
                    }
                    return Some(&entries[i].1);
                }
                i = i + 1;
            }
            None
        },
        _ => None,
    }
}

/// Looks up the string under `key`.
pub fn json_get_str<'a>(j: &'a Json, key: &str) -> (r: Option<&'a String>)
    ensures
        match r {
            Some(s) => get_str_field(*j, key@) == Some(*s),
            None => get_str_field(*j, key@) is None,
        },
{
    match json_get(j, key) {
        Some(v) => match v {
            Json::Str(s) => Some(s),
            _ => None,
        },
        None => None,
    }
}

/// Takes the value under `key` out of `j`, handing it back owned.
pub fn take_field(j: Json, key: &str) -> (r: Option<Json>)
    ensures
        match r {
            Some(v) => get_field(j, key@) == Some(v),
            None => get_field(j, key@) is None,
        },
{
    match j {
        Json::Obj(mut entries) => {
            let ghost entries0: Seq<(String, Json)> = entries@;
            let mut i: usize = 0;
            while i < entries.len()
                invariant
                    i <= entries.len(),
                    entries@ == entries0,
                    get_field(j, key@) == obj_find(entries0, key@, i as int),
                decreases entries.len() - i,
            {
                if str_eq_str(entries[i].0.as_str(), key) {
                    proof {
                        assert(obj_find(entries0, key@, i as int) == Some(entries0[i as int].1));
                    }
                    let pair = entries.swap_remove(i);
                    return Some(pair.1);
                }
                i = i + 1;
            }
            None
        },
        _ => None,
    }
}

/// The boolean under `key`, when `j` is an object holding one there.
pub open spec fn get_bool_field(j: Json, key: Seq<char>) -> Option<bool> {
    match get_field(j, key) {
        Some(Json::Bool(b)) => Some(b),
        _ => None,
    }
}

/// The unsigned 32-bit number under `key`, when `j` is an object holding one
/// there.
pub open spec fn get_u32_field(j: Json, key: Seq<char>) -> Option<u32> {
    match get_field(j, key) {
        Some(Json::UInt(u)) => if u <= u32::MAX {
            Some(u as u32)
        } else {
            None
        },
        _ => None,
    }
}

/// An optional string field: absent and `null` both count as nothing, a
/// string counts as a value, anything else is a shape error.
pub open spec fn opt_str_field(j: Json, key: Seq<char>) -> Result<Option<String>, ()> {
    match get_field(j, key) {
        None => Ok(None),
        Some(Json::Null) => Ok(None),
        Some(Json::Str(s)) => Ok(Some(s)),
        _ => Err(()),
    }
}

/// An optional unsigned 32-bit field, read as `opt_str_field` reads strings.
pub open spec fn opt_u32_field(j: Json, key: Seq<char>) -> Result<Option<u32>, ()> {
    match get_field(j, key) {
        None => Ok(None),
        Some(Json::Null) => Ok(None),
        Some(Json::UInt(u)) => if u <= u32::MAX {
            Ok(Some(u as u32))
        } else {
            Err(())
        },
        _ => Err(()),
    }
}

/// Looks up the boolean under `key`.
pub fn json_get_bool(j: &Json, key: &str) -> (r: Option<bool>)
    ensures
        r == get_bool_field(*j, key@),
{
    match json_get(j, key) {
        Some(v) => match v {
            Json::Bool(b) => Some(*b),
            _ => None,
        },
        None => None,
    }
}

/// Looks up the unsigned 32-bit number under `key`.
pub fn json_get_u32(j: &Json, key: &str) -> (r: Option<u32>)
    ensures
        r == get_u32_field(*j, key@),
{
    match json_get(j, key) {
        Some(v) => match v {
            Json::UInt(u) => if *u <= 0xffff_ffff {
                Some(*u as u32)
            } else {
                None
            },
            _ => None,
        },
        None => None,
    }
}

/// Reads the optional string under `key`, as `opt_str_field` does.
pub fn json_get_opt_str(j: &Json, key: &str) -> (r: Result<Option<String>, ()>)
    ensures
        match r {
            Ok(o) => opt_str_field(*j, key@) == Ok::<Option<String>, ()>(o),
            Err(u) => opt_str_field(*j, key@) is Err,
        },
{
    match json_get(j, key) {
        None => Ok(None),
        Some(v) => match v {
            Json::Null => Ok(None),
            Json::Str(s) => Ok(Some(s.clone())),
            _ => Err(()),
        },
    }
}

/// Reads the optional unsigned 32-bit number under `key`, as `opt_u32_field`
/// does.
pub fn json_get_opt_u32(j: &Json, key: &str) -> (r: Result<Option<u32>, ()>)
    ensures
        match r {
            Ok(o) => opt_u32_field(*j, key@) == Ok::<Option<u32>, ()>(o),
            Err(u) => opt_u32_field(*j, key@) is Err,
        },
{
    match json_get(j, key) {
        None => Ok(None),
        Some(v) => match v {
            Json::Null => Ok(None),
            Json::UInt(u) => if *u <= 0xffff_ffff {
                Ok(Some(*u as u32))
            } else {
                Err(())
            },
            _ => Err(()),
        },
    }
}

/// The views of a list of keys.
pub open spec fn key_views(keys: Seq<&str>) -> Seq<Seq<char>> {
    keys.map_values(|k: &str| k@)
}

/// The result of following `keys` through `root` from position `i` on, the
/// error being the key that was not there.
pub open spec fn nested_lookup(root: Json, keys: Seq<Seq<char>>, i: int) -> Result<Json, Seq<char>>
    decreases keys.len() - i,
{
    if i < 0 || i >= keys.len() {
        Ok(root)
    } else {
        match get_field(root, keys[i]) {
            Some(v) => nested_lookup(v, keys, i + 1),
            None => Err(keys[i]),
        }
    }
}

/// Parses `json_content` and follows the given key path into it.
///
/// Fails with `Parse` when the document is not well-formed JSON, and with
/// `MissingField`, naming the key, when some step of the path is not there
/// (or the value at that step is not an object).
pub fn extract_nested_value(json_content: &str, keys: &[&str]) -> (r: Result<Json, AppError>)
    ensures
        match r {
            Ok(v) => json_of(json_content@) matches Some(root) && nested_lookup(
                root,
                key_views(keys@),
                0,
            ) == Ok::<Json, Seq<char>>(v),
            Err(e) => match e@ {
                ErrModel::Parse(m) => json_of(json_content@) is None && m == "malformed JSON"@,
                ErrModel::MissingField(m) => json_of(json_content@) matches Some(root)
                    && nested_lookup(root, key_views(keys@), 0) == Err::<Json, Seq<char>>(m),
                _ => false,
            },
        },
{
    let parsed = parse_json_str(json_content);
    let mut cur: Json = match parsed {
        Some(root) => root,
        None => {
            return Err(AppError::Parse("malformed JSON".to_owned()));
        },
    };
    let ghost root0: Json = cur;
    let mut i: usize = 0;
    while i < keys.len()
        invariant
            i <= keys.len(),
            nested_lookup(root0, key_views(keys@), 0) == nested_lookup(
                cur,
                key_views(keys@),
                i as int,
            ),
            json_of(json_content@) == Some(root0),
        decreases keys.len() - i,
    {
        let key: &str = keys[i];
        match take_field(cur, key) {
            Some(v) => {
                cur = v;
            },
            None => {
                return Err(AppError::MissingField(key.to_owned()));
            },
        }
        i = i + 1;
    }
    Ok(cur)
}

} // verus!

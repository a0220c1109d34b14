//! Reading fields out of JSON object bytes.
//!
//! Inbound frames carry JSON objects produced by the kernel. The library
//! does not re-implement a JSON parser: each accessor below hands the bytes
//! to `serde_json` and converts the field it finds to a plain value. What
//! an accessor returns is a function of the bytes and the key alone, so each
//! result is given a name here, and the decoding logic is specified and
//! verified over those names.

use vstd::prelude::*;

verus! {

/// The string field stored under `key` in the JSON object `obj`, if `obj`
/// parses as a JSON object and the field is present and is a string.
pub uninterp spec fn json_str_field(obj: Seq<u8>, key: Seq<char>) -> Option<Seq<char>>;

/// The boolean field stored under `key` in the JSON object `obj`.
pub uninterp spec fn json_bool_field(obj: Seq<u8>, key: Seq<char>) -> Option<bool>;

/// The non-negative integer field stored under `key` in the JSON object `obj`.
pub uninterp spec fn json_u64_field(obj: Seq<u8>, key: Seq<char>) -> Option<u64>;

/// The array-of-strings field stored under `key` in the JSON object `obj`.
pub uninterp spec fn json_str_list_field(obj: Seq<u8>, key: Seq<char>) -> Option<Seq<Seq<char>>>;

/// The field stored under `key` in the JSON object `obj`, re-serialised as
/// compact JSON bytes.
pub uninterp spec fn json_raw_field(obj: Seq<u8>, key: Seq<char>) -> Option<Seq<u8>>;

/// Relies on `serde_json::from_slice`, `serde_json::Value::get` and
/// `serde_json::Value::as_str`: the string under `key`, or `None` when the
/// bytes do not parse as a JSON object holding a string there.
#[verifier::external_body]
pub fn get_str_field(obj: &[u8], key: &str) -> (r: Option<String>)
    ensures
        match r {
            Some(s) => json_str_field(obj@, key@) == Some(s@),
            None => json_str_field(obj@, key@) is None,
        },
{
    let v: serde_json::Value = serde_json::from_slice(obj).ok()?;
    Some(v.get(key)?.as_str()?.to_string())
}

/// Relies on `serde_json::from_slice`, `serde_json::Value::get` and
/// `serde_json::Value::as_bool`: the boolean under `key`, or `None` when the
/// bytes do not parse as a JSON object holding a boolean there.
#[verifier::external_body]
pub fn get_bool_field(obj: &[u8], key: &str) -> (r: Option<bool>)
    ensures
        r == json_bool_field(obj@, key@),
{
    let v: serde_json::Value = serde_json::from_slice(obj).ok()?;
    v.get(key)?.as_bool()
}

/// Relies on `serde_json::from_slice`, `serde_json::Value::get` and
/// `serde_json::Value::as_u64`: the non-negative integer under `key`, or
/// `None` when the bytes do not parse as a JSON object holding one there.
#[verifier::external_body]
pub fn get_u64_field(obj: &[u8], key: &str) -> (r: Option<u64>)
    ensures
        r == json_u64_field(obj@, key@),
{
    let v: serde_json::Value = serde_json::from_slice(obj).ok()?;
    v.get(key)?.as_u64()
}

/// Relies on `serde_json::from_slice`, `serde_json::Value::get`,
/// `serde_json::Value::as_array` and `serde_json::Value::as_str`: the array
/// of strings under `key`, or `None` when the bytes do not parse as a JSON
/// object holding an array of strings there.
#[verifier::external_body]
pub fn get_str_list_field(obj: &[u8], key: &str) -> (r: Option<Vec<String>>)
    ensures
        match r {
            Some(items) => json_str_list_field(obj@, key@) == Some(items.deep_view()),
            None => json_str_list_field(obj@, key@) is None,
        },
{
    let v: serde_json::Value = serde_json::from_slice(obj).ok()?;
    let arr = v.get(key)?.as_array()?;
    arr.iter().map(|item| item.as_str().map(|s| s.to_string())).collect()
}

/// Relies on `serde_json::from_slice`, `serde_json::Value::get` and
/// `serde_json::to_vec`: the value under `key` re-serialised as compact
/// JSON bytes, or `None` when the bytes do not parse as a JSON object with
/// that field.
#[verifier::external_body]
pub fn get_raw_field(obj: &[u8], key: &str) -> (r: Option<Vec<u8>>)
    ensures
        match r {
            Some(b) => json_raw_field(obj@, key@) == Some(b@),
            None => json_raw_field(obj@, key@) is None,
        },
{
    let v: serde_json::Value = serde_json::from_slice(obj).ok()?;
    let field = v.get(key)?;
    serde_json::to_vec(field).ok()
}

} // verus!

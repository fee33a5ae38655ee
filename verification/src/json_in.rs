//! Trusted reading of inbound JSON frames.
//!
//! Inbound frames are parsed by serde_json; what a field of a given frame
//! holds is named by uninterpreted spec functions, and everything the
//! dispatcher decides from those fields is verified against the names.

use vstd::prelude::*;

verus! {

/// The string value of the top-level field `key` of the JSON object in `s`,
/// `None` when `s` is not a JSON object, has no such field, or the field is
/// not a string. Determined by the frame text alone.
pub uninterp spec fn json_str_field(s: Seq<char>, key: Seq<char>) -> Option<Seq<char>>;

/// Relies on serde_json::from_str, Value::get and Value::as_str: reads the
/// string field `key` of the JSON object in `s`.
#[verifier::external_body]
pub(crate) fn get_str_field(s: &str, key: &str) -> (r: Option<String>)
    ensures
        match r {
            Option::Some(v) => json_str_field(s@, key@) == Option::Some(v@),
            Option::None => json_str_field(s@, key@) is None,
        },
{
    match serde_json::from_str::<serde_json::Value>(s) {
        Ok(v) => v.get(key).and_then(|f| f.as_str()).map(|t| t.to_string()),
        Err(_) => None,
    }
}

/// The array of integers under the top-level field `key` of the JSON object
/// in `s`; `None` when `s` is not a JSON object, the field is missing or not
/// an array, or any element is not an integer.
pub uninterp spec fn json_i64_array_field(s: Seq<char>, key: Seq<char>) -> Option<Seq<i64>>;

/// Relies on serde_json::from_str, Value::get, Value::as_array and
/// Value::as_i64: reads the integer-array field `key` of the JSON object in
/// `s`.
#[verifier::external_body]
pub(crate) fn get_i64_array_field(s: &str, key: &str) -> (r: Option<Vec<i64>>)
    ensures
        match r {
            Option::Some(v) => json_i64_array_field(s@, key@) == Option::Some(v@),
            Option::None => json_i64_array_field(s@, key@) is None,
        },
{
    let parsed: serde_json::Value = match serde_json::from_str(s) {
        Ok(v) => v,
        Err(_) => return None,
    };
    let arr = match parsed.get(key).and_then(|f| f.as_array()) { Some(a) => a, None => return None };
    let mut out: Vec<i64> = Vec::new();
    for item in arr {
        match item.as_i64() {
            Some(n) => out.push(n),
            None => return None,
        }
    }
    Some(out)
}

} // verus!

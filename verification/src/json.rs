//! The trusted boundary around serde_json: requests arrive as one JSON
//! object per read, and these wrappers parse the buffer and extract one
//! field each. What a given buffer holds under a given key is a
//! deterministic function of the two, so each extraction carries a name
//! that the decode contract is stated over; everything decided from the
//! extracted fields is verified in the protocol module.

use vstd::prelude::*;

verus! {

/// The text under `key` in the JSON object that `buf` parses to: `None`
/// for a malformed document, a missing field, or a field that is not a
/// string. A function of the buffer and key alone.
pub uninterp spec fn json_str_field(buf: Seq<u8>, key: Seq<char>) -> Option<Seq<char>>;

/// The integer under `key` in the JSON object that `buf` parses to:
/// `None` for a malformed document, a missing field, or a field that is
/// not an integer fitting 64 signed bits. A function of the buffer and
/// key alone.
pub uninterp spec fn json_int_field(buf: Seq<u8>, key: Seq<char>) -> Option<i64>;

/// Relies on serde_json: `from_slice` parses the buffer as one JSON
/// document, failing on malformed input instead of panicking; `Value::get`
/// looks the key up in an object; `Value::as_str` reads a string field's
/// text. All three are total and depend on the buffer and key alone.
#[verifier::external_body]
pub(crate) fn get_str_field(buf: &[u8], key: &str) -> (r: Option<String>)
    ensures
        r.is_some() == json_str_field(buf@, key@).is_some(),
        r matches Some(s) ==> json_str_field(buf@, key@) == Some(s@),
{
    let v: serde_json::Value = serde_json::from_slice(buf).ok()?;
    Some(v.get(key)?.as_str()?.to_owned())
}

/// Relies on serde_json: `from_slice` parses the buffer, `Value::get`
/// looks the key up, and `Value::as_i64` reads an integer field. All
/// three are total and depend on the buffer and key alone.
#[verifier::external_body]
pub(crate) fn get_int_field(buf: &[u8], key: &str) -> (r: Option<i64>)
    ensures
        r == json_int_field(buf@, key@),
{
    let v: serde_json::Value = serde_json::from_slice(buf).ok()?;
    v.get(key)?.as_i64()
}

} // verus!

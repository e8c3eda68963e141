//! Trusted boundary to the JSON parser. The health probe identifies the
//! target's control API by the shape of its JSON answers; parsing the text
//! is delegated to `serde_json`, and everything decided on the parsed value
//! is verified code working over plain booleans.

use vstd::prelude::*;

verus! {

/// Whether a text parses as JSON. The parser accepts a text or not as a
/// function of the text alone.
pub uninterp spec fn json_parses(s: Seq<char>) -> bool;

#[verifier::external_type_specification]
#[verifier::external_body]
pub struct ExValue(serde_json::Value);

/// Relies on `serde_json::from_str::<Value>`: parses the text, or fails;
/// acceptance depends on the text alone.
#[verifier::external_body]
pub fn parse_json(s: &str) -> (r: Option<serde_json::Value>)
    ensures
        r is Some == json_parses(s@),
{
    match serde_json::from_str::<serde_json::Value>(s) {
        Ok(v) => Some(v),
        Err(_) => None,
    }
}

/// Relies on `serde_json::Value::get`: the named member of a JSON object,
/// absent for non-objects and missing keys.
#[verifier::external_body]
pub fn json_get<'a>(v: &'a serde_json::Value, key: &str) -> (r: Option<
    &'a serde_json::Value,
>) {
    v.get(key)
}

/// What the probe reads off one response body: whether it parsed, and
/// whether the two identifying members are present.
#[derive(Debug, Clone, Copy)]
pub struct BodyShape {
    pub parsed: bool,
    pub has_success: bool,
    pub has_data_list: bool,
}

/// Inspect a response body: parse it and look for the `success` member and
/// the `list` member nested under `data`. Field presence is read off the
/// parsed value; whether the text parses at all is pinned to the text.
pub fn inspect_body(body: &str) -> (r: BodyShape)
    ensures
        r.parsed == json_parses(body@),
        !r.parsed ==> !r.has_success && !r.has_data_list,
{
    match parse_json(body) {
        None => BodyShape { parsed: false, has_success: false, has_data_list: false },
        Some(v) => {
            let has_success = json_get(&v, "success").is_some();
            let has_data_list = match json_get(&v, "data") {
                Some(d) => json_get(d, "list").is_some(),
                None => false,
            };
            BodyShape { parsed: true, has_success, has_data_list }
        },
    }
}

/// The structural fingerprint of the target's API: the body parsed and both
/// identifying members are present.
pub open spec fn spec_shape_ok(shape: BodyShape) -> bool {
    shape.parsed && shape.has_success && shape.has_data_list
}

/// Whether an inspected body carries the API fingerprint.
pub fn shape_ok(shape: &BodyShape) -> (r: bool)
    ensures
        r == spec_shape_ok(*shape),
{
    shape.parsed && shape.has_success && shape.has_data_list
}

} // verus!

//! Decoding of raw response bodies into the success-or-error envelope.
//!
//! The master answers every call with HTTP 200 and a flat JSON object:
//! on success the payload's fields at top level, on failure an `error`
//! string. The field reads are named functions of the body bytes, so each
//! decoder pins its result for every body: the `error` field wins, a body
//! with all of the payload's fields decodes to exactly those values, and
//! a body that is not JSON, or matches neither shape, is an unexpected
//! response.

use vstd::prelude::*;

use crate::types::responses::AssignResponse;
use crate::types::responses::LookupResponse;
use crate::types::responses::Response;
use crate::types::responses::ResponseError;
use crate::types::responses::WriteResponse;
use crate::types::Location;

verus! {

/// Whether a byte sequence is a JSON document serde_json accepts; a
/// function of the bytes alone.
pub uninterp spec fn json_parses(body: Seq<u8>) -> bool;

/// The string at `key` of the JSON object `body` parses to, when `body`
/// parses to an object holding a string there; a function of the bytes
/// and the key alone.
pub uninterp spec fn json_str_field(body: Seq<u8>, key: Seq<char>) -> Option<Seq<char>>;

/// The unsigned integer at `key` of the JSON object `body` parses to,
/// when it holds one that fits in a `u64`; a function of the bytes and
/// the key alone.
pub uninterp spec fn json_u64_field(body: Seq<u8>, key: Seq<char>) -> Option<u64>;

/// The `locations` array of the JSON object `body` parses to, as its
/// (`publicUrl`, `url`) string pairs in order, when every entry has that
/// shape; a function of the bytes alone.
pub uninterp spec fn json_locations(body: Seq<u8>) -> Option<Seq<(Seq<char>, Seq<char>)>>;

/// Relies on serde_json (`from_slice::<Value>`, `Value::get`,
/// `Value::as_str`): the string under `key` of the top-level object,
/// `None` when the body does not parse, is no object, lacks the key, or
/// holds something other than a string there.
#[verifier::external_body]
fn get_str_field(body: &[u8], key: &str) -> (r: Option<String>)
    ensures
        (r is Some) == (json_str_field(body@, key@) is Some),
        r matches Some(s) ==> json_str_field(body@, key@) == Some(s@),
        r is Some ==> json_parses(body@),
{
    let v: serde_json::Value = match serde_json::from_slice(body) {
        Ok(v) => v,
        Err(_) => return None,
    };
    v.get(key).and_then(|f| f.as_str()).map(|s| s.to_owned())
}

/// Relies on serde_json (`from_slice::<Value>`, `Value::get`,
/// `Value::as_u64`): the unsigned integer under `key` of the top-level
/// object, `None` when the body does not parse, is no object, lacks the
/// key, or holds something other than an integer that fits in a `u64`.
#[verifier::external_body]
fn get_u64_field(body: &[u8], key: &str) -> (r: Option<u64>)
    ensures
        r == json_u64_field(body@, key@),
        r is Some ==> json_parses(body@),
{
    let v: serde_json::Value = match serde_json::from_slice(body) {
        Ok(v) => v,
        Err(_) => return None,
    };
    v.get(key).and_then(|f| f.as_u64())
}

/// Relies on serde_json (`from_slice::<Value>`, `Value::get`,
/// `Value::as_array`, `Value::as_str`): the `locations` array of the
/// top-level object as (`publicUrl`, `url`) pairs, one for one in order;
/// `None` when the body does not parse, the array is missing, or an
/// entry lacks one of the two string fields.
#[verifier::external_body]
fn get_locations_field(body: &[u8]) -> (r: Option<Vec<Location>>)
    ensures
        (r is Some) == (json_locations(body@) is Some),
        r matches Some(locations) ==> ({
            let l = json_locations(body@)->0;
            locations@.len() == l.len() && (forall|i: int|
                0 <= i < l.len() ==> (#[trigger] locations@[i]).public_url@ == l[i].0
                    && locations@[i].url@ == l[i].1)
        }),
        r is Some ==> json_parses(body@),
{
    let v: serde_json::Value = match serde_json::from_slice(body) {
        Ok(v) => v,
        Err(_) => return None,
    };
    let arr = v.get("locations")?.as_array()?;
    arr.iter().map(|entry| {
        Some(Location {
            public_url: entry.get("publicUrl")?.as_str()?.to_owned(),
            url: entry.get("url")?.as_str()?.to_owned(),
        })
    }).collect()
}

/// Whether a body holds every field of a ticket.
pub open spec fn assign_fields_present(body: Seq<u8>) -> bool {
    &&& json_u64_field(body, "count"@) is Some
    &&& json_str_field(body, "fid"@) is Some
    &&& json_str_field(body, "publicUrl"@) is Some
    &&& json_str_field(body, "url"@) is Some
}

/// Decode the body of an `assign` answer. An `error` field wins and
/// becomes the cluster-reported error with its message; otherwise a body
/// holding `count`, `fid`, `publicUrl` and `url` decodes to exactly that
/// ticket; any other body — a missing field, the wrong shape, or no JSON
/// at all — is an unexpected response.
pub fn decode_assign(body: &[u8]) -> (r: Result<AssignResponse, ResponseError>)
    ensures
        !json_parses(body@) ==> (r matches Err(e) && e is UnexpectedResponse),
        json_str_field(body@, "error"@) matches Some(m) ==> (r matches Err(e)
            && e matches ResponseError::WeedError(msg) && msg@ == m),
        json_str_field(body@, "error"@) is None && assign_fields_present(body@) ==> (r matches Ok(
            t,
        ) && Some(t.count) == json_u64_field(body@, "count"@) && Some(t.fid@) == json_str_field(
            body@,
            "fid"@,
        ) && Some(t.public_url@) == json_str_field(body@, "publicUrl"@) && Some(t.url@)
            == json_str_field(body@, "url"@)),
        json_str_field(body@, "error"@) is None && !assign_fields_present(body@) ==> (r matches Err(
            e,
        ) && e is UnexpectedResponse),
{
    let error = get_str_field(body, "error");
    let count = get_u64_field(body, "count");
    let fid = get_str_field(body, "fid");
    let public_url = get_str_field(body, "publicUrl");
    let url = get_str_field(body, "url");
    let response = match (count, fid, public_url, url) {
        (Some(count), Some(fid), Some(public_url), Some(url)) => Some(
            AssignResponse { count, fid, public_url, url },
        ),
        _ => None,
    };
    Response { response, error }.to_result()
}

/// Decode the body of a `lookup` answer. An `error` field wins and
/// becomes the cluster-reported error with its message; otherwise a
/// well-formed `locations` array (it may be empty) decodes to its
/// replica locations one for one, in order; any other body is an
/// unexpected response.
pub fn decode_lookup(body: &[u8]) -> (r: Result<LookupResponse, ResponseError>)
    ensures
        !json_parses(body@) ==> (r matches Err(e) && e is UnexpectedResponse),
        json_str_field(body@, "error"@) matches Some(m) ==> (r matches Err(e)
            && e matches ResponseError::WeedError(msg) && msg@ == m),
        json_locations(body@) is Some && json_str_field(body@, "error"@) is None ==> ({
            let l = json_locations(body@)->0;
            r matches Ok(resp) && resp.locations@.len() == l.len() && (forall|i: int|
                0 <= i < l.len() ==> (#[trigger] resp.locations@[i]).public_url@ == l[i].0
                    && resp.locations@[i].url@ == l[i].1)
        }),
        json_str_field(body@, "error"@) is None && json_locations(body@) is None ==> (r matches Err(
            e,
        ) && e is UnexpectedResponse),
{
    let error = get_str_field(body, "error");
    let response = match get_locations_field(body) {
        Some(locations) => Some(LookupResponse { locations }),
        None => None,
    };
    Response { response, error }.to_result()
}

/// Decode the body a volume server answers an upload with. An `error`
/// field wins and becomes the cluster-reported error with its message —
/// a failed write is never reported as success even though the HTTP
/// exchange succeeded; otherwise a body holding `size` decodes to
/// exactly that stored size; any other body is an unexpected response.
pub fn decode_write(body: &[u8]) -> (r: Result<WriteResponse, ResponseError>)
    ensures
        !json_parses(body@) ==> (r matches Err(e) && e is UnexpectedResponse),
        json_str_field(body@, "error"@) matches Some(m) ==> (r matches Err(e)
            && e matches ResponseError::WeedError(msg) && msg@ == m),
        json_u64_field(body@, "size"@) is Some && json_str_field(body@, "error"@) is None ==> (
        r matches Ok(w) && Some(w.size) == json_u64_field(body@, "size"@)),
        json_str_field(body@, "error"@) is None && json_u64_field(body@, "size"@) is None ==> (
        r matches Err(e) && e is UnexpectedResponse),
{
    let error = get_str_field(body, "error");
    let response = match get_u64_field(body, "size") {
        Some(size) => Some(WriteResponse { size }),
        None => None,
    };
    Response { response, error }.to_result()
}

} // verus!

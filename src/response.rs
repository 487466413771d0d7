//! What a response means: its status against the operation's declared
//! success status, and its body as JSON.
use vstd::prelude::*;
use crate::operation::Operation;

verus! {

#[verifier::external_type_specification]
#[verifier::external_body]
pub struct ExJsonValue(serde_json::Value);

#[verifier::external_type_specification]
#[verifier::external_body]
pub struct ExJsonError(serde_json::Error);

/// Whether serde_json reads a byte sequence as one JSON document.
pub uninterp spec fn json_valid(b: Seq<u8>) -> bool;

/// Relies on `serde_json::from_slice` into a `serde_json::Value`: whether it
/// succeeds depends on the bytes alone.
#[verifier::external_body]
fn parse_json(b: &[u8]) -> (r: Result<serde_json::Value, serde_json::Error>)
    ensures
        r is Ok <==> json_valid(b@),
{
    serde_json::from_slice(b)
}

/// The text of a byte sequence read as UTF-8, with each invalid sequence
/// replaced by U+FFFD.
pub uninterp spec fn utf8_lossy(b: Seq<u8>) -> Seq<char>;

/// Relies on `String::from_utf8_lossy`: its text depends on the bytes alone.
#[verifier::external_body]
fn lossy_text(b: &[u8]) -> (r: String)
    ensures
        r@ == utf8_lossy(b@),
{
    String::from_utf8_lossy(b).into_owned()
}

/// The decoded body of a successful response.
#[derive(Debug)]
pub enum Payload {
    /// The operation declares no response body.
    Empty,
    /// The body, parsed as JSON.
    Json(serde_json::Value),
}

/// Why an operation failed after its response arrived.
#[derive(Debug)]
pub enum ApiError {
    /// The status is not the one the operation declares for success.
    HttpStatus { status: u16 },
    /// The status was a success but the body is not JSON; carries the parse
    /// error and the body as text.
    DataConversion { source: serde_json::Error, body: String },
}

/// Turns the outcome of parsing a success body into the operation's result.
pub fn conversion_result(parsed: Result<serde_json::Value, serde_json::Error>, body: &[u8]) -> (r:
    Result<Payload, ApiError>)
    ensures
        parsed is Ok ==> r == Ok::<Payload, ApiError>(Payload::Json(parsed->Ok_0)),
        parsed is Err ==> (r matches Err(ApiError::DataConversion { source, body: text }) && source
            == parsed->Err_0 && text@ == utf8_lossy(body@)),
{
    match parsed {
        Ok(v) => Ok(Payload::Json(v)),
        Err(e) => Err(ApiError::DataConversion { source: e, body: lossy_text(body) }),
    }
}

/// What a response to `op` with `status` and `body` yields. A status other
/// than the declared success status is an error carrying that status,
/// whatever the body; on success the body is parsed when the operation
/// declares one, and a body that is not JSON is a conversion error.
pub open spec fn response_outcome(op: Operation, status: u16, body: Seq<u8>, r: Result<
    Payload,
    ApiError,
>) -> bool {
    if status != op.spec_success_status() {
        r matches Err(ApiError::HttpStatus { status: s }) && s == status
    } else if !op.spec_returns_value() {
        r matches Ok(Payload::Empty)
    } else if json_valid(body) {
        r matches Ok(Payload::Json(_))
    } else {
        r matches Err(ApiError::DataConversion { body: text, .. }) && text@ == utf8_lossy(body)
    }
}

/// Decides what a response to `op` means.
pub fn decode_response(op: Operation, status: u16, body: &[u8]) -> (r: Result<Payload, ApiError>)
    ensures
        response_outcome(op, status, body@, r),
{
    if status != op.success_status() {
        return Err(ApiError::HttpStatus { status });
    }
    if !op.returns_value() {
        return Ok(Payload::Empty);
    }
    conversion_result(parse_json(body), body)
}

} // verus!

//! JSON payload decoding through serde_json.
//!
//! A scanned payload is text; interpreting it as a JSON value is
//! serde_json's work. The parser is trusted only for this: whether it
//! accepts a text depends on the text alone.

use crate::errors::OpError;
use crate::scanner::{kind_token, scan_spec, MessageKind};
use vstd::prelude::*;

verus! {

#[verifier::external_type_specification]
#[verifier::external_body]
pub struct ExJsonValue(serde_json::Value);

#[verifier::external_type_specification]
#[verifier::external_body]
pub struct ExJsonError(serde_json::Error);

/// Whether serde_json accepts `text` as one well-formed JSON document.
pub uninterp spec fn json_parse_ok(text: Seq<char>) -> bool;

/// Relies on serde_json::from_str for serde_json::Value: it yields a value
/// exactly when the text is a well-formed JSON document, and which texts it
/// accepts depends on the text alone.
#[verifier::external_body]
fn parse_json_text(text: &str) -> (r: Result<serde_json::Value, serde_json::Error>)
    ensures
        r is Ok <==> json_parse_ok(text@),
{
    serde_json::from_str(text)
}

/// Interprets a scanned payload as a JSON value, mapping a parse failure to
/// the library's error: the result is a value exactly when the payload is
/// well-formed JSON.
pub fn decode_payload(text: &str) -> (r: Result<serde_json::Value, OpError>)
    ensures
        r is Ok <==> json_parse_ok(text@),
        r is Err ==> r == Err::<serde_json::Value, OpError>(OpError::MalformedPayloadError),
{
    match parse_json_text(text) {
        Ok(v) => Ok(v),
        Err(_) => Err(OpError::MalformedPayloadError),
    }
}

/// Scans collected output lines for the first message of `kind` and
/// interprets its payload as a JSON value: a value exactly when some line
/// carries the marker and its payload is well-formed JSON; the
/// message-not-found error exactly when no line carries the marker; the
/// malformed-payload error otherwise.
pub fn extract_message(lines: &Vec<String>, kind: MessageKind) -> (r: Result<
    serde_json::Value,
    OpError,
>)
    ensures
        match r {
            Ok(_) => {
                &&& scan_spec(lines.deep_view(), kind_token(kind)) matches Some(p)
                &&& json_parse_ok(p)
            },
            Err(e) => match e {
                OpError::MessageNotFoundError { kind: k } => k == kind && scan_spec(
                    lines.deep_view(),
                    kind_token(kind),
                ) is None,
                OpError::MalformedPayloadError => {
                    &&& scan_spec(lines.deep_view(), kind_token(kind)) matches Some(p)
                    &&& !json_parse_ok(p)
                },
                _ => false,
            },
        },
{
    match crate::scanner::scan_lines(lines, kind) {
        Ok(payload) => decode_payload(payload.as_str()),
        Err(e) => Err(OpError::MessageNotFoundError { kind: e.kind }),
    }
}

} // verus!

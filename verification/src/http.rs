//! The trusted boundary to minreq (HTTP) and serde_json (JSON values).
//!
//! Each wrapper makes exactly one outside call. What an HTTP exchange
//! returns depends on the network, so those wrappers promise nothing about
//! their result; the verified request logic in [`crate::api`] states what
//! holds whatever came back.

use vstd::prelude::*;

verus! {

#[verifier::external_type_specification]
#[verifier::external_body]
pub struct ExRequest(minreq::Request);

#[verifier::external_type_specification]
#[verifier::external_body]
pub struct ExResponse(minreq::Response);

#[verifier::external_type_specification]
#[verifier::external_body]
pub struct ExMinreqError(minreq::Error);

#[verifier::external_type_specification]
#[verifier::external_body]
pub struct ExValue(serde_json::Value);

#[verifier::external_type_specification]
#[verifier::external_body]
pub struct ExJsonError(serde_json::Error);

#[verifier::external_type_specification]
#[verifier::external_body]
pub struct ExUtf8Error(core::str::Utf8Error);

#[verifier::external_type_specification]
#[verifier::external_body]
pub struct ExFromUtf8Error(std::string::FromUtf8Error);

/// Relies on `String::from_utf8`: when the bytes are valid UTF-8 they
/// become the string whole, nothing added and nothing dropped, so the
/// string's UTF-8 encoding is exactly the input.
pub assume_specification[ String::from_utf8 ](
    bytes: Vec<u8>,
) -> (r: Result<String, std::string::FromUtf8Error>)
    ensures
        r matches Ok(s) ==> s@ == vstd::utf8::decode_utf8(bytes@),
;

/// Relies on `FromUtf8Error::utf8_error`: the underlying UTF-8 error.
pub assume_specification[ std::string::FromUtf8Error::utf8_error ](
    e: &std::string::FromUtf8Error,
) -> core::str::Utf8Error;

/// Relies on `minreq::get`: a GET request for the given URL, not yet sent.
#[verifier::external_body]
pub fn request_get(url: &str) -> minreq::Request {
    minreq::get(url)
}

/// Relies on `minreq::Request::with_header`: the same request with one
/// header added.
#[verifier::external_body]
pub fn request_with_header(r: minreq::Request, key: &str, value: &str) -> minreq::Request {
    r.with_header(key, value)
}

/// Relies on `minreq::Request::send`: performs the HTTP exchange and loads
/// the whole response. What comes back depends on the network.
#[verifier::external_body]
pub fn request_send(r: minreq::Request) -> Result<minreq::Response, minreq::Error> {
    r.send()
}

/// Picks the `status_code` field of a response, e.g. 404.
#[verifier::external_body]
pub fn response_status(r: &minreq::Response) -> u16 {
    r.status_code
}

/// Relies on `minreq::Response::into_bytes`: the response body.
#[verifier::external_body]
pub fn response_into_bytes(r: minreq::Response) -> Vec<u8> {
    r.into_bytes()
}

/// Relies on `serde_json::from_str::<Value>`: parses text as one JSON
/// document, or says why it is not one.
#[verifier::external_body]
pub fn json_parse(s: &str) -> Result<serde_json::Value, serde_json::Error> {
    serde_json::from_str(s)
}

/// Relies on `serde_json::Value::get`: the member under this key, if the
/// value is an object that has it.
#[verifier::external_body]
pub fn json_get<'a>(v: &'a serde_json::Value, key: &str) -> Option<&'a serde_json::Value> {
    v.get(key)
}

/// Relies on `serde_json::Value::as_str`: the contained text, if the value
/// is a JSON string.
#[verifier::external_body]
pub fn json_as_str(v: &serde_json::Value) -> Option<&str> {
    v.as_str()
}

/// Relies on `minreq::Error`'s `Display` impl: a human-readable description.
#[verifier::external_body]
pub fn minreq_error_text(e: &minreq::Error) -> String {
    e.to_string()
}

/// Relies on `serde_json::Error`'s `Display` impl: a human-readable
/// description.
#[verifier::external_body]
pub fn json_error_text(e: &serde_json::Error) -> String {
    e.to_string()
}

/// Relies on `Utf8Error`'s `Display` impl: a human-readable description.
#[verifier::external_body]
pub fn utf8_error_text(e: &core::str::Utf8Error) -> String {
    e.to_string()
}

} // verus!

//! The pieces of an HTTP exchange that the library decides about: the
//! authorization header, and what a reply's status means.

use vstd::prelude::*;
use vstd::string::*;
use vstd::utf8::encode_utf8;

verus! {

/// What came back from one request that the caller sent.
#[derive(Debug, Clone, PartialEq)]
pub enum HttpReply {
    /// A response arrived, with this status code and body.
    Received { status: u16, body: Vec<u8> },
    /// No response arrived: the exchange failed in transport.
    Failed,
}

/// A status code of the 2xx class.
pub open spec fn is_success_status(status: u16) -> bool {
    200 <= status < 300
}

/// Whether a status code reports success.
pub fn status_is_success(status: u16) -> (success: bool)
    ensures
        success == is_success_status(status),
{
    200 <= status && status < 300
}

/// A byte that the value of an HTTP header may hold: anything but the control
/// characters, of which only the horizontal tab is let through.
pub open spec fn header_byte_allowed(byte: u8) -> bool {
    (byte >= 32 && byte != 127) || byte == 9
}

/// A text that can stand as the value of an HTTP header: each byte of its
/// UTF-8 encoding is allowed there.
pub open spec fn header_text_allowed(text: Seq<char>) -> bool {
    forall|i: int|
        0 <= i < encode_utf8(text).len() ==> header_byte_allowed(#[trigger] encode_utf8(text)[i])
}

/// The value of the `Authorization` header that presents a bearer token.
pub open spec fn bearer_value(token: Seq<char>) -> Seq<char> {
    "Bearer "@ + token
}

/// Calls `reqwest::header::HeaderValue::from_str` and reports whether it
/// accepted the text. It accepts a text exactly when every byte of it is at
/// least 32 and not 127, or is a horizontal tab.
#[verifier::external_body]
fn accepted_as_header_value(text: &str) -> (accepted: bool)
    ensures
        accepted == header_text_allowed(text@),
{
    reqwest::header::HeaderValue::from_str(text).is_ok()
}

/// Builds the `Authorization` header value for a bearer token, or `None` when
/// the token holds a byte that no header value may hold.
pub fn bearer_authorization(token: &str) -> (value: Option<String>)
    ensures
        match value {
            Some(text) => text@ == bearer_value(token@) && header_text_allowed(bearer_value(token@)),
            None => !header_text_allowed(bearer_value(token@)),
        },
{
    let text = String::from_str("Bearer ").concat(token);
    if accepted_as_header_value(text.as_str()) {
        Some(text)
    } else {
        None
    }
}

} // verus!

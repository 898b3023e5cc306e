//! The library's error type, and the check of an HTTP response status.

use vstd::prelude::*;
use crate::text::{decimal, decimal_chars, push_chars};
use reqwest::Error as RequestError;
use serde_json::Error as JsonError;

verus! {

/// An I/O error.
#[verifier::external_type_specification]
#[verifier::external_body]
pub struct ExIoError(std::io::Error);

/// An error of the HTTP client.
#[verifier::external_type_specification]
#[verifier::external_body]
pub struct ExRequestError(RequestError);

/// An error in reading or writing JSON.
#[verifier::external_type_specification]
#[verifier::external_body]
pub struct ExJsonError(JsonError);

/// An error in receiving from a broadcast channel.
#[verifier::external_type_specification]
#[verifier::external_body]
pub struct ExRecvError(tokio::sync::broadcast::error::RecvError);

/// The error type for the Urbit HTTP API crate.
#[derive(Debug)]
pub enum Error {
    Io(std::io::Error),
    Http(String),
    Request(RequestError),
    SerdeJson(JsonError),
    Message(String),
    Broadcast(tokio::sync::broadcast::error::RecvError),
}

/// Whether an HTTP status code means success (`200..=299`).
pub open spec fn is_success_status(code: u16) -> bool {
    200 <= code && code <= 299
}

/// The reason phrase that the HTTP client registers for a status code
/// (`StatusCode::canonical_reason`), if it knows one.
pub uninterp spec fn canonical_reason(code: u16) -> Option<Seq<char>>;

/// `reqwest::StatusCode::from_u16(code)` and its `canonical_reason()`: claims
/// that the result is the registered reason phrase of `code`.
#[verifier::external_body]
fn status_reason(code: u16) -> (r: Option<String>)
    requires
        100 <= code <= 999,
    ensures
        match r {
            Some(t) => canonical_reason(code) == Some(t@),
            None => canonical_reason(code) is None,
        },
{
    match reqwest::StatusCode::from_u16(code) {
        Ok(status) => match status.canonical_reason() {
            Some(t) => Some(t.to_string()),
            None => None,
        },
        Err(_) => None,
    }
}

/// How a status code is written (`Display` of `StatusCode`): the number, a
/// space, and the reason phrase or `<unknown status code>`.
pub open spec fn status_text(code: u16) -> Seq<char> {
    decimal(code as nat) + " "@ + match canonical_reason(code) {
        Some(t) => t,
        None => "<unknown status code>"@,
    }
}

/// The text of an HTTP status code, as the HTTP client writes it.
pub fn status_display(code: u16) -> (r: String)
    requires
        100 <= code <= 999,
    ensures
        r@ == status_text(code),
{
    let mut r = String::new();
    let digits = decimal_chars(code as u64);
    push_chars(&mut r, &digits);
    r.append(" ");
    match status_reason(code) {
        Some(t) => r.append(t.as_str()),
        None => r.append("<unknown status code>"),
    }
    r
}

/// Checks the status of an HTTP response: success is `Ok`, any other status is
/// an `Http` error whose message is `context` followed by the status.
pub fn check_status(context: &str, code: u16) -> (r: Result<(), Error>)
    requires
        100 <= code <= 999,
    ensures
        is_success_status(code) <==> r is Ok,
        r matches Err(e) ==> (e matches Error::Http(m) && m@ == context@ + status_text(code)),
{
    if 200 <= code && code <= 299 {
        Ok(())
    } else {
        let mut m = String::from_str(context);
        let t = status_display(code);
        m.append(t.as_str());
        Err(Error::Http(m))
    }
}

} // verus!

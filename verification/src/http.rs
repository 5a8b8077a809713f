//! Plain descriptions of an HTTP exchange.
//!
//! The crate decides what to send and how to read the answer; the caller
//! performs the exchange and reports how it went.

use vstd::prelude::*;

verus! {

/// The request methods that the backend's endpoints take.
#[derive(Debug, Clone, Copy, PartialEq, Eq)]
pub enum HttpMethod {
    Get,
    Post,
}

/// The JSON body of a request, by endpoint.
#[derive(Debug, Clone, PartialEq, Eq)]
pub enum Payload {
    /// Body of a classification request.
    Scan { url: String, force_scan: bool },
    /// Body of a credential exchange.
    Login { username: String, password: String },
}

/// A request for the caller to send. A request with a `body` is sent as
/// JSON, with `Content-Type: application/json`; `authorization`, when there
/// is one, is the value of the `Authorization` header. The exchange is given
/// up after `timeout_secs` seconds.
#[derive(Debug, Clone, PartialEq, Eq)]
pub struct HttpRequest {
    pub method: HttpMethod,
    pub url: String,
    pub authorization: Option<String>,
    pub body: Option<Payload>,
    pub timeout_secs: u64,
}

/// How an exchange went.
#[derive(Debug, Clone, PartialEq, Eq)]
pub enum HttpOutcome {
    /// No response arrived: the connection failed or timed out.
    Unreachable { detail: String },
    /// A response arrived, with this status code and body.
    Answered { status: u16, body: String },
}

/// Whether a status code is in the success class, 200 to 299.
pub open spec fn success_status(status: u16) -> bool {
    200 <= status < 300
}

/// Whether a status code is in the success class.
pub fn is_success(status: u16) -> (r: bool)
    ensures
        r == success_status(status),
{
    200 <= status && status < 300
}

} // verus!

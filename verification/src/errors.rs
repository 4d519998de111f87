//! Error taxonomy of the gateway, with the HTTP status and the exact
//! user-visible text each kind carries.

use vstd::prelude::*;
use vstd::string::*;

verus! {

/// The authentication sub-request does not meet the protocol: a required
/// header is missing or not UTF-8 encoded. Answered with HTTP 400 and a
/// plain-text message.
#[derive(Clone, Debug, PartialEq, Eq)]
pub enum InvalidAuthRequest {
    /// A header value (other than the three required ones) is not UTF-8;
    /// carries the header's name.
    HeaderValueNotUtf8(String),
    /// The `Host` header value is not UTF-8.
    HostNotUtf8,
    /// The `Host` header is missing.
    NoHost,
    /// The `X-Forwarded-Proto` header is missing.
    NoProtocol,
    /// The `X-Original-URI` header is missing.
    NoUri,
    /// The `X-Forwarded-Proto` header value is not UTF-8.
    ProtocolNotUtf8,
    /// The `X-Original-URI` header value is not UTF-8.
    UriNotUtf8,
}

impl InvalidAuthRequest {
    /// HTTP status for a malformed sub-request.
    pub fn status_code(&self) -> (r: u16)
        ensures
            r == 400,
    {
        400
    }

    /// The plain-text message sent as the response body.
    pub fn message(&self) -> (r: String)
        ensures
            r@ == match self {
                InvalidAuthRequest::HeaderValueNotUtf8(name) => "Value for header '"@ + name@
                    + "' is not UTF8 encoded"@,
                InvalidAuthRequest::HostNotUtf8 => "Host header is not UTF8 encoded"@,
                InvalidAuthRequest::NoHost => "Required Host header is missing"@,
                InvalidAuthRequest::NoProtocol => "Required X-Forwarded-Proto header is missing"@,
                InvalidAuthRequest::NoUri => "Required X-Original-URI header is missing"@,
                InvalidAuthRequest::ProtocolNotUtf8 => "X-Forwarded-Proto header is not UTF8 encoded"@,
                InvalidAuthRequest::UriNotUtf8 => "X-Original-URI header is not UTF8 encoded"@,
            },
    {
        match self {
            InvalidAuthRequest::HeaderValueNotUtf8(name) => String::from_str(
                "Value for header '",
            ).concat(name.as_str()).concat("' is not UTF8 encoded"),
            InvalidAuthRequest::HostNotUtf8 => String::from_str("Host header is not UTF8 encoded"),
            InvalidAuthRequest::NoHost => String::from_str("Required Host header is missing"),
            InvalidAuthRequest::NoProtocol => String::from_str(
                "Required X-Forwarded-Proto header is missing",
            ),
            InvalidAuthRequest::NoUri => String::from_str(
                "Required X-Original-URI header is missing",
            ),
            InvalidAuthRequest::ProtocolNotUtf8 => String::from_str(
                "X-Forwarded-Proto header is not UTF8 encoded",
            ),
            InvalidAuthRequest::UriNotUtf8 => String::from_str(
                "X-Original-URI header is not UTF8 encoded",
            ),
        }
    }
}

/// An enrichment rule asked for an illegal header name or value. Answered
/// with HTTP 500.
#[derive(Clone, Debug, PartialEq, Eq)]
pub enum InvalidEnrichResponseRule {
    /// A name in `headers_remove` or `headers_set` is not a legal header
    /// name; carries the offending name.
    InvalidHeaderName(String),
    /// A value in `headers_set` is not a legal header value; carries the
    /// offending name and value.
    InvalidHeaderValue(String, String),
}

impl InvalidEnrichResponseRule {
    /// HTTP status for a failed enrichment.
    pub fn status_code(&self) -> (r: u16)
        ensures
            r == 500,
    {
        500
    }

    /// The terse message surfaced to the client.
    pub fn message(&self) -> (r: String)
        ensures
            r@ == "Error enriching the Authentication response"@,
    {
        String::from_str("Error enriching the Authentication response")
    }
}

/// The configured identity header is not a legal header name.
#[derive(Clone, Debug, PartialEq, Eq)]
pub struct InvalidIdentityHeader {
    /// The offending configured name.
    pub name: String,
}

impl InvalidIdentityHeader {
    /// The message explaining the rejected configuration.
    pub fn message(&self) -> (r: String)
        ensures
            r@ == "user ID identity reporting is not valid"@,
    {
        String::from_str("user ID identity reporting is not valid")
    }
}

/// The authentication check failed: the backend errored, or an enrichment
/// rule was invalid. Answered with HTTP 500 and a JSON body.
#[derive(Clone, Debug)]
pub struct AuthenticationCheckError {
    /// Internal detail, kept for logs; never shown to the client.
    pub detail: String,
}

/// The audit sink rejected the record. Answered with HTTP 500 and a JSON
/// body.
#[derive(Clone, Debug)]
pub struct AuditSendError {
    /// Internal detail, kept for logs; never shown to the client.
    pub detail: String,
}

/// The JSON body of an internal-error response: an object with `error` set
/// to true and the given terse message. The message must not need JSON
/// escaping; both messages used by the gateway are fixed ASCII text.
pub fn error_body(message: &str) -> (r: String)
    ensures
        r@ == "{\n  \"error\": true,\n  \"message\": \""@ + message@ + "\"\n}"@,
{
    String::from_str("{\n  \"error\": true,\n  \"message\": \"").concat(message).concat("\"\n}")
}

impl AuthenticationCheckError {
    /// HTTP status for a failed check.
    pub fn status_code(&self) -> (r: u16)
        ensures
            r == 500,
    {
        500
    }

    /// The terse message surfaced to the client.
    pub fn message(&self) -> (r: String)
        ensures
            r@ == "Error checking authentication for a request"@,
    {
        String::from_str("Error checking authentication for a request")
    }

    /// The JSON body of the HTTP 500 response.
    pub fn error_response(&self) -> (r: String)
        ensures
            r@ == "{\n  \"error\": true,\n  \"message\": \""@
                + "Error checking authentication for a request"@ + "\"\n}"@,
    {
        let message = self.message();
        error_body(message.as_str())
    }
}

impl AuditSendError {
    /// HTTP status for a failed audit write.
    pub fn status_code(&self) -> (r: u16)
        ensures
            r == 500,
    {
        500
    }

    /// The terse message surfaced to the client.
    pub fn message(&self) -> (r: String)
        ensures
            r@ == "Error sending the audit record for a request"@,
    {
        String::from_str("Error sending the audit record for a request")
    }

    /// The JSON body of the HTTP 500 response.
    pub fn error_response(&self) -> (r: String)
        ensures
            r@ == "{\n  \"error\": true,\n  \"message\": \""@
                + "Error sending the audit record for a request"@ + "\"\n}"@,
    {
        let message = self.message();
        error_body(message.as_str())
    }
}

} // verus!

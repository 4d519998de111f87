//! Binding of pipeline outcomes to the HTTP surface: the status code and the
//! header list the `auth_request` endpoint answers with. The listener itself
//! lives outside the library; it receives this plan and writes it out.

use vstd::prelude::*;

use crate::authenticator::IdentityHeaders;
use crate::headers::Headers;
use crate::models::AuthenticationResult;
use crate::models::AuthenticationStatus;

verus! {

/// The HTTP answer for one authentication sub-request: a status code and the
/// headers to echo, in order.
pub struct CheckResponse {
    /// HTTP status: 200 allowed, 403 denied, 401 must-login.
    pub status: u16,
    /// Headers to send with the response, in order.
    pub headers: Headers,
}

impl AuthenticationStatus {
    /// The HTTP status code a decision maps to.
    pub open spec fn spec_http_code(self) -> u16 {
        match self {
            AuthenticationStatus::Allowed => 200,
            AuthenticationStatus::Denied => 403,
            AuthenticationStatus::MustLogin => 401,
        }
    }
}

/// Build the HTTP response plan from an authentication result: map the
/// status, echo the result's headers, and append the configured identity
/// header when the request is allowed and a user is known.
pub fn build_response(result: AuthenticationResult, identity: &IdentityHeaders) -> (r:
    CheckResponse)
    ensures
        r.status == result.status.spec_http_code(),
        match (result.status, result.authentication_context.user) {
            (AuthenticationStatus::Allowed, Some(user)) => r.headers@ == result.headers@.push(
                (identity.user_id@, user@),
            ),
            _ => r.headers@ == result.headers@,
        },
{
    let status: u16 = match result.status {
        AuthenticationStatus::Allowed => 200,
        AuthenticationStatus::Denied => 403,
        AuthenticationStatus::MustLogin => 401,
    };
    let mut headers = result.headers;
    if matches!(result.status, AuthenticationStatus::Allowed) {
        match result.authentication_context.user {
            Some(user) => {
                headers.append(identity.user_id.clone(), user);
            },
            None => {},
        }
    }
    CheckResponse { status, headers }
}

} // verus!

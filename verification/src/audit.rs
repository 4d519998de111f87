//! Audit records: what is remembered about each decision, and the reporters
//! that accept the records. Wall-clock and monotonic time are read outside
//! the library and handed in as plain values.

use vstd::prelude::*;
use vstd::string::*;

use crate::context::RequestContext;
use crate::context::RequestProtocol;
use crate::context::protocol_text;
use crate::errors::AuditSendError;
use crate::models::AuditReason;
use crate::models::AuthenticationResult;
use crate::models::AuthenticationStatus;

verus! {

/// A decomposed duration in signed integers, so that sinks without unsigned
/// support can store it: whole seconds and the remaining nanoseconds.
#[derive(Clone, Copy, Debug, PartialEq, Eq, Structural)]
pub struct SignedDuration {
    /// Whole seconds.
    pub secs: i64,
    /// Nanoseconds below one second.
    pub nanos: i64,
}

impl SignedDuration {
    /// A well-formed duration: non-negative, nanoseconds below one second.
    pub open spec fn wf(self) -> bool {
        0 <= self.secs && 0 <= self.nanos < 1_000_000_000
    }

    /// Build from the unsigned parts of an elapsed time, as the clock hands
    /// them out; seconds beyond the signed range, or nanoseconds at or above
    /// one second, are clamped.
    pub fn from_parts(secs: u64, nanos: u32) -> (r: SignedDuration)
        ensures
            secs <= i64::MAX ==> r.secs == secs,
            secs > i64::MAX ==> r.secs == i64::MAX,
            nanos < 1_000_000_000 ==> r.nanos == nanos,
            nanos >= 1_000_000_000 ==> r.nanos == 999_999_999,
            r.wf(),
    {
        let secs: i64 = if secs > 0x7fff_ffff_ffff_ffff {
            i64::MAX
        } else {
            secs as i64
        };
        let nanos: i64 = if nanos >= 1_000_000_000 {
            999_999_999
        } else {
            nanos as i64
        };
        SignedDuration { secs, nanos }
    }
}

/// Record of information about one authentication decision, for auditing.
#[derive(Clone, Debug)]
pub struct AuditRecord {
    /// The request was ultimately allowed.
    pub authenticated: bool,
    /// Duration of the decision processing.
    pub duration: SignedDuration,
    /// Protocol the original request was sent over.
    pub protocol: RequestProtocol,
    /// Reason for the authentication response.
    pub reason: AuditReason,
    /// Full URL looking for authentication.
    pub resource: String,
    /// Exact authentication status returned to the client.
    pub result: AuthenticationStatus,
    /// ID of the session attached to the request, if available.
    pub session_id: Option<String>,
    /// When the request was received, in milliseconds since the epoch.
    pub timestamp: i64,
    /// ID of the user attached to the request, if available.
    pub user_id: Option<String>,
}

/// Collect request and timing information to build an `AuditRecord` once the
/// decision completes.
#[derive(Clone, Debug)]
pub struct AuditRecordBuilder {
    /// Protocol of the audited request.
    pub protocol: RequestProtocol,
    /// The audited resource, formatted `protocol://host/uri`.
    pub resource: String,
    /// When the request was received, in milliseconds since the epoch.
    pub timestamp: i64,
}

impl AuditRecordBuilder {
    /// Start building an audit record for a new request: capture the
    /// protocol, format the resource, and remember the given wall-clock
    /// timestamp.
    pub fn start(context: &RequestContext, timestamp_ms: i64) -> (r: AuditRecordBuilder)
        ensures
            r.protocol == context.protocol,
            r.resource@ == protocol_text(context.protocol) + "://"@ + context.host@ + context.uri@,
            r.timestamp == timestamp_ms,
    {
        let protocol = context.protocol.clone();
        let resource = protocol.to_text().concat("://").concat(context.host.as_str()).concat(
            context.uri.as_str(),
        );
        AuditRecordBuilder { protocol, resource, timestamp: timestamp_ms }
    }

    /// Build the immutable audit record for the request from the decision and
    /// the elapsed processing time.
    pub fn finish(self, result: &AuthenticationResult, duration: SignedDuration) -> (r: AuditRecord)
        ensures
            r.authenticated == (result.status == AuthenticationStatus::Allowed),
            r.duration == duration,
            r.protocol == self.protocol,
            r.reason == result.audit_reason,
            r.resource == self.resource,
            r.result == result.status,
            r.session_id == result.authentication_context.session,
            r.timestamp == self.timestamp,
            r.user_id == result.authentication_context.user,
    {
        let session_id = match &result.authentication_context.session {
            Some(session) => Some(session.clone()),
            None => None,
        };
        let user_id = match &result.authentication_context.user {
            Some(user) => Some(user.clone()),
            None => None,
        };
        AuditRecord {
            authenticated: result.status.authenticated(),
            duration,
            protocol: self.protocol,
            reason: result.audit_reason,
            resource: self.resource,
            result: result.status,
            session_id,
            timestamp: self.timestamp,
            user_id,
        }
    }
}

/// Audit reporter that drops all records.
pub struct NoopReporter {}

impl NoopReporter {
    /// Accept and discard a record; never fails.
    pub fn send(&self, record: AuditRecord) -> (r: Result<(), AuditSendError>)
        ensures
            r is Ok,
    {
        let _ = record;
        Ok(())
    }

    /// Return a fresh instance for a new worker.
    pub fn make(&self) -> (r: NoopReporter) {
        NoopReporter {  }
    }
}

/// Audit reporter that renders records as single-line JSON log events. The
/// rendering is the logic here; emitting the line is left to the log output
/// around the library.
pub struct LogReporter {}

impl LogReporter {
    /// Return a fresh instance for a new worker.
    pub fn make(&self) -> (r: LogReporter) {
        LogReporter {  }
    }
}

} // verus!

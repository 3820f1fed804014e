use vstd::prelude::*;

use crate::capability::{details_of, message_of, ResponseError, ServiceErrorMapping};
use crate::code::{status_of, ErrorCode};

verus! {

/// A point in time, UTC: whole seconds since the Unix epoch and the
/// nanoseconds past that second.
#[derive(Clone, Copy, Debug, PartialEq, Eq, Structural)]
pub struct Timestamp {
    pub secs: i64,
    pub nanos: u32,
}

impl Timestamp {
    pub open spec fn wf(self) -> bool {
        self.nanos < 1_000_000_000
    }
}

/// Relies on chrono::Utc::now, read back through `timestamp` and
/// `timestamp_subsec_nanos`: the current system time, whose sub-second part
/// comes from a `Duration` and so stays below one second.
#[verifier::external_body]
fn now_utc() -> (r: Timestamp)
    ensures
        r.wf(),
{
    let now = chrono::Utc::now();
    Timestamp { secs: now.timestamp(), nanos: now.timestamp_subsec_nanos() }
}

/// The structured error payload: correlation id, capture time, category,
/// transport status (kept off the serialized body), user-facing message and
/// optional operator-facing context.
pub struct ApiError {
    pub trace_id: String,
    pub timestamp: Timestamp,
    pub code: ErrorCode,
    pub status: u16,
    pub message: String,
    pub description: Option<String>,
    pub details: Option<String>,
}

impl ApiError {
    /// The status agrees with the code, and the message is never empty.
    pub open spec fn wf(&self) -> bool {
        &&& self.status == status_of(self.code)
        &&& self.message@.len() > 0
    }
}

/// `r` is what rendering `e` under `trace_id` yields, at whatever time.
pub open spec fn renders<E: ServiceErrorMapping>(trace_id: Seq<char>, e: E, r: ApiError) -> bool {
    &&& r.trace_id@ == trace_id
    &&& r.code == e.spec_category()
    &&& r.status == status_of(e.spec_category())
    &&& r.message@ == message_of(e)
    &&& r.description.deep_view() == e.spec_description()
    &&& r.details.deep_view() == details_of(e)
}

/// Builds the payload for `err` under `trace_id`, stamped with `timestamp`.
pub fn render_at<E: ResponseError>(trace_id: &str, err: &E, timestamp: Timestamp) -> (r: ApiError)
    ensures
        renders(trace_id@, *err, r),
        r.timestamp == timestamp,
        r.wf(),
{
    ApiError {
        trace_id: trace_id.to_owned(),
        timestamp,
        code: err.error_code(),
        status: err.status_code(),
        message: err.message(),
        description: err.error_description(),
        details: err.error_details(),
    }
}

/// Builds the payload for `err` under `trace_id`, stamped with the current time.
pub fn render<E: ResponseError>(trace_id: &str, err: &E) -> (r: ApiError)
    ensures
        renders(trace_id@, *err, r),
        r.timestamp.wf(),
        r.wf(),
{
    let now = now_utc();
    render_at(trace_id, err, now)
}

} // verus!

use vstd::prelude::*;

use crate::api_error::{renders, ApiError};
use crate::capability::ServiceErrorMapping;
use crate::code::{status_of, ErrorCode};

verus! {

/// Every code has exactly one status, an HTTP error status, and no two codes
/// share one.
pub proof fn status_of_is_total(a: ErrorCode, b: ErrorCode)
    ensures
        400 <= status_of(a) <= 599,
        status_of(a) == status_of(b) <==> a == b,
{
}

/// The rendered status is the status of the error's category: it is never set
/// apart from the code.
pub proof fn status_follows_category<E: ServiceErrorMapping>(trace_id: Seq<char>, e: E, r: ApiError)
    requires
        renders(trace_id, e, r),
    ensures
        r.code == e.spec_category(),
        r.status == status_of(e.spec_category()),
        r.status == status_of(r.code),
{
}

/// Without a user-facing override, the rendered message is the error's own
/// descriptive text, exactly.
pub proof fn message_defaults_to_text<E: ServiceErrorMapping>(trace_id: Seq<char>, e: E, r: ApiError)
    requires
        renders(trace_id, e, r),
        e.spec_user_message() is None,
    ensures
        r.message@ == e.spec_text(),
{
}

/// With a user-facing override `m`, the rendered message is `m`.
pub proof fn message_uses_override<E: ServiceErrorMapping>(
    trace_id: Seq<char>,
    e: E,
    r: ApiError,
    m: Seq<char>,
)
    requires
        renders(trace_id, e, r),
        e.spec_user_message() == Some(m),
    ensures
        r.message@ == m,
{
}

/// Two renderings of the same error under the same trace id agree on every
/// field but the timestamp.
pub proof fn render_is_idempotent<E: ServiceErrorMapping>(
    trace_id: Seq<char>,
    e: E,
    r1: ApiError,
    r2: ApiError,
)
    requires
        renders(trace_id, e, r1),
        renders(trace_id, e, r2),
    ensures
        r1.trace_id@ == r2.trace_id@,
        r1.code == r2.code,
        r1.status == r2.status,
        r1.message@ == r2.message@,
        r1.description.deep_view() == r2.description.deep_view(),
        r1.details.deep_view() == r2.details.deep_view(),
{
}

} // verus!

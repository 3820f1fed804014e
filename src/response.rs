use vstd::prelude::*;
use vstd::string::*;

use crate::api_error::{render, renders, ApiError};
use crate::capability::ResponseError;

verus! {

/// The error-path envelope: `success` is `false` whenever it is built here.
pub struct ApiErrorResponse {
    pub success: bool,
    pub error: ApiError,
}

/// The success-path envelope: `success` is `true` whenever it is built here.
pub struct ApiSuccess<T> {
    pub success: bool,
    pub data: T,
}

/// A response ready for the transport: status, header pairs in the order in
/// which they are set, and the body to be serialized as JSON.
pub struct Reply<B> {
    pub status: u16,
    pub headers: Vec<(String, String)>,
    pub body: B,
}

/// Why a set of caller-supplied headers was refused: the position of the
/// first pair that is not acceptable, and which half of it is at fault.
#[derive(Clone, Copy, Debug, PartialEq, Eq, Structural)]
pub enum HeaderError {
    InvalidName { index: usize },
    InvalidValue { index: usize },
}

/// The content-type header that every reply carries first.
pub open spec fn json_header() -> (Seq<char>, Seq<char>) {
    ("content-type"@, "application/json"@)
}

/// Whether a header value is accepted: every character is visible ASCII, a
/// space, a tab, or outside ASCII (all of whose UTF-8 bytes are at least 0x80).
pub open spec fn is_header_value(s: Seq<char>) -> bool {
    forall|i: int|
        0 <= i < s.len() ==> ((#[trigger] s[i] as u32 >= 32 && s[i] as u32 != 127) || s[i] == '\t')
}

/// Whether http accepts a string as a header name.
pub uninterp spec fn is_header_name(s: Seq<char>) -> bool;

/// Relies on http's `HeaderName` parsing (re-exported by axum), through its
/// `FromStr` impl: whether the text is accepted as a header name.
#[verifier::external_body]
fn header_name_ok(name: &str) -> (r: bool)
    ensures
        r == is_header_name(name@),
{
    <axum::http::HeaderName as core::str::FromStr>::from_str(name).is_ok()
}

/// Relies on http's `HeaderValue::from_str` (re-exported by axum), which
/// refuses a text exactly when one of its bytes is below 32 but for a tab, or
/// is 127.
#[verifier::external_body]
fn header_value_ok(value: &str) -> (r: bool)
    ensures
        r == is_header_value(value@),
{
    axum::http::HeaderValue::from_str(value).is_ok()
}

/// Whether both halves of a header pair are accepted.
pub open spec fn header_ok(h: (Seq<char>, Seq<char>)) -> bool {
    is_header_name(h.0) && is_header_value(h.1)
}

fn json_headers() -> (r: Vec<(String, String)>)
    ensures
        r.deep_view() == seq![json_header()],
{
    let mut r: Vec<(String, String)> = Vec::new();
    r.push((String::from_str("content-type"), String::from_str("application/json")));
    proof {
        assert(r.deep_view() =~= seq![json_header()]);
    }
    r
}

impl ApiError {
    /// Wraps the payload in the error envelope, under its own status and the
    /// JSON content type.
    pub fn into_response(self) -> (r: Reply<ApiErrorResponse>)
        ensures
            r.status == self.status,
            r.headers.deep_view() == seq![json_header()],
            !r.body.success,
            r.body.error == self,
    {
        let status = self.status;
        Reply { status, headers: json_headers(), body: ApiErrorResponse { success: false, error: self } }
    }
}

/// The single entry point for the error path: renders `err` under `trace_id`
/// at the current time and wraps it, with the status derived from its category.
pub fn response<E: ResponseError>(trace_id: &str, err: E) -> (r: Reply<ApiErrorResponse>)
    ensures
        renders(trace_id@, err, r.body.error),
        r.body.error.wf(),
        r.body.error.timestamp.wf(),
        r.status == r.body.error.status,
        r.headers.deep_view() == seq![json_header()],
        !r.body.success,
{
    render(trace_id, &err).into_response()
}

/// Wraps `data` in the success envelope with status 200.
pub fn success<T>(data: T) -> (r: Reply<ApiSuccess<T>>)
    ensures
        r.status == 200,
        r.headers.deep_view() == seq![json_header()],
        r.body.success,
        r.body.data == data,
{
    success_with_status(data, 200)
}

/// Wraps `data` in the success envelope with the given status.
pub fn success_with_status<T>(data: T, status_code: u16) -> (r: Reply<ApiSuccess<T>>)
    ensures
        r.status == status_code,
        r.headers.deep_view() == seq![json_header()],
        r.body.success,
        r.body.data == data,
{
    Reply { status: status_code, headers: json_headers(), body: ApiSuccess { success: true, data } }
}

/// Whether `i` is the first position in `hs` whose pair is not accepted.
pub open spec fn first_bad_header(hs: Seq<(Seq<char>, Seq<char>)>, i: int) -> bool {
    &&& 0 <= i < hs.len()
    &&& !header_ok(hs[i])
    &&& forall|k: int| 0 <= k < i ==> header_ok(#[trigger] hs[k])
}

/// Wraps `data` in the success envelope with the given status, adding the
/// caller's header pairs, in order, after the content type. A pair whose name
/// or value is not acceptable is refused, never dropped.
pub fn with_headers<T>(data: T, headers: &Vec<(String, String)>, status_code: u16) -> (r: Result<
    Reply<ApiSuccess<T>>,
    HeaderError,
>)
    ensures
        r is Ok <==> forall|k: int| 0 <= k < headers@.len() ==> header_ok(#[trigger] headers.deep_view()[k]),
        r matches Ok(rep) ==> {
            &&& rep.status == status_code
            &&& rep.headers.deep_view() == seq![json_header()] + headers.deep_view()
            &&& rep.body.success
            &&& rep.body.data == data
        },
        r matches Err(HeaderError::InvalidName { index }) ==> {
            &&& first_bad_header(headers.deep_view(), index as int)
            &&& !is_header_name(headers.deep_view()[index as int].0)
        },
        r matches Err(HeaderError::InvalidValue { index }) ==> {
            &&& first_bad_header(headers.deep_view(), index as int)
            &&& is_header_name(headers.deep_view()[index as int].0)
        },
{
    let mut out = json_headers();
    let mut i: usize = 0;
    while i < headers.len()
        invariant
            0 <= i <= headers@.len(),
            out.deep_view() == seq![json_header()] + headers.deep_view().subrange(0, i as int),
            forall|k: int| 0 <= k < i ==> header_ok(#[trigger] headers.deep_view()[k]),
        decreases headers@.len() - i,
    {
        let name = &headers[i].0;
        let value = &headers[i].1;
        assert(headers.deep_view()[i as int] == (name@, value@));
        if !header_name_ok(name.as_str()) {
            return Err(HeaderError::InvalidName { index: i });
        }
        if !header_value_ok(value.as_str()) {
            return Err(HeaderError::InvalidValue { index: i });
        }
        let ghost before = out.deep_view();
        out.push((name.clone(), value.clone()));
        proof {
            assert(out.deep_view() =~= before.push((name@, value@)));
            assert(headers.deep_view().subrange(0, i + 1) =~= headers.deep_view().subrange(0, i as int).push(
                headers.deep_view()[i as int],
            ));
            assert(out.deep_view() =~= seq![json_header()] + headers.deep_view().subrange(0, i + 1));
        }
        i = i + 1;
    }
    proof {
        assert(headers.deep_view().subrange(0, i as int) =~= headers.deep_view());
    }
    Ok(Reply { status: status_code, headers: out, body: ApiSuccess { success: true, data } })
}

} // verus!

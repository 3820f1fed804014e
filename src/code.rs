use vstd::prelude::*;

verus! {

/// The stable, client-visible error categories, independent of HTTP.
#[derive(Clone, Copy, Debug, PartialEq, Eq, Structural)]
pub enum ErrorCode {
    NotFound,
    InternalServerError,
    BadRequest,
    UnAuthorized,
}

/// The category-to-status policy, as a mathematical table.
pub open spec fn status_of(code: ErrorCode) -> u16 {
    match code {
        ErrorCode::NotFound => 404,
        ErrorCode::InternalServerError => 500,
        ErrorCode::BadRequest => 400,
        ErrorCode::UnAuthorized => 401,
    }
}

/// The wire tag of each code.
pub open spec fn code_tag(code: ErrorCode) -> Seq<char> {
    match code {
        ErrorCode::NotFound => "NotFound"@,
        ErrorCode::InternalServerError => "InternalServerError"@,
        ErrorCode::BadRequest => "BadRequest"@,
        ErrorCode::UnAuthorized => "UnAuthorized"@,
    }
}

impl ErrorCode {
    /// The transport status of this category.
    pub fn status(&self) -> (r: u16)
        ensures
            r == status_of(*self),
            400 <= r <= 599,
    {
        match self {
            ErrorCode::NotFound => 404,
            ErrorCode::InternalServerError => 500,
            ErrorCode::BadRequest => 400,
            ErrorCode::UnAuthorized => 401,
        }
    }

    /// The stable tag under which this category appears on the wire.
    pub fn as_str(&self) -> (r: &'static str)
        ensures
            r@ == code_tag(*self),
    {
        match self {
            ErrorCode::NotFound => "NotFound",
            ErrorCode::InternalServerError => "InternalServerError",
            ErrorCode::BadRequest => "BadRequest",
            ErrorCode::UnAuthorized => "UnAuthorized",
        }
    }
}

} // verus!

use vstd::prelude::*;
use vstd::string::*;

use crate::capability::{Cause, ServiceErrorMapping};
use crate::code::ErrorCode;

verus! {

/// A minimal service error that supplies no overrides at all.
#[derive(Clone, Copy, Debug, PartialEq, Eq, Structural)]
pub enum SimpleServiceError {
    SimpleError,
    AnotherError,
}

impl ServiceErrorMapping for SimpleServiceError {
    open spec fn spec_category(&self) -> ErrorCode {
        match self {
            SimpleServiceError::SimpleError => ErrorCode::BadRequest,
            SimpleServiceError::AnotherError => ErrorCode::InternalServerError,
        }
    }

    open spec fn spec_text(&self) -> Seq<char> {
        match self {
            SimpleServiceError::SimpleError => "Simple error occurred"@,
            SimpleServiceError::AnotherError => "Another simple error"@,
        }
    }

    open spec fn spec_user_message(&self) -> Option<Seq<char>> {
        None
    }

    open spec fn spec_description(&self) -> Option<Seq<char>> {
        None
    }

    open spec fn spec_details(&self) -> Option<Seq<char>> {
        None
    }

    open spec fn spec_causes(&self) -> Seq<Seq<char>> {
        Seq::empty()
    }

    fn category(&self) -> (r: ErrorCode) {
        match self {
            SimpleServiceError::SimpleError => ErrorCode::BadRequest,
            SimpleServiceError::AnotherError => ErrorCode::InternalServerError,
        }
    }

    fn default_text(&self) -> (r: String) {
        proof {
            reveal_strlit("Simple error occurred");
            reveal_strlit("Another simple error");
        }
        match self {
            SimpleServiceError::SimpleError => String::from_str("Simple error occurred"),
            SimpleServiceError::AnotherError => String::from_str("Another simple error"),
        }
    }

    fn user_message(&self) -> (r: Option<String>) {
        None
    }

    fn technical_description(&self) -> (r: Option<String>) {
        None
    }

    fn technical_details(&self) -> (r: Option<String>) {
        None
    }

    fn source(&self) -> (r: Option<Cause>) {
        None
    }
}

} // verus!

use vstd::prelude::*;
use vstd::string::*;

use crate::capability::{Cause, ServiceErrorMapping};
use crate::code::ErrorCode;
use crate::text::{concat2, concat3};

verus! {

/// A request to create a template.
#[derive(Clone, Debug)]
pub struct CreateReq {
    pub name: String,
    pub description: String,
    pub content: String,
}

/// The id of a template.
#[derive(Debug)]
pub struct CreateRes {
    pub id: String,
}

/// A stored template.
#[derive(Debug)]
pub struct GetResponse {
    pub id: String,
    pub name: String,
    pub description: String,
    pub content: String,
}

/// Looks a template up by id (a stand-in that always finds it).
pub fn get(id: String) -> (r: Result<CreateRes, ServiceError>)
    ensures
        r matches Ok(res) && res.id == id,
{
    Ok(CreateRes { id })
}

/// Stores a new template (a stand-in that always succeeds, under id "1").
pub fn create(req: CreateReq) -> (r: Result<GetResponse, ServiceError>)
    ensures
        r matches Ok(t) && t.id@ == "1"@ && t.name == req.name && t.description == req.description
            && t.content == req.content,
{
    Ok(GetResponse {
        id: String::from_str("1"),
        name: req.name,
        description: req.description,
        content: req.content,
    })
}

/// The failures of the template service.
#[derive(Debug)]
pub enum ServiceError {
    NotFound(String),
    InternalServerError,
    BadRequest,
    UnAuthorized,
}

impl ServiceErrorMapping for ServiceError {
    open spec fn spec_category(&self) -> ErrorCode {
        match self {
            ServiceError::NotFound(_) => ErrorCode::NotFound,
            ServiceError::InternalServerError => ErrorCode::InternalServerError,
            ServiceError::BadRequest => ErrorCode::BadRequest,
            ServiceError::UnAuthorized => ErrorCode::UnAuthorized,
        }
    }

    open spec fn spec_text(&self) -> Seq<char> {
        match self {
            ServiceError::NotFound(id) => "Template not found with ID: "@ + id@,
            ServiceError::InternalServerError => "Internal server error occurred"@,
            ServiceError::BadRequest => "Invalid request data"@,
            ServiceError::UnAuthorized => "Authentication required"@,
        }
    }

    open spec fn spec_user_message(&self) -> Option<Seq<char>> {
        match self {
            ServiceError::NotFound(_) => Some("The requested template could not be found"@),
            _ => None,
        }
    }

    open spec fn spec_description(&self) -> Option<Seq<char>> {
        match self {
            ServiceError::NotFound(id) => Some(
                "Template with ID '"@ + id@ + "' was not found in the database"@,
            ),
            ServiceError::InternalServerError => Some(
                "Database connection failed or service unavailable"@,
            ),
            ServiceError::BadRequest => Some(
                "Request validation failed - missing required fields or invalid format"@,
            ),
            ServiceError::UnAuthorized => Some("JWT token missing, expired, or invalid"@),
        }
    }

    open spec fn spec_details(&self) -> Option<Seq<char>> {
        match self {
            ServiceError::NotFound(id) => Some(
                "Template lookup failed for ID: "@ + id@
                    + ". Database query returned no results. This could indicate the template was deleted or the ID is incorrect."@,
            ),
            ServiceError::InternalServerError => Some(
                "Database connection pool exhausted. Connection timeout after 30 seconds. Check database server status and connection pool configuration."@,
            ),
            ServiceError::BadRequest => Some(
                "Request body validation failed. Required fields: name (string, 1-100 chars), content (string, non-empty). Received: name='', content=''."@,
            ),
            ServiceError::UnAuthorized => Some(
                "JWT token validation failed. Token expired at 2024-01-15T10:30:00Z. Current time: 2024-01-15T11:00:00Z. Token signature verification failed."@,
            ),
        }
    }

    open spec fn spec_causes(&self) -> Seq<Seq<char>> {
        Seq::empty()
    }

    fn category(&self) -> (r: ErrorCode) {
        match self {
            ServiceError::NotFound(_) => ErrorCode::NotFound,
            ServiceError::InternalServerError => ErrorCode::InternalServerError,
            ServiceError::BadRequest => ErrorCode::BadRequest,
            ServiceError::UnAuthorized => ErrorCode::UnAuthorized,
        }
    }

    fn default_text(&self) -> (r: String) {
        proof {
            reveal_strlit("Template not found with ID: ");
            reveal_strlit("Internal server error occurred");
            reveal_strlit("Invalid request data");
            reveal_strlit("Authentication required");
        }
        match self {
            ServiceError::NotFound(id) => concat2("Template not found with ID: ", id.as_str()),
            ServiceError::InternalServerError => String::from_str("Internal server error occurred"),
            ServiceError::BadRequest => String::from_str("Invalid request data"),
            ServiceError::UnAuthorized => String::from_str("Authentication required"),
        }
    }

    fn user_message(&self) -> (r: Option<String>) {
        proof {
            reveal_strlit("The requested template could not be found");
        }
        match self {
            ServiceError::NotFound(_) => Some(
                String::from_str("The requested template could not be found"),
            ),
            _ => None,
        }
    }

    fn technical_description(&self) -> (r: Option<String>) {
        match self {
            ServiceError::NotFound(id) => Some(
                concat3("Template with ID '", id.as_str(), "' was not found in the database"),
            ),
            ServiceError::InternalServerError => Some(
                String::from_str("Database connection failed or service unavailable"),
            ),
            ServiceError::BadRequest => Some(
                String::from_str(
                    "Request validation failed - missing required fields or invalid format",
                ),
            ),
            ServiceError::UnAuthorized => Some(
                String::from_str("JWT token missing, expired, or invalid"),
            ),
        }
    }

    fn technical_details(&self) -> (r: Option<String>) {
        match self {
            ServiceError::NotFound(id) => Some(
                concat3(
                    "Template lookup failed for ID: ",
                    id.as_str(),
                    ". Database query returned no results. This could indicate the template was deleted or the ID is incorrect.",
                ),
            ),
            ServiceError::InternalServerError => Some(
                String::from_str(
                    "Database connection pool exhausted. Connection timeout after 30 seconds. Check database server status and connection pool configuration.",
                ),
            ),
            ServiceError::BadRequest => Some(
                String::from_str(
                    "Request body validation failed. Required fields: name (string, 1-100 chars), content (string, non-empty). Received: name='', content=''.",
                ),
            ),
            ServiceError::UnAuthorized => Some(
                String::from_str(
                    "JWT token validation failed. Token expired at 2024-01-15T10:30:00Z. Current time: 2024-01-15T11:00:00Z. Token signature verification failed.",
                ),
            ),
        }
    }

    fn source(&self) -> (r: Option<Cause>) {
        None
    }
}

} // verus!

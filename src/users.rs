use vstd::prelude::*;
use vstd::string::*;

use crate::capability::{Cause, ServiceErrorMapping};
use crate::code::ErrorCode;
use crate::text::{concat2, concat3, contains_text, occurs_in, same_text};

verus! {

/// A user record.
#[derive(Debug)]
pub struct User {
    pub id: String,
    pub email: String,
    pub name: String,
}

/// A request to create a user.
#[derive(Clone)]
pub struct CreateUserReq {
    pub email: String,
    pub name: String,
}

/// Looks a user up by id (a stand-in: the id "not_found" is missing, any
/// other is found with fixed contact data).
pub fn get_user(id: String) -> (r: Result<User, UserServiceError>)
    ensures
        id@ == "not_found"@ ==> (r matches Err(UserServiceError::UserNotFound(i)) && i == id),
        id@ != "not_found"@ ==> (r matches Ok(u) && u.id == id && u.email@ == "user@example.com"@
            && u.name@ == "John Doe"@),
{
    if same_text(id.as_str(), "not_found") {
        return Err(UserServiceError::UserNotFound(id));
    }
    Ok(User { id, email: String::from_str("user@example.com"), name: String::from_str("John Doe") })
}

/// Creates a user (a stand-in whose failures are chosen by markers in the
/// email address, checked in this order: "invalid", "exists", "db_error").
pub fn create_user(payload: CreateUserReq) -> (r: Result<User, UserServiceError>)
    ensures
        occurs_in(payload.email@, "invalid"@) ==> (r matches Err(UserServiceError::InvalidEmail(e))
            && e == payload.email),
        !occurs_in(payload.email@, "invalid"@) && occurs_in(payload.email@, "exists"@) ==> r matches Err(
            UserServiceError::UserAlreadyExists,
        ),
        !occurs_in(payload.email@, "invalid"@) && !occurs_in(payload.email@, "exists"@) && occurs_in(
            payload.email@,
            "db_error"@,
        ) ==> (r matches Err(UserServiceError::DatabaseError(m)) && m@ == "Connection timeout"@),
        !occurs_in(payload.email@, "invalid"@) && !occurs_in(payload.email@, "exists"@) && !occurs_in(
            payload.email@,
            "db_error"@,
        ) ==> (r matches Ok(u) && u.id@ == "new_user_id"@ && u.email == payload.email && u.name
            == payload.name),
{
    if contains_text(payload.email.as_str(), "invalid") {
        return Err(UserServiceError::InvalidEmail(payload.email.clone()));
    }
    if contains_text(payload.email.as_str(), "exists") {
        return Err(UserServiceError::UserAlreadyExists);
    }
    if contains_text(payload.email.as_str(), "db_error") {
        return Err(UserServiceError::DatabaseError(String::from_str("Connection timeout")));
    }
    Ok(User { id: String::from_str("new_user_id"), email: payload.email, name: payload.name })
}

/// The failures of the user service.
#[derive(Debug)]
pub enum UserServiceError {
    UserNotFound(String),
    InvalidEmail(String),
    UserAlreadyExists,
    DatabaseError(String),
}

impl ServiceErrorMapping for UserServiceError {
    open spec fn spec_category(&self) -> ErrorCode {
        match self {
            UserServiceError::UserNotFound(_) => ErrorCode::NotFound,
            UserServiceError::InvalidEmail(_) => ErrorCode::BadRequest,
            UserServiceError::UserAlreadyExists => ErrorCode::BadRequest,
            UserServiceError::DatabaseError(_) => ErrorCode::InternalServerError,
        }
    }

    open spec fn spec_text(&self) -> Seq<char> {
        match self {
            UserServiceError::UserNotFound(id) => "User not found with ID: "@ + id@,
            UserServiceError::InvalidEmail(email) => "Invalid email format: "@ + email@,
            UserServiceError::UserAlreadyExists => "User already exists"@,
            UserServiceError::DatabaseError(reason) => "Database connection failed: "@ + reason@,
        }
    }

    open spec fn spec_user_message(&self) -> Option<Seq<char>> {
        match self {
            UserServiceError::UserNotFound(_) => Some("The requested user could not be found"@),
            UserServiceError::InvalidEmail(_) => Some("Please provide a valid email address"@),
            UserServiceError::UserAlreadyExists => None,
            UserServiceError::DatabaseError(_) => Some(
                "Unable to process your request at this time"@,
            ),
        }
    }

    open spec fn spec_description(&self) -> Option<Seq<char>> {
        match self {
            UserServiceError::UserNotFound(id) => Some(
                "User with ID '"@ + id@ + "' was not found in the database"@,
            ),
            UserServiceError::InvalidEmail(email) => Some(
                "Email '"@ + email@ + "' does not match required format"@,
            ),
            UserServiceError::UserAlreadyExists => Some(
                "User creation failed - email address already registered"@,
            ),
            UserServiceError::DatabaseError(reason) => Some(
                "Database operation failed: "@ + reason@,
            ),
        }
    }

    open spec fn spec_details(&self) -> Option<Seq<char>> {
        match self {
            UserServiceError::UserNotFound(id) => Some(
                "User lookup failed for ID: "@ + id@
                    + ". Database query 'SELECT * FROM users WHERE id = ?' returned no results. This could indicate the user was deleted, the ID is incorrect, or there's a data consistency issue."@,
            ),
            UserServiceError::InvalidEmail(email) => Some(
                "Email validation failed for: "@ + email@
                    + ". Expected format: user@domain.com. Received: "@ + email@
                    + ". Validation regex: ^[a-zA-Z0-9._%+-]+@[a-zA-Z0-9.-]+\\.[a-zA-Z]{2,}$"@,
            ),
            UserServiceError::UserAlreadyExists => Some(
                "User creation failed due to unique constraint violation. Email address 'john@example.com' is already registered to user ID 'user_456'. Check if user is trying to create duplicate account or if there's a data migration issue."@,
            ),
            UserServiceError::DatabaseError(reason) => Some(
                "Database operation failed with error: "@ + reason@
                    + ". Connection pool status: 5/10 connections active. Last successful query: 2 minutes ago. Check database server logs for more details."@,
            ),
        }
    }

    open spec fn spec_causes(&self) -> Seq<Seq<char>> {
        Seq::empty()
    }

    fn category(&self) -> (r: ErrorCode) {
        match self {
            UserServiceError::UserNotFound(_) => ErrorCode::NotFound,
            UserServiceError::InvalidEmail(_) => ErrorCode::BadRequest,
            UserServiceError::UserAlreadyExists => ErrorCode::BadRequest,
            UserServiceError::DatabaseError(_) => ErrorCode::InternalServerError,
        }
    }

    fn default_text(&self) -> (r: String) {
        proof {
            reveal_strlit("User not found with ID: ");
            reveal_strlit("Invalid email format: ");
            reveal_strlit("User already exists");
            reveal_strlit("Database connection failed: ");
        }
        match self {
            UserServiceError::UserNotFound(id) => concat2("User not found with ID: ", id.as_str()),
            UserServiceError::InvalidEmail(email) => concat2(
                "Invalid email format: ",
                email.as_str(),
            ),
            UserServiceError::UserAlreadyExists => String::from_str("User already exists"),
            UserServiceError::DatabaseError(reason) => concat2(
                "Database connection failed: ",
                reason.as_str(),
            ),
        }
    }

    fn user_message(&self) -> (r: Option<String>) {
        proof {
            reveal_strlit("The requested user could not be found");
            reveal_strlit("Please provide a valid email address");
            reveal_strlit("Unable to process your request at this time");
        }
        match self {
            UserServiceError::UserNotFound(_) => Some(
                String::from_str("The requested user could not be found"),
            ),
            UserServiceError::InvalidEmail(_) => Some(
                String::from_str("Please provide a valid email address"),
            ),
            UserServiceError::UserAlreadyExists => None,
            UserServiceError::DatabaseError(_) => Some(
                String::from_str("Unable to process your request at this time"),
            ),
        }
    }

    fn technical_description(&self) -> (r: Option<String>) {
        match self {
            UserServiceError::UserNotFound(id) => Some(
                concat3("User with ID '", id.as_str(), "' was not found in the database"),
            ),
            UserServiceError::InvalidEmail(email) => Some(
                concat3("Email '", email.as_str(), "' does not match required format"),
            ),
            UserServiceError::UserAlreadyExists => Some(
                String::from_str("User creation failed - email address already registered"),
            ),
            UserServiceError::DatabaseError(reason) => Some(
                concat2("Database operation failed: ", reason.as_str()),
            ),
        }
    }

    fn technical_details(&self) -> (r: Option<String>) {
        match self {
            UserServiceError::UserNotFound(id) => Some(
                concat3(
                    "User lookup failed for ID: ",
                    id.as_str(),
                    ". Database query 'SELECT * FROM users WHERE id = ?' returned no results. This could indicate the user was deleted, the ID is incorrect, or there's a data consistency issue.",
                ),
            ),
            UserServiceError::InvalidEmail(email) => {
                let mut d = concat3(
                    "Email validation failed for: ",
                    email.as_str(),
                    ". Expected format: user@domain.com. Received: ",
                );
                d.append(email.as_str());
                d.append(
                    ". Validation regex: ^[a-zA-Z0-9._%+-]+@[a-zA-Z0-9.-]+\\.[a-zA-Z]{2,}$",
                );
                Some(d)
            },
            UserServiceError::UserAlreadyExists => Some(
                String::from_str(
                    "User creation failed due to unique constraint violation. Email address 'john@example.com' is already registered to user ID 'user_456'. Check if user is trying to create duplicate account or if there's a data migration issue.",
                ),
            ),
            UserServiceError::DatabaseError(reason) => Some(
                concat3(
                    "Database operation failed with error: ",
                    reason.as_str(),
                    ". Connection pool status: 5/10 connections active. Last successful query: 2 minutes ago. Check database server logs for more details.",
                ),
            ),
        }
    }

    fn source(&self) -> (r: Option<Cause>) {
        None
    }
}

} // verus!

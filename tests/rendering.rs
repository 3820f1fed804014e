use server::api_error::{render, render_at, Timestamp};
use server::capability::{join_causes, Cause, ResponseError, ServiceErrorMapping};
use server::code::ErrorCode;
use server::controller::ControllerError;
use server::dependency::DependencyFailure;
use server::response::response;
use server::simple::SimpleServiceError;
use server::templates::ServiceError;
use server::users::UserServiceError;

fn at(secs: i64) -> Timestamp {
    Timestamp { secs, nanos: 0 }
}

#[test]
fn status_table_is_fixed() {
    assert_eq!(ErrorCode::NotFound.status(), 404);
    assert_eq!(ErrorCode::BadRequest.status(), 400);
    assert_eq!(ErrorCode::UnAuthorized.status(), 401);
    assert_eq!(ErrorCode::InternalServerError.status(), 500);
    for code in [
        ErrorCode::NotFound,
        ErrorCode::BadRequest,
        ErrorCode::UnAuthorized,
        ErrorCode::InternalServerError,
    ] {
        assert_eq!(code.status(), code.status());
    }
}

#[test]
fn codes_have_stable_tags() {
    assert_eq!(ErrorCode::NotFound.as_str(), "NotFound");
    assert_eq!(ErrorCode::BadRequest.as_str(), "BadRequest");
    assert_eq!(ErrorCode::UnAuthorized.as_str(), "UnAuthorized");
    assert_eq!(ErrorCode::InternalServerError.as_str(), "InternalServerError");
}

#[test]
fn template_not_found_uses_override() {
    let err = ServiceError::NotFound("tmpl_42".to_string());
    let reply = response("template.get", err);
    assert_eq!(reply.status, 404);
    assert!(!reply.body.success);
    let e = &reply.body.error;
    assert_eq!(e.code, ErrorCode::NotFound);
    assert_eq!(e.code.as_str(), "NotFound");
    assert_eq!(e.status, 404);
    assert_eq!(e.trace_id, "template.get");
    assert_eq!(e.message, "The requested template could not be found");
    let description = e.description.clone().unwrap();
    assert!(description.contains("tmpl_42"));
    assert_eq!(
        description,
        "Template with ID 'tmpl_42' was not found in the database"
    );
    assert_eq!(
        reply.headers,
        vec![("content-type".to_string(), "application/json".to_string())]
    );
}

#[test]
fn cause_chain_becomes_details() {
    let chain = Cause::caused_by("write failed".to_string(), Cause::root("disk full".to_string()));
    let err = DependencyFailure::new(
        ErrorCode::InternalServerError,
        "Saving the template failed".to_string(),
        Some(chain),
    );
    let e = render_at("trace-1", &err, at(0));
    assert_eq!(e.details, Some("write failed\ndisk full".to_string()));
    assert_eq!(e.description, None);
    assert_eq!(e.message, "Saving the template failed");
    assert_eq!(e.status, 500);
}

#[test]
fn no_chain_and_no_override_gives_no_details() {
    let err = DependencyFailure::new(ErrorCode::BadRequest, "bad".to_string(), None);
    assert_eq!(err.error_details(), None);
    let e = render_at("t", &SimpleServiceError::SimpleError, at(0));
    assert_eq!(e.details, None);
    assert_eq!(e.description, None);
}

#[test]
fn join_causes_orders_immediate_first() {
    let chain = Cause::caused_by(
        "a".to_string(),
        Cause::caused_by("b".to_string(), Cause::root("c".to_string())),
    );
    assert_eq!(join_causes(&chain), "a\nb\nc");
    assert_eq!(join_causes(&Cause::root("only".to_string())), "only");
    assert_eq!(join_causes(&chain.duplicate()), "a\nb\nc");
}

#[test]
fn status_always_follows_category() {
    let errors: Vec<ControllerError> = vec![
        ServiceError::NotFound("x".to_string()).into(),
        ServiceError::InternalServerError.into(),
        ServiceError::BadRequest.into(),
        ServiceError::UnAuthorized.into(),
        UserServiceError::UserNotFound("u".to_string()).into(),
        UserServiceError::InvalidEmail("e".to_string()).into(),
        UserServiceError::UserAlreadyExists.into(),
        UserServiceError::DatabaseError("r".to_string()).into(),
    ];
    let expected = [404, 500, 400, 401, 404, 400, 400, 500];
    for (err, status) in errors.iter().zip(expected) {
        let e = render_at("t", err, at(1));
        assert_eq!(e.status, status);
        assert_eq!(e.status, err.category().status());
        assert_eq!(e.code, err.category());
    }
    for err in [SimpleServiceError::SimpleError, SimpleServiceError::AnotherError] {
        let e = render_at("t", &err, at(1));
        assert_eq!(e.status, err.category().status());
    }
}

#[test]
fn message_without_override_is_own_text() {
    let e = render_at("t", &UserServiceError::UserAlreadyExists, at(0));
    assert_eq!(e.message, "User already exists");
    let e = render_at("t", &ServiceError::BadRequest, at(0));
    assert_eq!(e.message, "Invalid request data");
    let e = render_at("t", &SimpleServiceError::AnotherError, at(0));
    assert_eq!(e.message, "Another simple error");
    assert_eq!(e.code, ErrorCode::InternalServerError);
}

#[test]
fn message_with_override_is_override() {
    let err = UserServiceError::DatabaseError("Connection timeout".to_string());
    let e = render_at("t", &err, at(0));
    assert_eq!(e.message, "Unable to process your request at this time");
    assert_eq!(err.default_text(), "Database connection failed: Connection timeout");
    assert_eq!(
        e.description,
        Some("Database operation failed: Connection timeout".to_string())
    );
    let e = render_at("t", &UserServiceError::InvalidEmail("x@".to_string()), at(0));
    assert_eq!(e.message, "Please provide a valid email address");
}

#[test]
fn rendering_twice_differs_only_in_time() {
    let err = ServiceError::NotFound("tmpl_7".to_string());
    let a = render("trace", &err);
    let b = render("trace", &err);
    assert_eq!(a.trace_id, b.trace_id);
    assert_eq!(a.code, b.code);
    assert_eq!(a.status, b.status);
    assert_eq!(a.message, b.message);
    assert_eq!(a.description, b.description);
    assert_eq!(a.details, b.details);
    assert!(a.timestamp.nanos < 1_000_000_000);
    assert!(a.timestamp.secs > 0);
    assert!((a.timestamp.secs, a.timestamp.nanos) <= (b.timestamp.secs, b.timestamp.nanos));
}

#[test]
fn render_at_keeps_given_time() {
    let t = Timestamp { secs: 1_705_312_200, nanos: 5 };
    let e = render_at("x", &ServiceError::UnAuthorized, t);
    assert_eq!(e.timestamp, t);
    assert_eq!(e.status, 401);
}

#[test]
fn template_details_name_the_id() {
    let e = render_at("t", &ServiceError::NotFound("abc".to_string()), at(0));
    assert_eq!(
        e.details,
        Some("Template lookup failed for ID: abc. Database query returned no results. This could indicate the template was deleted or the ID is incorrect.".to_string())
    );
}

#[test]
fn user_invalid_email_details() {
    let e = render_at("t", &UserServiceError::InvalidEmail("bob".to_string()), at(0));
    assert_eq!(
        e.details,
        Some("Email validation failed for: bob. Expected format: user@domain.com. Received: bob. Validation regex: ^[a-zA-Z0-9._%+-]+@[a-zA-Z0-9.-]+\\.[a-zA-Z]{2,}$".to_string())
    );
}

#[test]
fn controller_error_delegates_to_service() {
    let err: ControllerError = ServiceError::NotFound("t1".to_string()).into();
    assert_eq!(err.default_text(), "TemplateError: Template not found with ID: t1");
    assert_eq!(
        err.message(),
        "The requested template could not be found"
    );
    assert_eq!(err.status_code(), 404);
    assert_eq!(err.error_code(), ErrorCode::NotFound);
    let cause = err.source().unwrap();
    assert_eq!(join_causes(&cause), "Template not found with ID: t1");
    let err = ControllerError::from(UserServiceError::UserAlreadyExists);
    assert_eq!(err.default_text(), "UserError: User already exists");
    assert_eq!(err.message(), "User already exists");
    assert_eq!(
        err.error_description(),
        Some("User creation failed - email address already registered".to_string())
    );
    assert!(err.error_details().unwrap().starts_with("User creation failed due to unique"));
}

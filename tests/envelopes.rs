use server::response::{success, success_with_status, with_headers, HeaderError};
use server::templates::{create, get, CreateReq, CreateRes};
use server::text::{concat2, concat3, contains_text, same_text};
use server::users::{create_user, get_user, CreateUserReq, UserServiceError};

fn json() -> (String, String) {
    ("content-type".to_string(), "application/json".to_string())
}

#[test]
fn success_defaults_to_ok() {
    let reply = success(CreateRes { id: "1".to_string() });
    assert_eq!(reply.status, 200);
    assert!(reply.body.success);
    assert_eq!(reply.body.data.id, "1");
    assert_eq!(reply.headers, vec![json()]);
}

#[test]
fn success_with_given_status() {
    let reply = success_with_status(7u32, 201);
    assert_eq!(reply.status, 201);
    assert_eq!(reply.body.data, 7);
    assert!(reply.body.success);
}

#[test]
fn injected_header_is_carried() {
    let headers = vec![("X-Trace".to_string(), "abc".to_string())];
    let reply = with_headers("payload", &headers, 200).unwrap();
    assert_eq!(reply.status, 200);
    assert_eq!(
        reply.headers,
        vec![json(), ("X-Trace".to_string(), "abc".to_string())]
    );
    assert_eq!(reply.body.data, "payload");
    assert!(reply.body.success);
}

#[test]
fn no_extra_headers() {
    let reply = with_headers(1u8, &vec![], 204).unwrap();
    assert_eq!(reply.headers, vec![json()]);
    assert_eq!(reply.status, 204);
}

#[test]
fn bad_header_name_is_refused() {
    let headers = vec![
        ("X-Ok".to_string(), "v".to_string()),
        ("bad name".to_string(), "v".to_string()),
        ("X-Other".to_string(), "bad\nvalue".to_string()),
    ];
    assert_eq!(
        with_headers(0u8, &headers, 200).err(),
        Some(HeaderError::InvalidName { index: 1 })
    );
    let empty = vec![("".to_string(), "v".to_string())];
    assert_eq!(
        with_headers(0u8, &empty, 200).err(),
        Some(HeaderError::InvalidName { index: 0 })
    );
}

#[test]
fn bad_header_value_is_refused() {
    let headers = vec![
        ("X-One".to_string(), "fine\tvalue".to_string()),
        ("X-Two".to_string(), "line\nbreak".to_string()),
    ];
    assert_eq!(
        with_headers(0u8, &headers, 200).err(),
        Some(HeaderError::InvalidValue { index: 1 })
    );
    let del = vec![("X-Del".to_string(), "a\u{7f}".to_string())];
    assert_eq!(
        with_headers(0u8, &del, 200).err(),
        Some(HeaderError::InvalidValue { index: 0 })
    );
    let wide = vec![("X-Wide".to_string(), "caf\u{e9}".to_string())];
    assert!(with_headers(0u8, &wide, 200).is_ok());
}

#[test]
fn template_service_stand_ins() {
    assert_eq!(get("abc".to_string()).unwrap().id, "abc");
    let req = CreateReq {
        name: "n".to_string(),
        description: "d".to_string(),
        content: "c".to_string(),
    };
    let t = create(req).unwrap();
    assert_eq!(t.id, "1");
    assert_eq!(t.name, "n");
    assert_eq!(t.description, "d");
    assert_eq!(t.content, "c");
}

#[test]
fn user_lookup_stand_in() {
    match get_user("not_found".to_string()) {
        Err(UserServiceError::UserNotFound(id)) => assert_eq!(id, "not_found"),
        _ => panic!("expected a missing user"),
    }
    let u = get_user("u1".to_string()).unwrap();
    assert_eq!(u.id, "u1");
    assert_eq!(u.email, "user@example.com");
    assert_eq!(u.name, "John Doe");
}

#[test]
fn user_creation_markers() {
    let req = |email: &str| CreateUserReq { email: email.to_string(), name: "Ann".to_string() };
    match create_user(req("invalid_exists@x")) {
        Err(UserServiceError::InvalidEmail(e)) => assert_eq!(e, "invalid_exists@x"),
        _ => panic!("expected an invalid email"),
    }
    assert!(matches!(create_user(req("exists@x")), Err(UserServiceError::UserAlreadyExists)));
    match create_user(req("db_error@x")) {
        Err(UserServiceError::DatabaseError(m)) => assert_eq!(m, "Connection timeout"),
        _ => panic!("expected a database error"),
    }
    let u = create_user(req("ann@example.com")).unwrap();
    assert_eq!(u.id, "new_user_id");
    assert_eq!(u.email, "ann@example.com");
    assert_eq!(u.name, "Ann");
}

#[test]
fn text_helpers() {
    assert!(contains_text("hello world", "o w"));
    assert!(contains_text("abc", ""));
    assert!(!contains_text("abc", "abcd"));
    assert!(!contains_text("abcab", "ba"));
    assert!(contains_text("x\u{e9}y", "\u{e9}y"));
    assert!(same_text("abc", "abc"));
    assert!(!same_text("abc", "abd"));
    assert!(!same_text("abc", "ab"));
    assert_eq!(concat2("ab", "cd"), "abcd");
    assert_eq!(concat3("a", "", "c"), "ac");
}

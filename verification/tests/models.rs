//! Validated request constructors, configuration names, and the terminal
//! response types.

use blog_rs::config::{Environment, Format, LogLevel};
use blog_rs::errors::Error;
use blog_rs::handlers::{
    BatchDeletePostHttpRequest, CreatePostHttpRequestBody, CreateUserHttpRequest,
    CreateUserResponseData, DeletePostHttpRequest, DeleteUserHttpRequest, GetUserHttpRequest,
    ListPostHttpRequestBody, LoginHttpRequest, UpdatePostHttpRequestBody,
};
use blog_rs::models::posts::{BatchDeletePostRequest, CreatePostRequest, ListPostRequest};
use blog_rs::models::users::{CreateUserRequest, GetUserRequest, LoginRequest};
use blog_rs::password::verify_password_hash;
use blog_rs::response::{ApiError, ApiResponseBody};
use blog_rs::store::Store;

#[test]
fn create_user_request_hashes_the_password() {
    let req = CreateUserRequest::new(
        "alice".to_string(),
        Some("alice@example.com".to_string()),
        None,
        "hunter2hunter2".to_string(),
    )
    .unwrap();
    assert_ne!(req.password, "hunter2hunter2");
    assert!(verify_password_hash(req.password, "hunter2hunter2".to_string()).is_ok());
}

#[test]
fn create_user_request_validates_shapes() {
    // username too long
    let long = "x".repeat(51);
    assert!(matches!(
        CreateUserRequest::new(long, None, None, "hunter2hunter2".to_string()),
        Err(Error::Validation(_))
    ));
    // username empty
    assert!(CreateUserRequest::new(String::new(), None, None, "hunter2hunter2".to_string())
        .is_err());
    // password too short / too long
    assert!(CreateUserRequest::new("alice".to_string(), None, None, "short".to_string()).is_err());
    assert!(CreateUserRequest::new(
        "alice".to_string(),
        None,
        None,
        "x".repeat(19),
    )
    .is_err());
    // malformed email
    assert!(matches!(
        CreateUserRequest::new(
            "alice".to_string(),
            Some("not-an-email".to_string()),
            None,
            "hunter2hunter2".to_string(),
        ),
        Err(Error::Validation(_))
    ));
}

#[test]
fn login_and_get_requests_validate_lengths() {
    assert!(LoginRequest::new("".to_string(), "hunter2hunter2".to_string(), "s".to_string(), 1)
        .is_err());
    assert!(LoginRequest::new("alice".to_string(), "short".to_string(), "s".to_string(), 1)
        .is_err());
    assert!(GetUserRequest::new("".to_string()).is_err());
    assert!(GetUserRequest::new("alice".to_string()).is_ok());
}

#[test]
fn post_requests_validate_shapes() {
    assert!(CreatePostRequest::new("".to_string(), "body".to_string(), "a".to_string()).is_err());
    assert!(CreatePostRequest::new("t".repeat(51), "body".to_string(), "a".to_string()).is_err());
    assert!(CreatePostRequest::new("t".to_string(), "".to_string(), "a".to_string()).is_err());
    assert!(ListPostRequest::new(0, 0, "a".to_string()).is_err());
    assert!(ListPostRequest::new(0, 51, "a".to_string()).is_err());
    assert!(ListPostRequest::new(7, 50, "a".to_string()).is_ok());
    assert!(BatchDeletePostRequest::new(vec![], "a".to_string()).is_err());
}

#[test]
fn http_requests_convert_into_domain() {
    let create = CreateUserHttpRequest {
        username: "alice".to_string(),
        password: "hunter2hunter2".to_string(),
        email: None,
        phone: None,
    };
    let domain = create.try_into_domain().unwrap();
    assert_eq!(domain.username, "alice");

    let login = LoginHttpRequest {
        username: "alice".to_string(),
        password: "hunter2hunter2".to_string(),
    };
    let domain = login.try_into_domain("secret".to_string(), 60).unwrap();
    assert_eq!(domain.jwt_secret, "secret");
    assert_eq!(domain.expiration, 60);

    assert!(GetUserHttpRequest { username: "alice".to_string() }.try_into_domain().is_ok());
    assert!(DeleteUserHttpRequest { username: String::new() }.try_into_domain().is_err());

    let body = CreatePostHttpRequestBody { title: "t".to_string(), content: "c".to_string() };
    assert_eq!(body.try_into_domain("alice").unwrap().username, "alice");

    let list = ListPostHttpRequestBody { offset: 0, limit: 10 };
    assert_eq!(list.try_into_domain("alice").unwrap().limit, 10);

    let update = UpdatePostHttpRequestBody { title: "t".to_string(), content: "c".to_string() };
    assert_eq!(update.try_into_domain("id-1".to_string(), "alice").unwrap().id, "id-1");

    let del = DeletePostHttpRequest { id: "id-1".to_string() };
    assert_eq!(del.try_into_domain("alice").unwrap().username, "alice");

    let batch = BatchDeletePostHttpRequest { ids: vec!["id-1".to_string()] };
    assert_eq!(batch.try_into_domain("alice").unwrap().ids.len(), 1);
    let empty = BatchDeletePostHttpRequest { ids: vec![] };
    assert!(empty.try_into_domain("alice").is_err());
}

#[test]
fn response_data_copies_identity_fields() {
    let mut store = Store::new();
    let req = CreateUserRequest::new(
        "alice".to_string(),
        Some("alice@example.com".to_string()),
        Some("555".to_string()),
        "hunter2hunter2".to_string(),
    )
    .unwrap();
    let user = store.create_user(&req).unwrap();
    let data = CreateUserResponseData::from(&user);
    assert_eq!(data.id, user.id);
    assert_eq!(data.username, "alice");
    assert_eq!(data.email, Some("alice@example.com".to_string()));
    assert_eq!(data.phone, Some("555".to_string()));
}

#[test]
fn error_kinds_map_to_status_codes() {
    let cases: Vec<(Error, u16)> = vec![
        (Error::Validation("v".to_string()), 422),
        (Error::Unauthorized("u".to_string()), 401),
        (Error::PermissionDenied("p".to_string()), 403),
        (Error::Conflict("c".to_string()), 409),
        (Error::Internal("i".to_string()), 500),
    ];
    for (e, code) in cases {
        let api: ApiError = e.into();
        assert_eq!(api.status_code(), code);
    }
}

#[test]
fn internal_detail_never_reaches_the_caller() {
    let api: ApiError = Error::Internal("database password leaked".to_string()).into();
    assert_eq!(api.public_message(), "Internal server error");
    let api: ApiError = Error::Conflict("username already exists".to_string()).into();
    assert_eq!(api.public_message(), "username already exists");
}

#[test]
fn response_bodies_carry_status_and_data() {
    let ok = ApiResponseBody::new(201u16, "payload".to_string());
    assert_eq!(ok.status_code, 201);
    assert_eq!(ok.data, "payload");
    let err = ApiResponseBody::new_error(409, "conflict".to_string());
    assert_eq!(err.status_code, 409);
    assert_eq!(err.data.message, "conflict");
}

#[test]
fn environment_names_round_trip() {
    assert_eq!(Environment::Local.as_str(), "local");
    assert_eq!(Environment::Production.as_str(), "production");
    assert!(matches!(Environment::try_from("local"), Ok(Environment::Local)));
    assert!(matches!(Environment::try_from("production"), Ok(Environment::Production)));
    assert!(Environment::try_from("staging").is_err());
}

#[test]
fn logger_names_and_defaults() {
    assert_eq!(LogLevel::default().as_str(), "info");
    assert_eq!(LogLevel::Warn.as_str(), "warn");
    assert_eq!(Format::default().as_str(), "compact");
    assert_eq!(Format::Json.as_str(), "json");
}

#[test]
fn error_message_is_kept() {
    let e = Error::Conflict("username already exists".to_string());
    assert_eq!(e.message(), "username already exists");
}

//! Credential hashing, token issuing/validation and the interception chain,
//! run against the real hashing and signing crates.

use blog_rs::chain::{authenticate_at, authorize, extract_token, jwt_validate};
use blog_rs::errors::Error;
use blog_rs::models::users::CreateUserRequest;
use blog_rs::password::{compute_password_hash, verify_password_hash};
use blog_rs::response::ApiError;
use blog_rs::store::Store;
use blog_rs::token::JWT;

const SECRET: &str = "c2VjcmV0";
const OTHER_SECRET: &str = "b3RoZXI=";

#[test]
fn hash_then_verify_succeeds() {
    let hash = compute_password_hash("hunter2hunter2").unwrap();
    assert!(verify_password_hash(hash, "hunter2hunter2".to_string()).is_ok());
}

#[test]
fn verify_with_other_password_fails() {
    let hash = compute_password_hash("hunter2hunter2").unwrap();
    assert!(verify_password_hash(hash, "hunter2hunter3".to_string()).is_err());
}

#[test]
fn two_hashes_of_same_password_differ() {
    let a = compute_password_hash("hunter2hunter2").unwrap();
    let b = compute_password_hash("hunter2hunter2").unwrap();
    assert_ne!(a, b);
}

#[test]
fn verify_with_malformed_hash_fails() {
    assert!(verify_password_hash("not a phc string".to_string(), "whatever8".to_string()).is_err());
}

#[test]
fn token_valid_strictly_before_expiry() {
    let jwt = JWT::new(SECRET);
    let issue: u64 = 1_700_000_000;
    let ttl: u64 = 60;
    let token = jwt.generate_token_at(issue, &ttl, "pid-1".to_string(), None).unwrap();
    // boundary-exact, zero leeway
    assert!(jwt.validate_at(&token, issue).is_ok());
    assert!(jwt.validate_at(&token, issue + ttl - 1).is_ok());
    assert!(jwt.validate_at(&token, issue + ttl).is_err());
    assert!(jwt.validate_at(&token, issue + ttl + 1).is_err());
}

#[test]
fn token_round_trips_claims() {
    let jwt = JWT::new(SECRET);
    let ttl: u64 = 120;
    let token = jwt
        .generate_token_at(1_700_000_000, &ttl, "pid-42".to_string(), Some("extra".to_string()))
        .unwrap();
    let claims = jwt.validate_at(&token, 1_700_000_000).unwrap();
    assert_eq!(claims.pid, "pid-42");
    assert_eq!(claims.exp, 1_700_000_120);
    assert_eq!(claims.claims, Some("extra".to_string()));
}

#[test]
fn token_issued_now_validates_now() {
    let jwt = JWT::new(SECRET);
    let ttl: u64 = 3600;
    let token = jwt.generate_token(&ttl, "pid-7".to_string(), None).unwrap();
    let claims = jwt.validate(&token).unwrap();
    assert_eq!(claims.pid, "pid-7");
}

#[test]
fn invalid_base64_secret_is_internal_error() {
    let jwt = JWT::new("not!base64!!");
    let ttl: u64 = 60;
    let r = jwt.generate_token_at(0, &ttl, "pid".to_string(), None);
    assert!(matches!(r, Err(Error::Internal(_))));
}

#[test]
fn expired_and_forged_tokens_get_same_error_shape() {
    let jwt = JWT::new(SECRET);
    let issue: u64 = 1_700_000_000;
    let ttl: u64 = 60;
    // correctly signed but expired at the check time
    let expired = jwt.generate_token_at(issue, &ttl, "pid-1".to_string(), None).unwrap();
    let e1 = jwt.validate_at(&expired, issue + ttl).unwrap_err();
    // well formed but signed under another secret
    let forged = JWT::new(OTHER_SECRET)
        .generate_token_at(issue, &ttl, "pid-1".to_string(), None)
        .unwrap();
    let e2 = jwt.validate_at(&forged, issue).unwrap_err();
    assert!(matches!(e1, Error::Unauthorized(_)));
    assert!(matches!(e2, Error::Unauthorized(_)));
    let a1: ApiError = e1.into();
    let a2: ApiError = e2.into();
    assert_eq!(a1.status_code(), 401);
    assert_eq!(a2.status_code(), 401);
}

#[test]
fn extract_token_strips_prefix() {
    assert_eq!(extract_token(Some("Bearer abc.def")).unwrap(), "abc.def");
}

#[test]
fn extract_token_rejects_missing_and_malformed_headers() {
    assert!(matches!(extract_token(None), Err(Error::Unauthorized(_))));
    assert!(matches!(extract_token(Some("abc")), Err(Error::Unauthorized(_))));
    assert!(matches!(extract_token(Some("Basic abc")), Err(Error::Unauthorized(_))));
    assert!(matches!(extract_token(Some("bearer abc")), Err(Error::Unauthorized(_))));
}

#[test]
fn jwt_validate_accepts_fresh_token() {
    let jwt = JWT::new(SECRET);
    let ttl: u64 = 3600;
    let token = jwt.generate_token(&ttl, "pid-9".to_string(), None).unwrap();
    assert_eq!(jwt_validate(&token, SECRET).unwrap().pid, "pid-9");
    assert!(jwt_validate(&token, OTHER_SECRET).is_err());
}

fn store_with_user(name: &str) -> Store {
    let mut store = Store::new();
    let req = CreateUserRequest::new(
        name.to_string(),
        None,
        None,
        "hunter2hunter2".to_string(),
    )
    .unwrap();
    store.create_user(&req).unwrap();
    store
}

#[test]
fn authentication_stage_resolves_identity() {
    let store = store_with_user("alice");
    let id = store.users[0].id.clone();
    let issue: u64 = 1_700_000_000;
    let ttl: u64 = 60;
    let token = JWT::new(SECRET).generate_token_at(issue, &ttl, id, None).unwrap();
    let header = format!("Bearer {token}");
    let user = authenticate_at(&store, SECRET, Some(&header), issue).unwrap();
    assert_eq!(user.username, "alice");
    // expired at the check time: refused, same shape as any other failure
    let e = authenticate_at(&store, SECRET, Some(&header), issue + ttl).unwrap_err();
    assert!(matches!(e, Error::Unauthorized(_)));
    // valid token whose principal no longer resolves: same shape
    let ghost_token = JWT::new(SECRET)
        .generate_token_at(issue, &ttl, "no-such-id".to_string(), None)
        .unwrap();
    let header2 = format!("Bearer {ghost_token}");
    let e2 = authenticate_at(&store, SECRET, Some(&header2), issue).unwrap_err();
    assert!(matches!(e2, Error::Unauthorized(_)));
}

#[test]
fn authorization_stage_gates_on_policy_and_identity() {
    let store = store_with_user("alice");
    let alice = store.users[0].clone();
    assert!(authorize(&store, Some(&alice), "/api/users/alice", "GET").is_ok());
    let denied = authorize(&store, Some(&alice), "/api/users/bob", "GET").unwrap_err();
    assert!(matches!(denied, Error::PermissionDenied(_)));
    // defense in depth: no identity in context is a denial, not a pass
    let missing = authorize(&store, None, "/api/users/alice", "GET").unwrap_err();
    assert!(matches!(missing, Error::PermissionDenied(_)));
}

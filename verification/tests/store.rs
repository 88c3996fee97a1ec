//! The transactional store: identity/rule coupling, ownership-scoped post
//! mutation, and the login flow.

use blog_rs::errors::Error;
use blog_rs::models::posts::{
    BatchDeletePostRequest, CreatePostRequest, DeletePostRequest, ListPostRequest,
    UpdatePostRequest,
};
use blog_rs::models::users::{
    CreateUserRequest, DeleteUserRequest, GetUserByIdRequest, GetUserRequest, LoginRequest,
};
use blog_rs::store::Store;
use blog_rs::token::JWT;

const SECRET: &str = "c2VjcmV0";

fn create_req(name: &str) -> CreateUserRequest {
    CreateUserRequest::new(name.to_string(), None, None, "hunter2hunter2".to_string()).unwrap()
}

fn post_req(title: &str, owner: &str) -> CreatePostRequest {
    CreatePostRequest::new(title.to_string(), "body".to_string(), owner.to_string()).unwrap()
}

#[test]
fn create_user_grants_own_subtree() {
    let mut store = Store::new();
    let user = store.create_user(&create_req("alice")).unwrap();
    assert_eq!(user.username, "alice");
    assert_eq!(user.id.len(), 36);
    assert!(store.check_permission("alice", "/api/users/alice", "GET").unwrap());
    assert!(store.check_permission("alice", "/api/users/alice", "POST").unwrap());
    assert!(!store.check_permission("alice", "/api/users/bob", "GET").unwrap());
}

#[test]
fn duplicate_username_conflicts_and_leaves_one_row() {
    let mut store = Store::new();
    store.create_user(&create_req("alice")).unwrap();
    let second = store.create_user(&create_req("alice"));
    assert!(matches!(second, Err(Error::Conflict(_))));
    // exactly one identity row and one rule set exist afterwards
    assert_eq!(store.users.len(), 1);
    assert_eq!(store.policy.rules.len(), 1);
}

#[test]
fn failed_creation_leaves_no_identity_row() {
    let mut store = Store::new();
    store.create_user(&create_req("alice")).unwrap();
    let users_before = store.users.len();
    let rules_before = store.policy.rules.len();
    assert!(store.create_user(&create_req("alice")).is_err());
    assert_eq!(store.users.len(), users_before);
    assert_eq!(store.policy.rules.len(), rules_before);
}

#[test]
fn delete_user_removes_row_and_rule() {
    let mut store = Store::new();
    store.create_user(&create_req("alice")).unwrap();
    store.create_user(&create_req("bob")).unwrap();
    let req = DeleteUserRequest::new("alice".to_string()).unwrap();
    store.delete_user(&req).unwrap();
    assert_eq!(store.users.len(), 1);
    assert_eq!(store.policy.rules.len(), 1);
    assert!(store.get_user_by_username("alice").is_none());
    // the former subject is denied on its former object
    assert!(!store.check_permission("alice", "/api/users/alice", "GET").unwrap());
    assert!(store.check_permission("bob", "/api/users/bob", "GET").unwrap());
    // deleting again is a conflict and changes nothing
    assert!(matches!(store.delete_user(&req), Err(Error::Conflict(_))));
    assert_eq!(store.users.len(), 1);
}

#[test]
fn lookups_resolve_by_username_and_id() {
    let mut store = Store::new();
    let alice = store.create_user(&create_req("alice")).unwrap();
    let by_name = store.get_user(&GetUserRequest::new("alice".to_string()).unwrap()).unwrap();
    assert_eq!(by_name.id, alice.id);
    let by_id = store.get_user_by_id(&GetUserByIdRequest::new(alice.id.clone()).unwrap()).unwrap();
    assert_eq!(by_id.username, "alice");
    assert!(matches!(
        store.get_user(&GetUserRequest::new("carol".to_string()).unwrap()),
        Err(Error::Conflict(_))
    ));
    assert!(matches!(
        store.get_user_by_id(&GetUserByIdRequest::new("nope".to_string()).unwrap()),
        Err(Error::Conflict(_))
    ));
}

#[test]
fn login_issues_token_for_principal_id() {
    let mut store = Store::new();
    let alice = store.create_user(&create_req("alice")).unwrap();
    let req = LoginRequest::new(
        "alice".to_string(),
        "hunter2hunter2".to_string(),
        SECRET.to_string(),
        3600,
    )
    .unwrap();
    let token = store.login(&req).unwrap();
    let claims = JWT::new(SECRET).validate(&token).unwrap();
    assert_eq!(claims.pid, alice.id);
}

#[test]
fn login_rejects_wrong_password_and_unknown_user() {
    let mut store = Store::new();
    store.create_user(&create_req("alice")).unwrap();
    let wrong = LoginRequest::new(
        "alice".to_string(),
        "wrongwrong".to_string(),
        SECRET.to_string(),
        3600,
    )
    .unwrap();
    assert!(matches!(store.login(&wrong), Err(Error::Unauthorized(_))));
    let unknown = LoginRequest::new(
        "carol".to_string(),
        "hunter2hunter2".to_string(),
        SECRET.to_string(),
        3600,
    )
    .unwrap();
    assert!(matches!(store.login(&unknown), Err(Error::Unauthorized(_))));
}

#[test]
fn login_with_bad_secret_is_internal() {
    let mut store = Store::new();
    store.create_user(&create_req("alice")).unwrap();
    let req = LoginRequest::new(
        "alice".to_string(),
        "hunter2hunter2".to_string(),
        "not!base64!!".to_string(),
        3600,
    )
    .unwrap();
    assert!(matches!(store.login(&req), Err(Error::Internal(_))));
}

#[test]
fn posts_are_scoped_to_their_owner() {
    let mut store = Store::new();
    let a = store.create_post(&post_req("one", "alice")).unwrap();
    store.create_post(&post_req("two", "bob")).unwrap();
    assert_eq!(store.post_count(), 2);
    // another owner cannot update the post
    let foreign = UpdatePostRequest::new(
        a.id.clone(),
        "hijack".to_string(),
        "body".to_string(),
        "bob".to_string(),
    )
    .unwrap();
    assert!(matches!(store.update_post(&foreign), Err(Error::Conflict(_))));
    // the owner can
    let own = UpdatePostRequest::new(
        a.id.clone(),
        "renamed".to_string(),
        "body2".to_string(),
        "alice".to_string(),
    )
    .unwrap();
    let updated = store.update_post(&own).unwrap();
    assert_eq!(updated.title, "renamed");
    assert_eq!(updated.created_at, a.created_at);
    assert_eq!(store.get_post(&a.id).unwrap().title, "renamed");
    // another owner cannot delete it either
    let foreign_del = DeletePostRequest::new(a.id.clone(), "bob".to_string()).unwrap();
    store.delete_post(&foreign_del).unwrap();
    assert_eq!(store.post_count(), 2);
    let own_del = DeletePostRequest::new(a.id.clone(), "alice".to_string()).unwrap();
    store.delete_post(&own_del).unwrap();
    assert_eq!(store.post_count(), 1);
}

#[test]
fn batch_delete_removes_only_listed_owned_posts() {
    let mut store = Store::new();
    let a = store.create_post(&post_req("one", "alice")).unwrap();
    let b = store.create_post(&post_req("two", "alice")).unwrap();
    let c = store.create_post(&post_req("three", "bob")).unwrap();
    let req = BatchDeletePostRequest::new(
        vec![a.id.clone(), b.id.clone(), c.id.clone()],
        "alice".to_string(),
    )
    .unwrap();
    store.batch_delete_post(&req).unwrap();
    assert_eq!(store.post_count(), 1);
    assert_eq!(store.get_post(&c.id).unwrap().username, "bob");
}

#[test]
fn list_post_windows_most_recent_first() {
    let mut store = Store::new();
    let a = store.create_post(&post_req("one", "alice")).unwrap();
    let b = store.create_post(&post_req("two", "alice")).unwrap();
    let c = store.create_post(&post_req("three", "alice")).unwrap();
    store.create_post(&post_req("other", "bob")).unwrap();
    let page = store
        .list_post(ListPostRequest::new(0, 2, "alice".to_string()).unwrap())
        .unwrap();
    assert_eq!(page.total, 4);
    assert_eq!(page.posts.len(), 2);
    assert_eq!(page.posts[0].id, c.id);
    assert_eq!(page.posts[1].id, b.id);
    let rest = store
        .list_post(ListPostRequest::new(2, 2, "alice".to_string()).unwrap())
        .unwrap();
    assert_eq!(rest.posts.len(), 1);
    assert_eq!(rest.posts[0].id, a.id);
    let beyond = store
        .list_post(ListPostRequest::new(10, 2, "alice".to_string()).unwrap())
        .unwrap();
    assert_eq!(beyond.posts.len(), 0);
}

#[test]
fn fresh_posts_get_distinct_ids_and_timestamps() {
    let mut store = Store::new();
    let a = store.create_post(&post_req("one", "alice")).unwrap();
    let b = store.create_post(&post_req("two", "alice")).unwrap();
    assert_ne!(a.id, b.id);
    assert_eq!(a.id.len(), 36);
    assert_eq!(a.created_at, a.updated_at);
}

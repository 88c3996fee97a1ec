//! The wire-shaped request and response types of the protected operations,
//! and their conversion into validated domain requests.
//!
//! The I/O adapter parses bodies, paths and query strings into these types
//! and hands back their response counterparts; everything in between — the
//! validation and the conversion — lives here.

use vstd::prelude::*;
use vstd::string::StringExecFns;

use crate::errors::Error;
use crate::models::posts::{
    BatchDeletePostRequest, CreatePostRequest, DeletePostRequest, ListPostRequest,
    ListPostResponse, Post, UpdatePostRequest,
};
use crate::models::users::{
    opt_view, valid_create_user, CreateUserRequest, DeleteUserRequest, GetUserRequest,
    LoginRequest, User,
};
use crate::password::verify_ok;

verus! {

// ---------------------------------------------------------------------------
// Identities.
// ---------------------------------------------------------------------------
/// The wire shape of an identity-creation request.
pub struct CreateUserHttpRequest {
    pub username: String,
    pub password: String,
    pub email: Option<String>,
    pub phone: Option<String>,
}

impl CreateUserHttpRequest {
    /// Validates the fields and hashes the password.
    pub fn try_into_domain(self) -> (r: Result<CreateUserRequest, Error>)
        ensures
            (r matches Err(e) && e is Validation) <==> !valid_create_user(
                self.username@,
                opt_view(self.email),
                self.password@,
            ),
            r matches Err(e) ==> e is Validation || e is Internal,
            r matches Ok(req) ==> {
                &&& req.username@ == self.username@
                &&& opt_view(req.email) == opt_view(self.email)
                &&& opt_view(req.phone) == opt_view(self.phone)
                &&& verify_ok(req.password@, self.password@)
            },
    {
        CreateUserRequest::new(self.username, self.email, self.phone, self.password)
    }
}

/// The response payload of a successful identity creation.
pub struct CreateUserResponseData {
    pub id: String,
    pub username: String,
    pub email: Option<String>,
    pub phone: Option<String>,
    pub created_at: u64,
}

impl CreateUserResponseData {
    pub fn from(user: &User) -> (r: Self)
        ensures
            r.id@ == user.id@,
            r.username@ == user.username@,
            opt_view(r.email) == opt_view(user.email),
            opt_view(r.phone) == opt_view(user.phone),
            r.created_at == user.created_at,
    {
        let u = user.clone();
        CreateUserResponseData {
            id: u.id,
            username: u.username,
            email: u.email,
            phone: u.phone,
            created_at: u.created_at,
        }
    }
}

/// The wire shape of an identity lookup by username.
pub struct GetUserHttpRequest {
    pub username: String,
}

impl GetUserHttpRequest {
    pub fn try_into_domain(self) -> (r: Result<GetUserRequest, Error>)
        ensures
            r is Ok <==> 1 <= self.username@.len() <= 50,
            r matches Ok(req) ==> req.username@ == self.username@,
            r matches Err(e) ==> e is Validation,
    {
        GetUserRequest::new(self.username)
    }
}

/// The response payload of an identity lookup.
pub struct GetUserResponseData {
    pub id: String,
    pub username: String,
    pub email: Option<String>,
    pub phone: Option<String>,
    pub created_at: u64,
    pub updated_at: u64,
}

impl GetUserResponseData {
    pub fn from(user: &User) -> (r: Self)
        ensures
            r.id@ == user.id@,
            r.username@ == user.username@,
            opt_view(r.email) == opt_view(user.email),
            opt_view(r.phone) == opt_view(user.phone),
            r.created_at == user.created_at,
            r.updated_at == user.updated_at,
    {
        let u = user.clone();
        GetUserResponseData {
            id: u.id,
            username: u.username,
            email: u.email,
            phone: u.phone,
            created_at: u.created_at,
            updated_at: u.updated_at,
        }
    }
}

/// The wire shape of an identity deletion by username.
pub struct DeleteUserHttpRequest {
    pub username: String,
}

impl DeleteUserHttpRequest {
    pub fn try_into_domain(self) -> (r: Result<DeleteUserRequest, Error>)
        ensures
            r is Ok <==> 1 <= self.username@.len() <= 50,
            r matches Ok(req) ==> req.username@ == self.username@,
            r matches Err(e) ==> e is Validation,
    {
        DeleteUserRequest::new(self.username)
    }
}

/// The wire shape of a login request.
pub struct LoginHttpRequest {
    pub username: String,
    pub password: String,
}

impl LoginHttpRequest {
    /// Combines the submitted credentials with the service's token secret and
    /// token lifetime.
    pub fn try_into_domain(self, jwt_secret: String, expiration: u64) -> (r: Result<
        LoginRequest,
        Error,
    >)
        ensures
            r is Ok <==> (1 <= self.username@.len() <= 50 && 8 <= self.password@.len() <= 18),
            r matches Ok(req) ==> {
                &&& req.username@ == self.username@
                &&& req.password@ == self.password@
                &&& req.jwt_secret@ == jwt_secret@
                &&& req.expiration == expiration
            },
            r matches Err(e) ==> e is Validation,
    {
        LoginRequest::new(self.username, self.password, jwt_secret, expiration)
    }
}

/// The response payload of a successful login: the issued token.
pub struct LoginHttpResponseData {
    pub token: String,
}

// ---------------------------------------------------------------------------
// Protected resources.
// ---------------------------------------------------------------------------
/// The wire shape of a post-creation body; the owner comes from the resolved
/// identity, not from the body.
pub struct CreatePostHttpRequestBody {
    pub title: String,
    pub content: String,
}

impl CreatePostHttpRequestBody {
    pub fn try_into_domain(self, username: &str) -> (r: Result<CreatePostRequest, Error>)
        ensures
            r is Ok <==> (1 <= self.title@.len() <= 50 && self.content@.len() >= 1),
            r matches Ok(req) ==> req.title@ == self.title@ && req.content@ == self.content@
                && req.username@ == username@,
            r matches Err(e) ==> e is Validation,
    {
        CreatePostRequest::new(self.title, self.content, String::from_str(username))
    }
}

/// The response payload of a successful post creation.
pub struct CreatePostResponseData {
    pub id: String,
    pub title: String,
    pub content: String,
    pub created_at: u64,
}

impl CreatePostResponseData {
    pub fn from(post: &Post) -> (r: Self)
        ensures
            r.id@ == post.id@,
            r.title@ == post.title@,
            r.content@ == post.content@,
            r.created_at == post.created_at,
    {
        let p = post.clone();
        CreatePostResponseData {
            id: p.id,
            title: p.title,
            content: p.content,
            created_at: p.created_at,
        }
    }
}

/// The wire shape of a listing query; the owner comes from the resolved
/// identity.
pub struct ListPostHttpRequestBody {
    pub offset: u32,
    pub limit: u32,
}

impl ListPostHttpRequestBody {
    pub fn try_into_domain(self, username: &str) -> (r: Result<ListPostRequest, Error>)
        ensures
            r is Ok <==> 1 <= self.limit <= 50,
            r matches Ok(req) ==> req.offset == self.offset && req.limit == self.limit
                && req.username@ == username@,
            r matches Err(e) ==> e is Validation,
    {
        ListPostRequest::new(self.offset, self.limit, String::from_str(username))
    }
}

/// One post of a listing response.
pub struct PostInfo {
    pub post_id: String,
    pub title: String,
    pub content: String,
    pub created_at: u64,
    pub updated_at: u64,
}

impl PostInfo {
    pub fn from(post: &Post) -> (r: Self)
        ensures
            r.post_id@ == post.id@,
            r.title@ == post.title@,
            r.content@ == post.content@,
            r.created_at == post.created_at,
            r.updated_at == post.updated_at,
    {
        let p = post.clone();
        PostInfo {
            post_id: p.id,
            title: p.title,
            content: p.content,
            created_at: p.created_at,
            updated_at: p.updated_at,
        }
    }
}

/// The full listing response body.
pub struct ListPostHttpResponseBody {
    pub total: u64,
    pub posts: Vec<PostInfo>,
}

impl ListPostHttpResponseBody {
    pub fn from(res: &ListPostResponse) -> (r: Self)
        ensures
            r.total == res.total,
            r.posts@.len() == res.posts@.len(),
            forall|i: int|
                0 <= i < res.posts@.len() ==> (#[trigger] r.posts@[i]).post_id@
                    == res.posts@[i].id@ && r.posts@[i].title@ == res.posts@[i].title@
                    && r.posts@[i].content@ == res.posts@[i].content@,
    {
        let n = res.posts.len();
        let mut posts: Vec<PostInfo> = Vec::new();
        for i in 0..n
            invariant
                n == res.posts@.len(),
                posts@.len() == i,
                forall|j: int|
                    0 <= j < i ==> (#[trigger] posts@[j]).post_id@ == res.posts@[j].id@
                        && posts@[j].title@ == res.posts@[j].title@ && posts@[j].content@
                        == res.posts@[j].content@,
        {
            posts.push(PostInfo::from(&res.posts[i]));
        }
        ListPostHttpResponseBody { total: res.total, posts }
    }
}

/// The wire shape of a post update body; the identifier comes from the path
/// and the owner from the resolved identity.
pub struct UpdatePostHttpRequestBody {
    pub title: String,
    pub content: String,
}

impl UpdatePostHttpRequestBody {
    pub fn try_into_domain(self, id: String, username: &str) -> (r: Result<UpdatePostRequest, Error>)
        ensures
            r is Ok <==> (1 <= self.title@.len() <= 50 && self.content@.len() >= 1),
            r matches Ok(req) ==> req.id@ == id@ && req.title@ == self.title@ && req.content@
                == self.content@ && req.username@ == username@,
            r matches Err(e) ==> e is Validation,
    {
        UpdatePostRequest::new(id, self.title, self.content, String::from_str(username))
    }
}

/// The response payload of a successful post update.
pub struct UpdatePostResponseData {
    pub id: String,
    pub title: String,
    pub content: String,
    pub created_at: u64,
    pub updated_at: u64,
}

impl UpdatePostResponseData {
    pub fn from(post: &Post) -> (r: Self)
        ensures
            r.id@ == post.id@,
            r.title@ == post.title@,
            r.content@ == post.content@,
            r.created_at == post.created_at,
            r.updated_at == post.updated_at,
    {
        let p = post.clone();
        UpdatePostResponseData {
            id: p.id,
            title: p.title,
            content: p.content,
            created_at: p.created_at,
            updated_at: p.updated_at,
        }
    }
}

/// The wire shape of a single post deletion; the owner comes from the
/// resolved identity.
pub struct DeletePostHttpRequest {
    pub id: String,
}

impl DeletePostHttpRequest {
    pub fn try_into_domain(self, username: &str) -> (r: Result<DeletePostRequest, Error>)
        ensures
            r matches Ok(req) && req.id@ == self.id@ && req.username@ == username@,
    {
        DeletePostRequest::new(self.id, String::from_str(username))
    }
}

/// The wire shape of a batch post deletion; the owner comes from the resolved
/// identity.
pub struct BatchDeletePostHttpRequest {
    pub ids: Vec<String>,
}

impl BatchDeletePostHttpRequest {
    pub fn try_into_domain(self, username: &str) -> (r: Result<BatchDeletePostRequest, Error>)
        ensures
            r is Ok <==> self.ids@.len() >= 1,
            r matches Ok(req) ==> req.ids@ == self.ids@ && req.username@ == username@,
            r matches Err(e) ==> e is Validation,
    {
        BatchDeletePostRequest::new(self.ids, String::from_str(username))
    }
}

} // verus!

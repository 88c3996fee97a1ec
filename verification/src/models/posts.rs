//! Protected resources (posts) and the validated requests that create, list,
//! update and delete them.
//!
//! A post carries its owner's username; every mutation request carries the
//! requesting owner's username too, so the store can filter rows by owner.

use vstd::prelude::*;
use vstd::string::StrSliceExecFns;
use vstd::string::StringExecFns;

use crate::errors::Error;

verus! {

/// A protected resource owned by one identity.
#[derive(Debug)]
pub struct Post {
    pub id: String,
    pub title: String,
    pub content: String,
    pub username: String,
    pub created_at: u64,
    pub updated_at: u64,
}

/// The mathematical content of a post.
pub ghost struct PostView {
    pub id: Seq<char>,
    pub title: Seq<char>,
    pub content: Seq<char>,
    pub username: Seq<char>,
    pub created_at: u64,
    pub updated_at: u64,
}

impl View for Post {
    type V = PostView;

    open spec fn view(&self) -> PostView {
        PostView {
            id: self.id@,
            title: self.title@,
            content: self.content@,
            username: self.username@,
            created_at: self.created_at,
            updated_at: self.updated_at,
        }
    }
}

impl DeepView for Post {
    type V = PostView;

    open spec fn deep_view(&self) -> PostView {
        self@
    }
}

impl Clone for Post {
    fn clone(&self) -> (r: Self)
        ensures
            r@ == self@,
    {
        Post {
            id: self.id.clone(),
            title: self.title.clone(),
            content: self.content.clone(),
            username: self.username.clone(),
            created_at: self.created_at,
            updated_at: self.updated_at,
        }
    }
}

/// A validated post-creation request: a title of 1 to 50 characters and a
/// non-empty body, on behalf of the named owner.
pub struct CreatePostRequest {
    pub title: String,
    pub content: String,
    pub username: String,
}

impl CreatePostRequest {
    pub fn new(title: String, content: String, username: String) -> (r: Result<Self, Error>)
        ensures
            r is Ok <==> (1 <= title@.len() <= 50 && content@.len() >= 1),
            r matches Ok(req) ==> req.title@ == title@ && req.content@ == content@
                && req.username@ == username@,
            r matches Err(e) ==> e is Validation,
    {
        let tlen = title.as_str().unicode_len();
        let clen = content.as_str().unicode_len();
        if 1 <= tlen && tlen <= 50 && clen >= 1 {
            Ok(CreatePostRequest { title, content, username })
        } else {
            Err(Error::Validation(String::from_str("malformed post fields")))
        }
    }
}

/// A validated listing request: a window of at most 50 posts of the named
/// owner.
pub struct ListPostRequest {
    pub offset: u32,
    pub limit: u32,
    pub username: String,
}

impl ListPostRequest {
    pub fn new(offset: u32, limit: u32, username: String) -> (r: Result<Self, Error>)
        ensures
            r is Ok <==> 1 <= limit <= 50,
            r matches Ok(req) ==> req.offset == offset && req.limit == limit && req.username@
                == username@,
            r matches Err(e) ==> e is Validation,
    {
        if 1 <= limit && limit <= 50 {
            Ok(ListPostRequest { offset, limit, username })
        } else {
            Err(Error::Validation(String::from_str("limit out of range")))
        }
    }
}

/// The listing outcome: the windowed posts and the total number of stored
/// posts.
pub struct ListPostResponse {
    pub total: u64,
    pub posts: Vec<Post>,
}

/// A validated update request: new title and body for the identified post of
/// the named owner.
pub struct UpdatePostRequest {
    pub id: String,
    pub title: String,
    pub content: String,
    pub username: String,
}

impl UpdatePostRequest {
    pub fn new(id: String, title: String, content: String, username: String) -> (r: Result<
        Self,
        Error,
    >)
        ensures
            r is Ok <==> (1 <= title@.len() <= 50 && content@.len() >= 1),
            r matches Ok(req) ==> req.id@ == id@ && req.title@ == title@ && req.content@
                == content@ && req.username@ == username@,
            r matches Err(e) ==> e is Validation,
    {
        let tlen = title.as_str().unicode_len();
        let clen = content.as_str().unicode_len();
        if 1 <= tlen && tlen <= 50 && clen >= 1 {
            Ok(UpdatePostRequest { id, title, content, username })
        } else {
            Err(Error::Validation(String::from_str("malformed post fields")))
        }
    }
}

/// A request to delete one post of the named owner.
pub struct DeletePostRequest {
    pub id: String,
    pub username: String,
}

impl DeletePostRequest {
    pub fn new(id: String, username: String) -> (r: Result<Self, Error>)
        ensures
            r matches Ok(req) && req.id@ == id@ && req.username@ == username@,
    {
        Ok(DeletePostRequest { id, username })
    }
}

/// A request to delete several posts of the named owner at once; at least one
/// identifier must be given.
pub struct BatchDeletePostRequest {
    pub ids: Vec<String>,
    pub username: String,
}

impl BatchDeletePostRequest {
    pub fn new(ids: Vec<String>, username: String) -> (r: Result<Self, Error>)
        ensures
            r is Ok <==> ids@.len() >= 1,
            r matches Ok(req) ==> req.ids@ == ids@ && req.username@ == username@,
            r matches Err(e) ==> e is Validation,
    {
        if ids.len() >= 1 {
            Ok(BatchDeletePostRequest { ids, username })
        } else {
            Err(Error::Validation(String::from_str("no post identifiers given")))
        }
    }
}

} // verus!

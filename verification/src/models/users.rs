//! Identities and the validated requests that create, fetch, log in and
//! delete them.
//!
//! An identity carries a stable unique identifier, a unique human-readable
//! username, a one-way password hash, optional contact fields and
//! creation/update timestamps (seconds since the epoch). The constructors
//! below validate field shapes and, for creation, replace the plain password
//! with its hash before the value ever leaves this module.

use vstd::prelude::*;
use vstd::string::StrSliceExecFns;
use vstd::string::StringExecFns;

use crate::errors::Error;
use crate::password::{compute_password_hash, verify_ok};

verus! {

/// An identity: the authenticated principal that policy rules speak about.
#[derive(Debug)]
pub struct User {
    pub id: String,
    pub username: String,
    pub password: String,
    pub email: Option<String>,
    pub phone: Option<String>,
    pub created_at: u64,
    pub updated_at: u64,
}

/// The mathematical content of an identity.
pub ghost struct UserView {
    pub id: Seq<char>,
    pub username: Seq<char>,
    pub password: Seq<char>,
    pub email: Option<Seq<char>>,
    pub phone: Option<Seq<char>>,
    pub created_at: u64,
    pub updated_at: u64,
}

impl View for User {
    type V = UserView;

    open spec fn view(&self) -> UserView {
        UserView {
            id: self.id@,
            username: self.username@,
            password: self.password@,
            email: opt_view(self.email),
            phone: opt_view(self.phone),
            created_at: self.created_at,
            updated_at: self.updated_at,
        }
    }
}

impl DeepView for User {
    type V = UserView;

    open spec fn deep_view(&self) -> UserView {
        self@
    }
}

impl Clone for User {
    fn clone(&self) -> (r: Self)
        ensures
            r@ == self@,
    {
        User {
            id: self.id.clone(),
            username: self.username.clone(),
            password: self.password.clone(),
            email: clone_opt(&self.email),
            phone: clone_opt(&self.phone),
            created_at: self.created_at,
            updated_at: self.updated_at,
        }
    }
}

pub open spec fn opt_view(o: Option<String>) -> Option<Seq<char>> {
    match o {
        Some(s) => Some(s@),
        None => None,
    }
}

/// Copies an optional string, keeping its content.
pub fn clone_opt(o: &Option<String>) -> (r: Option<String>)
    ensures
        opt_view(r) == opt_view(*o),
{
    match o {
        Some(s) => Some(s.clone()),
        None => None,
    }
}

/// Whether `s` is a well-formed email address, as the `validator` crate
/// judges it. Depends on the string alone.
pub uninterp spec fn is_email(s: Seq<char>) -> bool;

/// Checks the shape of an email address.
///
/// Relies on `validator::ValidateEmail::validate_email` for `String`: a pure
/// syntactic check on the one string given.
#[verifier::external_body]
fn validate_email(s: &String) -> (r: bool)
    ensures
        r == is_email(s@),
{
    validator::ValidateEmail::validate_email(s)
}

/// The field shapes demanded of an identity-creation request: a username of 1
/// to 50 characters, a password of 8 to 18 characters, and, when a contact
/// email is given, a well-formed address.
pub open spec fn valid_create_user(
    username: Seq<char>,
    email: Option<Seq<char>>,
    password: Seq<char>,
) -> bool {
    &&& 1 <= username.len() <= 50
    &&& match email {
        Some(e) => is_email(e),
        None => true,
    }
    &&& 8 <= password.len() <= 18
}

/// A validated identity-creation request. Its `password` field holds the
/// credential hash, never the plain password.
pub struct CreateUserRequest {
    pub username: String,
    pub email: Option<String>,
    pub phone: Option<String>,
    pub password: String,
}

impl CreateUserRequest {
    /// Validates the fields and hashes the password. Exactly the requests
    /// whose fields are well shaped pass validation; of those, only a failure
    /// of the hashing subsystem is refused, as an internal error.
    pub fn new(
        username: String,
        email: Option<String>,
        phone: Option<String>,
        password: String,
    ) -> (r: Result<Self, Error>)
        ensures
            (r matches Err(e) && e is Validation) <==> !valid_create_user(
                username@,
                opt_view(email),
                password@,
            ),
            r matches Err(e) ==> e is Validation || e is Internal,
            r matches Ok(req) ==> {
                &&& req.username@ == username@
                &&& opt_view(req.email) == opt_view(email)
                &&& opt_view(req.phone) == opt_view(phone)
                &&& verify_ok(req.password@, password@)
            },
    {
        let ulen = username.as_str().unicode_len();
        let plen = password.as_str().unicode_len();
        let email_ok = match &email {
            Some(e) => validate_email(e),
            None => true,
        };
        if !(1 <= ulen && ulen <= 50 && email_ok && 8 <= plen && plen <= 18) {
            return Err(Error::Validation(String::from_str("malformed identity fields")));
        }
        match compute_password_hash(password.as_str()) {
            Ok(hash) => Ok(CreateUserRequest { username, email, phone, password: hash }),
            Err(_) => Err(Error::Internal(String::from_str("credential hashing failed"))),
        }
    }
}

/// A request to resolve an identity by its stable identifier.
pub struct GetUserByIdRequest {
    pub id: String,
}

impl GetUserByIdRequest {
    /// Any identifier shape is accepted.
    pub fn new(id: String) -> (r: Result<Self, Error>)
        ensures
            r matches Ok(req) && req.id@ == id@,
    {
        Ok(GetUserByIdRequest { id })
    }
}

/// A request to resolve an identity by username.
pub struct GetUserRequest {
    pub username: String,
}

impl GetUserRequest {
    /// Accepts exactly the usernames of 1 to 50 characters.
    pub fn new(username: String) -> (r: Result<Self, Error>)
        ensures
            r is Ok <==> 1 <= username@.len() <= 50,
            r matches Ok(req) ==> req.username@ == username@,
            r matches Err(e) ==> e is Validation,
    {
        let ulen = username.as_str().unicode_len();
        if 1 <= ulen && ulen <= 50 {
            Ok(GetUserRequest { username })
        } else {
            Err(Error::Validation(String::from_str("malformed username")))
        }
    }
}

/// A login request: the credentials to check, and the token service's secret
/// and token lifetime to use on success.
pub struct LoginRequest {
    pub username: String,
    pub password: String,
    pub jwt_secret: String,
    pub expiration: u64,
}

impl LoginRequest {
    /// Accepts exactly usernames of 1 to 50 characters with passwords of 8 to
    /// 18 characters.
    pub fn new(username: String, password: String, jwt_secret: String, expiration: u64) -> (r:
        Result<Self, Error>)
        ensures
            r is Ok <==> (1 <= username@.len() <= 50 && 8 <= password@.len() <= 18),
            r matches Ok(req) ==> {
                &&& req.username@ == username@
                &&& req.password@ == password@
                &&& req.jwt_secret@ == jwt_secret@
                &&& req.expiration == expiration
            },
            r matches Err(e) ==> e is Validation,
    {
        let ulen = username.as_str().unicode_len();
        let plen = password.as_str().unicode_len();
        if 1 <= ulen && ulen <= 50 && 8 <= plen && plen <= 18 {
            Ok(LoginRequest { username, password, jwt_secret, expiration })
        } else {
            Err(Error::Validation(String::from_str("malformed credentials")))
        }
    }
}

/// A request to delete an identity by username.
pub struct DeleteUserRequest {
    pub username: String,
}

impl DeleteUserRequest {
    /// Accepts exactly the usernames of 1 to 50 characters.
    pub fn new(username: String) -> (r: Result<Self, Error>)
        ensures
            r is Ok <==> 1 <= username@.len() <= 50,
            r matches Ok(req) ==> req.username@ == username@,
            r matches Err(e) ==> e is Validation,
    {
        let ulen = username.as_str().unicode_len();
        if 1 <= ulen && ulen <= 50 {
            Ok(DeleteUserRequest { username })
        } else {
            Err(Error::Validation(String::from_str("malformed username")))
        }
    }
}

} // verus!

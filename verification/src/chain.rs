//! The request interception chain: two ordered gate stages in front of every
//! protected operation.
//!
//! The authentication stage extracts the bearer credential from the
//! authorization header value, demands the fixed `Bearer ` prefix, validates
//! the token and resolves the principal identifier into a full identity.
//! Every failure — missing or malformed header, forged or expired token, or
//! a principal that no longer exists — is reported as the same
//! `Unauthorized` error, so a hostile caller cannot tell them apart.
//!
//! The authorization stage takes the identity the first stage attached,
//! derives (subject, object, action) from it and the request, and asks the
//! policy store; a missing identity or a negative answer is a terminal
//! `PermissionDenied`.

use vstd::prelude::*;
use vstd::string::StrSliceExecFns;
use vstd::string::StringExecFns;

use crate::errors::Error;
use crate::models::users::{User, UserView};
use crate::policy::spec_check;
use crate::store::{find_by_id, Store};
use crate::text::str_eq;
use crate::token::{decoded_claims, now_seconds, spec_token_valid, JWT, UserClaims};

verus! {

/// Whether the header value carries the fixed bearer prefix.
pub open spec fn has_bearer_prefix(h: Seq<char>) -> bool {
    h.len() >= 7 && h.subrange(0, 7) == "Bearer "@
}

/// The token payload behind the prefix.
pub open spec fn bearer_token(h: Seq<char>) -> Seq<char> {
    h.subrange(7, h.len() as int)
}

/// Extracts the bearer token from the authorization header value: the header
/// must be present and start with the fixed `Bearer ` prefix. A missing or
/// malformed header is refused as `Unauthorized`.
pub fn extract_token(header: Option<&str>) -> (r: Result<String, Error>)
    ensures
        r is Ok <==> (header matches Some(h) && has_bearer_prefix(h@)),
        r matches Ok(t) ==> (header matches Some(h) && t@ == bearer_token(h@)),
        r matches Err(e) ==> e is Unauthorized,
{
    let h = match header {
        Some(h) => h,
        None => {
            return Err(Error::Unauthorized(String::from_str("authorization header not found")));
        },
    };
    let n = h.unicode_len();
    if n < 7 {
        return Err(Error::Unauthorized(String::from_str("malformed authorization header")));
    }
    let prefix = h.substring_char(0, 7);
    if !str_eq(prefix, "Bearer ") {
        return Err(Error::Unauthorized(String::from_str("malformed authorization header")));
    }
    Ok(String::from_str(h.substring_char(7, n)))
}

/// Validates a token under the given secret against the current time.
pub fn jwt_validate(token: &str, secret: &str) -> (r: Result<UserClaims, Error>)
    ensures
        r matches Ok(c) ==> decoded_claims(secret@, token@) == Some(c@),
        decoded_claims(secret@, token@) is None ==> r is Err,
        r matches Err(e) ==> e is Unauthorized,
{
    let jwt = JWT::new(secret);
    jwt.validate(token)
}

/// The identity that the authentication stage resolves at check time `now`,
/// if every gate passes: the header carries the bearer prefix, the token is
/// signed under the secret and not yet expired, and the principal identifier
/// in its claims resolves to a stored identity.
pub open spec fn spec_authenticate(
    users: Seq<UserView>,
    secret: Seq<char>,
    header: Option<Seq<char>>,
    now: u64,
) -> Option<UserView> {
    match header {
        None => None,
        Some(h) => {
            if !has_bearer_prefix(h) {
                None
            } else if !spec_token_valid(secret, bearer_token(h), now) {
                None
            } else {
                match decoded_claims(secret, bearer_token(h)) {
                    Some(c) => find_by_id(users, c.pid),
                    None => None,
                }
            }
        },
    }
}

/// The authentication stage, at an explicit check time. It succeeds exactly
/// when the header, the token and the identity lookup all pass; every failure
/// is the same `Unauthorized` error. In particular a token that is correctly
/// signed but expired at `now` is refused exactly like a token whose
/// signature does not verify.
pub fn authenticate_at(store: &Store, secret: &str, header: Option<&str>, now: u64) -> (r: Result<
    User,
    Error,
>)
    ensures
        r is Ok <==> spec_authenticate(store@.users, secret@, opt_header(header), now) is Some,
        r matches Ok(u) ==> spec_authenticate(store@.users, secret@, opt_header(header), now)
            == Some(u@),
        r matches Err(e) ==> e is Unauthorized,
{
    let token = match extract_token(header) {
        Ok(t) => t,
        Err(e) => {
            return Err(e);
        },
    };
    let jwt = JWT::new(secret);
    let claims = match jwt.validate_at(token.as_str(), now) {
        Ok(c) => c,
        Err(e) => {
            return Err(e);
        },
    };
    match store.find_user_by_id(claims.pid.as_str()) {
        Some(u) => Ok(u),
        None => Err(Error::Unauthorized(String::from_str("invalid token"))),
    }
}

/// The view of an optional header value.
pub open spec fn opt_header(header: Option<&str>) -> Option<Seq<char>> {
    match header {
        Some(h) => Some(h@),
        None => None,
    }
}

/// The authentication stage against the current time.
pub fn authenticate(store: &Store, secret: &str, header: Option<&str>) -> (r: Result<User, Error>)
    ensures
        r matches Ok(u) ==> exists|now: u64|
            #[trigger] spec_authenticate(store@.users, secret@, opt_header(header), now) == Some(
                u@,
            ),
        r matches Err(e) ==> e is Unauthorized,
{
    let now = now_seconds();
    authenticate_at(store, secret, header, now)
}

/// The authorization stage: reads the identity the authentication stage
/// attached, derives the subject from its username, and asks the policy
/// store about the request's path and method. A missing identity denies, as
/// does a negative policy answer; both as `PermissionDenied`.
pub fn authorize(store: &Store, user: Option<&User>, path: &str, method: &str) -> (r: Result<
    (),
    Error,
>)
    ensures
        r is Ok <==> (user matches Some(u) && spec_check(store@.rules, u.username@, path@, method@)),
        r matches Err(e) ==> e is PermissionDenied,
{
    let u = match user {
        Some(u) => u,
        None => {
            return Err(Error::PermissionDenied(String::from_str("permission denied")));
        },
    };
    match store.check_permission(u.username.as_str(), path, method) {
        Ok(true) => Ok(()),
        _ => Err(Error::PermissionDenied(String::from_str("permission denied"))),
    }
}

} // verus!

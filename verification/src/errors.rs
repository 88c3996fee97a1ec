//! The closed error taxonomy of the authorization core.
//!
//! Every component returns one of these kinds; the interception chain is the
//! single place that turns them into terminal request outcomes.

use vstd::prelude::*;

verus! {

/// Outcome kinds of the authorization core.
///
/// - `Validation`: malformed input shape; the request is rejected locally.
/// - `Unauthorized`: the bearer credential is missing, malformed, expired or
///   forged, or the identity lookup after validation failed. All of these are
///   collapsed into this one kind so a hostile caller cannot tell them apart.
/// - `PermissionDenied`: the caller is authenticated but the policy check
///   refused the (subject, object, action) triple.
/// - `Conflict`: a uniqueness violation (duplicate username) or an entity that
///   was expected to be present is missing.
/// - `Internal`: a storage or cryptographic subsystem failure; the payload is
///   for server-side logs only.
#[derive(Debug)]
pub enum Error {
    Validation(String),
    Unauthorized(String),
    PermissionDenied(String),
    Conflict(String),
    Internal(String),
}

impl Error {
    /// The detail message carried by the error, whatever its kind.
    pub fn message(&self) -> (r: &String)
        ensures
            r@ == self.spec_message(),
    {
        match self {
            Error::Validation(m) => m,
            Error::Unauthorized(m) => m,
            Error::PermissionDenied(m) => m,
            Error::Conflict(m) => m,
            Error::Internal(m) => m,
        }
    }

    pub open spec fn spec_message(&self) -> Seq<char> {
        match self {
            Error::Validation(m) => m@,
            Error::Unauthorized(m) => m@,
            Error::PermissionDenied(m) => m@,
            Error::Conflict(m) => m@,
            Error::Internal(m) => m@,
        }
    }
}

} // verus!

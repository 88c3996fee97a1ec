//! Terminal request outcomes: the HTTP-facing error kinds, their status
//! codes, and the response body shapes.
//!
//! The interception chain and the handlers are the only places that convert
//! the core's errors into these; internal failure detail never reaches the
//! caller.

use vstd::prelude::*;
use vstd::string::StringExecFns;

use crate::errors::Error;

verus! {

/// A terminal error outcome of one request.
pub enum ApiError {
    InternalServerError(String),
    UnprocessableEntity(String),
    Unauthorized(String),
    PermissionDenied(String),
    Conflict(String),
}

impl ApiError {
    /// The HTTP status code of the outcome.
    pub fn status_code(&self) -> (r: u16)
        ensures
            r == self.spec_status_code(),
    {
        match self {
            ApiError::InternalServerError(_) => 500,
            ApiError::UnprocessableEntity(_) => 422,
            ApiError::Unauthorized(_) => 401,
            ApiError::PermissionDenied(_) => 403,
            ApiError::Conflict(_) => 409,
        }
    }

    pub open spec fn spec_status_code(&self) -> u16 {
        match self {
            ApiError::InternalServerError(_) => 500,
            ApiError::UnprocessableEntity(_) => 422,
            ApiError::Unauthorized(_) => 401,
            ApiError::PermissionDenied(_) => 403,
            ApiError::Conflict(_) => 409,
        }
    }

    /// The message shown to the caller. An internal failure is collapsed to a
    /// fixed generic text so that no storage or cryptographic detail leaks;
    /// every other kind carries its own message.
    pub fn public_message(&self) -> (r: String)
        ensures
            r@ == self.spec_public_message(),
    {
        match self {
            ApiError::InternalServerError(_) => String::from_str("Internal server error"),
            ApiError::UnprocessableEntity(m) => m.clone(),
            ApiError::Unauthorized(m) => m.clone(),
            ApiError::PermissionDenied(m) => m.clone(),
            ApiError::Conflict(m) => m.clone(),
        }
    }

    pub open spec fn spec_public_message(&self) -> Seq<char> {
        match self {
            ApiError::InternalServerError(_) => "Internal server error"@,
            ApiError::UnprocessableEntity(m) => m@,
            ApiError::Unauthorized(m) => m@,
            ApiError::PermissionDenied(m) => m@,
            ApiError::Conflict(m) => m@,
        }
    }
}

impl From<Error> for ApiError {
    /// Maps each kind of the core's taxonomy onto its terminal outcome.
    fn from(e: Error) -> (r: ApiError) {
        match e {
            Error::Validation(m) => ApiError::UnprocessableEntity(m),
            Error::Unauthorized(m) => ApiError::Unauthorized(m),
            Error::PermissionDenied(m) => ApiError::PermissionDenied(m),
            Error::Conflict(m) => ApiError::Conflict(m),
            Error::Internal(m) => ApiError::InternalServerError(m),
        }
    }
}

impl vstd::std_specs::convert::FromSpecImpl<Error> for ApiError {
    open spec fn obeys_from_spec() -> bool {
        true
    }

    open spec fn from_spec(e: Error) -> ApiError {
        match e {
            Error::Validation(m) => ApiError::UnprocessableEntity(m),
            Error::Unauthorized(m) => ApiError::Unauthorized(m),
            Error::PermissionDenied(m) => ApiError::PermissionDenied(m),
            Error::Conflict(m) => ApiError::Conflict(m),
            Error::Internal(m) => ApiError::InternalServerError(m),
        }
    }
}

/// The data part of an error response body.
pub struct ErrorResponseData {
    pub message: String,
}

/// The data part of an error response body, as the handlers build it.
pub struct ApiErrorData {
    pub message: String,
}

/// One response body: the status code repeated, and the payload.
pub struct ApiResponseBody<T> {
    pub status_code: u16,
    pub data: T,
}

impl<T> ApiResponseBody<T> {
    pub fn new(status_code: u16, data: T) -> (r: Self)
        ensures
            r.status_code == status_code,
            r.data == data,
    {
        ApiResponseBody { status_code, data }
    }
}

impl ApiResponseBody<ApiErrorData> {
    pub fn new_error(status_code: u16, message: String) -> (r: Self)
        ensures
            r.status_code == status_code,
            r.data.message@ == message@,
    {
        ApiResponseBody { status_code, data: ApiErrorData { message } }
    }
}

} // verus!

//! Core of a multi-tenant content service: every resource operation is gated
//! by an authenticated identity and a policy check.
//!
//! The crate provides the authorization pipeline: credential hashing, signed
//! time-bounded tokens, a subject/object/action policy store, a transactional
//! store coupling identity rows with their policy grants, and the two-stage
//! request interception chain (authentication, then authorization).

pub mod chain;
pub mod config;
pub mod errors;
pub mod handlers;
pub mod models;
pub mod password;
pub mod policy;
pub mod response;
pub mod store;
pub mod text;
pub mod token;

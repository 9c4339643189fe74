//! Authentication and authorization core of a course-enrollment backend:
//! password hashing, signed identity tokens, bearer-token extraction and
//! role checks, together with the request decisions built on them.
//!
//! Tokens are JWTs (HS256) in one fixed layout: the service both issues and
//! validates them, and validation accepts that layout alone.

pub mod auth;
pub mod claims;
pub mod cors;
pub mod error;
pub mod handlers;
pub mod ids;
pub mod models;
pub mod password;
pub mod token;

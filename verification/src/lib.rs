//! Account lifecycle and authentication core: credential hashing and
//! verification, registration and login rules, email-verification and
//! password-reset tokens with single-use semantics, resend rate limiting,
//! role-based authorization guards, and session identity resolution.

pub mod checks;
pub mod dto;
pub mod entity;
pub mod errors;
pub mod guards;
pub mod hashing;
pub mod limiter;
pub mod query;
pub mod response;
pub mod role;
pub mod service;
pub mod session;
pub mod store;
pub mod strutil;
pub mod token;
pub mod validate;

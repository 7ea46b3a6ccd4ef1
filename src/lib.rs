//! Short-lived, credential-gated redirection tokens ("wraps").
//!
//! A wrap binds an opaque identifier to a destination URL encrypted at rest,
//! an Argon2 digest of a credential and an expiration deadline.
pub mod auth_type;
pub mod cipher;
pub mod config;
pub mod credential;
pub mod hex;
pub mod response;
pub mod usecase;
pub mod wrap;

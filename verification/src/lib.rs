//! Credential issuance and validation for a multi-provider OAuth2-style
//! login flow: authorization-code issuance and redemption, signed access
//! tokens, opaque refresh tokens, and the anti-CSRF state correlation of
//! the provider handshake.

use vstd::prelude::*;

pub mod account;
pub mod code_store;
pub mod error;
pub mod extractor;
pub mod game;
pub mod oauth;
pub mod random;
pub mod record;
pub mod refresh_store;
pub mod request;
pub mod response;
pub mod repository;
pub mod service;
pub mod store;
pub mod text;
pub mod token;
pub mod user;

pub use error::InertiaError;

verus! {

/// Lifetime of an access token, in milliseconds (24 hours).
pub const ACCESS_TOKEN_EXPIRATION: u64 = 1000 * 60 * 60 * 24;

/// Lifetime of a refresh token, in milliseconds (1 year).
pub const REFRESH_TOKEN_EXPIRATION: u64 = 1000 * 60 * 60 * 24 * 365;

/// Lifetime of an authorization code, in milliseconds (300 seconds).
pub const AUTH_CODE_EXPIRATION: u64 = 1000 * 300;

} // verus!

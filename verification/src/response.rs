//! The response shape of the token endpoint, built from either grant path.

use vstd::prelude::*;

use crate::service::{RefreshTokenResponse, TokenPair};

verus! {

/// What the token endpoint returns: an access token and, only on the
/// authorization-code path, the refresh token beside it.
pub struct TokenGrantResponse {
    pub access_token: String,
    pub token_type: String,
    pub expires_in: i64,
    pub refresh_token: Option<String>,
}

impl From<TokenPair> for TokenGrantResponse {
    /// A code redemption answers with both tokens.
    fn from(value: TokenPair) -> (r: Self)
        ensures
            r == TokenGrantResponse::spec_of_pair(value),
    {
        TokenGrantResponse {
            access_token: value.access_token,
            token_type: value.token_type,
            expires_in: value.expires_in,
            refresh_token: Some(value.refresh_token),
        }
    }
}

impl vstd::std_specs::convert::FromSpecImpl<TokenPair> for TokenGrantResponse {
    open spec fn obeys_from_spec() -> bool {
        true
    }

    open spec fn from_spec(value: TokenPair) -> Self {
        TokenGrantResponse::spec_of_pair(value)
    }
}

impl From<RefreshTokenResponse> for TokenGrantResponse {
    /// A refresh answers with a new access token and no refresh token:
    /// the one presented stays as it was.
    fn from(value: RefreshTokenResponse) -> (r: Self)
        ensures
            r == TokenGrantResponse::spec_of_refresh(value),
    {
        TokenGrantResponse {
            access_token: value.access_token,
            token_type: value.token_type,
            expires_in: value.expires_in,
            refresh_token: None,
        }
    }
}

impl vstd::std_specs::convert::FromSpecImpl<RefreshTokenResponse> for TokenGrantResponse {
    open spec fn obeys_from_spec() -> bool {
        true
    }

    open spec fn from_spec(value: RefreshTokenResponse) -> Self {
        TokenGrantResponse::spec_of_refresh(value)
    }
}

impl TokenGrantResponse {
    pub open spec fn spec_of_pair(value: TokenPair) -> Self {
        TokenGrantResponse {
            access_token: value.access_token,
            token_type: value.token_type,
            expires_in: value.expires_in,
            refresh_token: Some(value.refresh_token),
        }
    }

    pub open spec fn spec_of_refresh(value: RefreshTokenResponse) -> Self {
        TokenGrantResponse {
            access_token: value.access_token,
            token_type: value.token_type,
            expires_in: value.expires_in,
            refresh_token: None,
        }
    }
}

} // verus!

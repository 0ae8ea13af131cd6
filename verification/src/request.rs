//! The request shapes of the OAuth surface: authorize and callback query
//! parameters, the token-grant body, and the provider's own responses.

use vstd::prelude::*;

verus! {

/// The identity providers the authorize endpoint can hand a browser to.
#[derive(Clone, Copy, Debug, PartialEq, Eq, Structural)]
pub enum OAuth2Provider {
    Discord,
    Google,
    Apple,
}

impl OAuth2Provider {
    /// The provider's wire name.
    pub fn as_str(&self) -> (r: &'static str)
        ensures
            r@ == self.spec_name(),
    {
        match self {
            OAuth2Provider::Discord => "discord",
            OAuth2Provider::Google => "google",
            OAuth2Provider::Apple => "apple",
        }
    }

    pub open spec fn spec_name(&self) -> Seq<char> {
        match self {
            OAuth2Provider::Discord => "discord"@,
            OAuth2Provider::Google => "google"@,
            OAuth2Provider::Apple => "apple"@,
        }
    }
}

/// The two grant types the token endpoint accepts.
#[derive(Clone, Copy, Debug, PartialEq, Eq, Structural)]
pub enum TokenGrantType {
    Code,
    Refresh,
}

impl TokenGrantType {
    /// The grant type's wire name.
    pub fn as_str(&self) -> (r: &'static str)
        ensures
            r@ == self.spec_name(),
    {
        match self {
            TokenGrantType::Code => "authorization_code",
            TokenGrantType::Refresh => "refresh_token",
        }
    }

    pub open spec fn spec_name(&self) -> Seq<char> {
        match self {
            TokenGrantType::Code => "authorization_code"@,
            TokenGrantType::Refresh => "refresh_token"@,
        }
    }
}

/// Query parameters of the authorize endpoint.
pub struct OAuthAuthorizeParams {
    pub client_id: String,
    pub redirect_uri: String,
    pub response_type: String,
    pub provider: OAuth2Provider,
    pub state: Option<String>,
}

/// Query parameters the provider sends back to the callback endpoint.
pub struct OAuthCallbackParams {
    pub code: String,
    pub state: String,
}

/// The provider's answer to a code exchange.
pub struct DiscordResponse {
    pub access_token: String,
    pub token_type: String,
    pub expires_in: i64,
    pub refresh_token: String,
    pub scope: String,
}

/// The provider's profile of the logged-in user.
pub struct DiscordUser {
    pub id: String,
    pub username: String,
    pub discriminator: String,
    pub avatar: Option<String>,
    pub email: String,
}

/// The body of a token-grant request.
pub struct TokenRequest {
    pub code: Option<String>,
    pub refresh_token: Option<String>,
    pub grant_type: TokenGrantType,
}

} // verus!

//! The OAuth route orchestration: the authorize redirect with its anti-CSRF
//! state cookie, the callback's state correlation and account-linking
//! decisions, and the token-grant endpoint. The HTTP transport and the
//! provider's network round trips live outside; every decision lives here.

use vstd::prelude::*;
use vstd::string::{StrSliceExecFns, StringExecFns};

use crate::account::{AccountType, Account, CreateAccount};
use crate::error::InertiaError;
use crate::random::random_u64;
use crate::refresh_store::spec_is_refresh_key;
use crate::request::{DiscordResponse, DiscordUser, OAuthAuthorizeParams, OAuthCallbackParams, TokenGrantType, TokenRequest};
use crate::response::TokenGrantResponse;
use crate::service::{spec_stored_user, AuthService};
use crate::store::spec_live;
use crate::text::{str_eq, u64_to_decimal};
use crate::token::{signed_token_of, spec_issuer, token_claims_of};
use crate::user::CreateUser;
use crate::{ACCESS_TOKEN_EXPIRATION, REFRESH_TOKEN_EXPIRATION};

verus! {

/// One provider's credentials, read once at startup and passed down.
pub struct OAuthProviderConfig {
    pub client_id: String,
    pub client_secret: String,
    pub redirect_uri: String,
}

/// What the authorize endpoint decides: the three cookies to set and the
/// consent URL to redirect the browser to.
pub struct AuthorizeOutcome {
    /// Value of the `redirect_uri` cookie.
    pub redirect_uri_cookie: String,
    /// Value of the `state` cookie, when the client supplied one.
    pub state_cookie: Option<String>,
    /// Value of the `provider_state` cookie: the fresh anti-CSRF value,
    /// carried to the provider as `state`.
    pub provider_state_cookie: String,
    /// The provider consent URL to redirect to.
    pub redirect_to: String,
}

/// The provider consent URL, carrying the per-flow correlation value as
/// `state`.
pub open spec fn spec_consent_url(
    client_id: Seq<char>,
    redirect_uri: Seq<char>,
    state: Seq<char>,
) -> Seq<char> {
    "https://discord.com/api/oauth2/authorize?client_id="@ + client_id + "&redirect_uri="@
        + redirect_uri + "&response_type=code&scope=identify%20email&state="@ + state
}

pub open spec fn spec_invalid_response_type_message(response_type: Seq<char>) -> Seq<char> {
    "Invalid response type! Expected 'code', got '"@ + response_type + "'"@
}

/// Decides the authorize redirect: rejects every response type but
/// `code`, then binds a fresh random correlation value both into the
/// `provider_state` cookie and into the consent URL's `state` — the pair
/// whose byte-for-byte match the callback later demands.
pub fn authorize(query: OAuthAuthorizeParams, config: &OAuthProviderConfig) -> (r: Result<
    AuthorizeOutcome,
    InertiaError,
>)
    requires
        query.provider matches crate::request::OAuth2Provider::Discord,
    ensures
        r is Ok <==> query.response_type@ == "code"@,
        r matches Ok(out) ==> {
            &&& out.redirect_uri_cookie@ == query.redirect_uri@
            &&& (out.state_cookie is Some <==> query.state is Some)
            &&& (query.state matches Some(s) ==> out.state_cookie matches Some(c) && c@ == s@)
            &&& out.redirect_to@ == spec_consent_url(
                config.client_id@,
                config.redirect_uri@,
                out.provider_state_cookie@,
            )
        },
        r matches Err(e) ==> e matches InertiaError::PayloadError(msg) && msg@
            == spec_invalid_response_type_message(query.response_type@),
{
    if !str_eq(query.response_type.as_str(), "code") {
        let mut msg = String::from_str("Invalid response type! Expected 'code', got '");
        msg.append(query.response_type.as_str());
        msg.append("'");
        return Err(InertiaError::PayloadError(msg));
    }
    let provider_state = u64_to_decimal(random_u64());
    let mut url = String::from_str("https://discord.com/api/oauth2/authorize?client_id=");
    url.append(config.client_id.as_str());
    url.append("&redirect_uri=");
    url.append(config.redirect_uri.as_str());
    url.append("&response_type=code&scope=identify%20email&state=");
    url.append(provider_state.as_str());
    Ok(
        AuthorizeOutcome {
            redirect_uri_cookie: query.redirect_uri,
            state_cookie: query.state,
            provider_state_cookie: provider_state,
            redirect_to: url,
        },
    )
}

/// Decides whether a callback may proceed: the `provider_state` cookie
/// must exist and match the provider-returned `state` byte for byte, and
/// the `redirect_uri` cookie must exist. Any mismatch is a hard payload
/// failure, before any exchange with the provider and before any code is
/// issued; on success the stored redirect target is handed back.
pub fn validate_callback_state(
    provider_state_cookie: Option<String>,
    redirect_uri_cookie: Option<String>,
    query: &OAuthCallbackParams,
) -> (r: Result<String, InertiaError>)
    ensures
        r is Ok <==> (provider_state_cookie matches Some(ps) && ps@ == query.state@
            && redirect_uri_cookie is Some),
        r matches Ok(uri) ==> redirect_uri_cookie matches Some(u) && uri@ == u@,
        r matches Err(e) ==> e matches InertiaError::PayloadError(msg) && {
            &&& (provider_state_cookie is None ==> msg@ == "Missing state cookie"@)
            &&& (provider_state_cookie matches Some(ps) && ps@ != query.state@ ==> msg@
                == "State mismatch"@)
            &&& (provider_state_cookie matches Some(ps) && ps@ == query.state@
                && redirect_uri_cookie is None ==> msg@ == "Missing redirect_uri cookie"@)
        },
{
    let local_state = match provider_state_cookie {
        Some(ps) => ps,
        None => {
            return Err(InertiaError::PayloadError(String::from_str("Missing state cookie")));
        },
    };
    if !str_eq(query.state.as_str(), local_state.as_str()) {
        return Err(InertiaError::PayloadError(String::from_str("State mismatch")));
    }
    match redirect_uri_cookie {
        Some(uri) => Ok(uri),
        None => Err(InertiaError::PayloadError(String::from_str("Missing redirect_uri cookie"))),
    }
}

/// The form the provider's token endpoint is asked with when a callback
/// code is exchanged. The network call itself lives outside; this fixes
/// exactly what is sent.
pub fn build_token_exchange_form(config: &OAuthProviderConfig, code: String) -> (form: Vec<
    (String, String),
>)
    ensures
        form@.len() == 6,
        form@[0].0@ == "client_id"@ && form@[0].1@ == config.client_id@,
        form@[1].0@ == "client_secret"@ && form@[1].1@ == config.client_secret@,
        form@[2].0@ == "grant_type"@ && form@[2].1@ == "authorization_code"@,
        form@[3].0@ == "code"@ && form@[3].1@ == code@,
        form@[4].0@ == "redirect_uri"@ && form@[4].1@ == config.redirect_uri@,
        form@[5].0@ == "scope"@ && form@[5].1@ == "identify email"@,
{
    let mut form: Vec<(String, String)> = Vec::new();
    form.push((String::from_str("client_id"), config.client_id.clone()));
    form.push((String::from_str("client_secret"), config.client_secret.clone()));
    form.push((String::from_str("grant_type"), String::from_str("authorization_code")));
    form.push((String::from_str("code"), code));
    form.push((String::from_str("redirect_uri"), config.redirect_uri.clone()));
    form.push((String::from_str("scope"), String::from_str("identify email")));
    form
}

/// The provider's avatar URL for a user who has one.
pub open spec fn spec_avatar_url(id: Seq<char>, avatar: Seq<char>) -> Seq<char> {
    "https://cdn.discordapp.com/avatars/"@ + id + "/"@ + avatar + ".png"@
}

/// Builds the avatar URL for a provider user.
pub fn avatar_url(id: &str, avatar: &str) -> (url: String)
    ensures
        url@ == spec_avatar_url(id@, avatar@),
{
    let mut url = String::from_str("https://cdn.discordapp.com/avatars/");
    url.append(id);
    url.append("/");
    url.append(avatar);
    url.append(".png");
    url
}

/// Decides the user record for a first login: the provider profile's name,
/// and its avatar URL when the profile carries an avatar.
pub fn plan_new_user(user: &DiscordUser) -> (cu: CreateUser)
    ensures
        cu.name@ == user.username@,
        user.avatar matches Some(a) ==> cu.image matches Some(i) && i@ == spec_avatar_url(
            user.id@,
            a@,
        ),
        user.avatar is None ==> cu.image is None,
{
    let image = match &user.avatar {
        Some(avatar) => Some(avatar_url(user.id.as_str(), avatar.as_str())),
        None => None,
    };
    CreateUser { name: user.username.clone(), image }
}

/// Decides the linked account for a first login: the fresh user, the
/// provider identity, and the provider's token pair cached alongside.
pub fn plan_new_account(user_id: String, user: DiscordUser, token: DiscordResponse) -> (ca:
    CreateAccount)
    ensures
        ca.user_id == user_id,
        ca.account_type matches AccountType::Discord,
        ca.account_id == user.id,
        ca.access_token == token.access_token,
        ca.refresh_token == token.refresh_token,
{
    CreateAccount {
        user_id,
        account_type: AccountType::Discord,
        account_id: user.id,
        access_token: token.access_token,
        refresh_token: token.refresh_token,
    }
}

/// Decides the user a callback logs in: a linked account's user when one
/// exists, and nothing otherwise — first logins then create the user and
/// the linked account. A repeat login reuses the linked user as it stands,
/// without refreshing cached profile fields.
pub fn linked_user(existing: Option<&Account>) -> (r: Option<String>)
    ensures
        existing matches Some(a) ==> r matches Some(u) && u@ == a.user_id@,
        existing is None ==> r is None,
{
    match existing {
        Some(account) => Some(account.user_id.clone()),
        None => None,
    }
}

/// The redirect back to the client: the stored redirect target with the
/// fresh code appended, echoing the original client state unchanged when
/// one was supplied.
pub open spec fn spec_callback_redirect(
    uri: Seq<char>,
    code: Seq<char>,
    state: Option<Seq<char>>,
) -> Seq<char> {
    match state {
        Some(s) => uri + "?code="@ + code + "&state="@ + s,
        None => uri + "?code="@ + code,
    }
}

/// Builds the redirect back to the client.
pub fn build_callback_redirect(redirect_uri: String, code: &str, client_state: Option<String>) -> (url:
    String)
    ensures
        url@ == spec_callback_redirect(
            redirect_uri@,
            code@,
            match client_state {
                Some(s) => Some(s@),
                None => None,
            },
        ),
{
    let mut url = redirect_uri;
    url.append("?code=");
    url.append(code);
    match client_state {
        Some(state) => {
            url.append("&state=");
            url.append(state.as_str());
        },
        None => {},
    }
    url
}

/// The token endpoint's decision. On the authorization-code grant the code
/// is redeemed atomically — looked up and deleted in one step — so one code
/// yields at most one pair, and a live code is owed its pair; a missed
/// lookup surfaces as `Unauthorized`, never as a distinguishable not-found,
/// so clients cannot probe for code existence. On the refresh grant the
/// presented token is left untouched and a live token is owed its response.
/// A missing required field short-circuits before any store work.
pub fn token_grant<S: AuthService>(service: &mut S, req: TokenRequest, now_ms: u64) -> (r: Result<
    TokenGrantResponse,
    InertiaError,
>)
    requires
        old(service).svc_wf(),
        now_ms + REFRESH_TOKEN_EXPIRATION <= u64::MAX,
        ACCESS_TOKEN_EXPIRATION <= REFRESH_TOKEN_EXPIRATION,
    ensures
        final(service).svc_wf(),
        final(service).secret_view() == old(service).secret_view(),
        match req.grant_type {
            TokenGrantType::Code => match req.code {
                None => r matches Err(InertiaError::PayloadError(msg)) && msg@ == "Missing code"@
                    && final(service).codes_view() == old(service).codes_view()
                    && final(service).refresh_view() == old(service).refresh_view(),
                Some(code) => {
                    &&& final(service).codes_view() == old(service).codes_view().remove(code@)
                    &&& (r is Ok <==> spec_live(old(service).codes_view(), code@, now_ms))
                    &&& (r matches Err(e) ==> e matches InertiaError::Unauthorized)
                    &&& (r is Err ==> final(service).refresh_view() == old(
                        service,
                    ).refresh_view())
                    &&& (r matches Ok(resp) ==> {
                        &&& resp.access_token@ == signed_token_of(
                            spec_issuer(),
                            old(service).codes_view()[code@].0,
                            (now_ms + ACCESS_TOKEN_EXPIRATION) as u64,
                            now_ms,
                            old(service).secret_view(),
                        )
                        &&& token_claims_of(resp.access_token@, old(service).secret_view())
                            == Some(
                            (
                                spec_issuer(),
                                old(service).codes_view()[code@].0,
                                (now_ms + ACCESS_TOKEN_EXPIRATION) as u64,
                                now_ms,
                            ),
                        )
                        &&& resp.refresh_token matches Some(rt) && spec_is_refresh_key(rt@)
                            && spec_live(final(service).refresh_view(), rt@, now_ms)
                            && spec_stored_user(final(service).refresh_view(), rt@)
                            == old(service).codes_view()[code@].0
                        &&& resp.token_type@ == "Bearer"@
                        &&& resp.expires_in == ACCESS_TOKEN_EXPIRATION as i64
                    })
                },
            },
            TokenGrantType::Refresh => {
                &&& final(service).codes_view() == old(service).codes_view()
                &&& final(service).refresh_view() == old(service).refresh_view()
                &&& match req.refresh_token {
                    None => r matches Err(InertiaError::PayloadError(msg)) && msg@
                        == "Missing refresh_token"@,
                    Some(rt) => {
                        &&& (r is Ok <==> spec_live(old(service).refresh_view(), rt@, now_ms))
                        &&& (r matches Err(e) ==> e matches InertiaError::Unauthorized)
                        &&& (r matches Ok(resp) ==> {
                            &&& resp.access_token@ == signed_token_of(
                                spec_issuer(),
                                spec_stored_user(old(service).refresh_view(), rt@),
                                (now_ms + ACCESS_TOKEN_EXPIRATION) as u64,
                                now_ms,
                                old(service).secret_view(),
                            )
                            &&& token_claims_of(resp.access_token@, old(service).secret_view())
                                == Some(
                                (
                                    spec_issuer(),
                                    spec_stored_user(old(service).refresh_view(), rt@),
                                    (now_ms + ACCESS_TOKEN_EXPIRATION) as u64,
                                    now_ms,
                                ),
                            )
                            &&& resp.refresh_token is None
                            &&& resp.token_type@ == "Bearer"@
                            &&& resp.expires_in == ACCESS_TOKEN_EXPIRATION as i64
                        })
                    },
                }
            },
        },
{
    match req.grant_type {
        TokenGrantType::Code => {
            let code = match req.code {
                Some(code) => code,
                None => {
                    return Err(InertiaError::PayloadError(String::from_str("Missing code")));
                },
            };
            let auth_code = match service.redeem_auth_code(code.as_str(), now_ms) {
                Ok(ac) => ac,
                Err(_) => {
                    return Err(InertiaError::Unauthorized);
                },
            };
            match service.create_token_pair(auth_code.user_id.as_str(), now_ms) {
                Ok(pair) => Ok(TokenGrantResponse::from(pair)),
                Err(_) => {
                    proof {
                        assert(false);
                    }
                    Err(InertiaError::UpstreamError)
                },
            }
        },
        TokenGrantType::Refresh => {
            let refresh_token = match req.refresh_token {
                Some(token) => token,
                None => {
                    return Err(
                        InertiaError::PayloadError(String::from_str("Missing refresh_token")),
                    );
                },
            };
            match service.refresh_access_token(refresh_token.as_str(), now_ms) {
                Ok(resp) => Ok(TokenGrantResponse::from(resp)),
                Err(_) => Err(InertiaError::Unauthorized),
            }
        },
    }
}

} // verus!

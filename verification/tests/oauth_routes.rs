use inertia_auth::extractor::Auth;
use inertia_auth::oauth::{
    authorize, avatar_url, build_callback_redirect, build_token_exchange_form, linked_user,
    plan_new_account, plan_new_user, token_grant, validate_callback_state, OAuthProviderConfig,
};
use inertia_auth::account::{Account, AccountType};
use inertia_auth::repository::InertiaAuthRepository;
use inertia_auth::request::{
    DiscordResponse, DiscordUser, OAuth2Provider, OAuthAuthorizeParams, OAuthCallbackParams,
    TokenGrantType, TokenRequest,
};
use inertia_auth::service::{AuthService, InertiaAuthService};
use inertia_auth::token::TokenVerifyResult;
use inertia_auth::{InertiaError, ACCESS_TOKEN_EXPIRATION};

const NOW: u64 = 1_700_000_000_000;

fn service() -> InertiaAuthService {
    let repo = InertiaAuthRepository::new(
        b"0123456789abcdef0123456789abcdef0123456789abcdef0123456789abcdef".to_vec(),
    )
    .unwrap();
    InertiaAuthService::new(repo)
}

fn config() -> OAuthProviderConfig {
    OAuthProviderConfig {
        client_id: "cid".to_string(),
        client_secret: "client-secret-value".to_string(),
        redirect_uri: "https://api.example/oauth2/d/callback".to_string(),
    }
}

fn discord_user(avatar: Option<&str>) -> DiscordUser {
    DiscordUser {
        id: "111222333".to_string(),
        username: "someone".to_string(),
        discriminator: "0001".to_string(),
        avatar: avatar.map(|a| a.to_string()),
        email: "someone@example.com".to_string(),
    }
}

fn discord_response() -> DiscordResponse {
    DiscordResponse {
        access_token: "prov-access".to_string(),
        token_type: "Bearer".to_string(),
        expires_in: 3600,
        refresh_token: "prov-refresh".to_string(),
        scope: "identify email".to_string(),
    }
}

#[test]
fn authorize_rejects_non_code_response_type() {
    let query = OAuthAuthorizeParams {
        client_id: "cid".to_string(),
        redirect_uri: "https://client.example/done".to_string(),
        response_type: "token".to_string(),
        provider: OAuth2Provider::Discord,
        state: None,
    };
    match authorize(query, &config()) {
        Err(InertiaError::PayloadError(msg)) => {
            assert_eq!(msg, "Invalid response type! Expected 'code', got 'token'");
        }
        _ => panic!("bad response type accepted"),
    }
}

#[test]
fn authorize_sets_cookies_and_redirects_to_consent() {
    let query = OAuthAuthorizeParams {
        client_id: "cid".to_string(),
        redirect_uri: "https://client.example/done".to_string(),
        response_type: "code".to_string(),
        provider: OAuth2Provider::Discord,
        state: Some("client-state".to_string()),
    };
    let out = authorize(query, &config()).unwrap();
    assert_eq!(out.redirect_uri_cookie, "https://client.example/done");
    assert_eq!(out.state_cookie.as_deref(), Some("client-state"));
    assert!(!out.provider_state_cookie.is_empty());
    assert!(out.provider_state_cookie.chars().all(|c| c.is_ascii_digit()));
    let expected = format!(
        "https://discord.com/api/oauth2/authorize?client_id=cid&redirect_uri=https://api.example/oauth2/d/callback&response_type=code&scope=identify%20email&state={}",
        out.provider_state_cookie
    );
    assert_eq!(out.redirect_to, expected);
}

#[test]
fn authorize_without_client_state_sets_no_state_cookie() {
    let query = OAuthAuthorizeParams {
        client_id: "cid".to_string(),
        redirect_uri: "https://client.example/done".to_string(),
        response_type: "code".to_string(),
        provider: OAuth2Provider::Discord,
        state: None,
    };
    let out = authorize(query, &config()).unwrap();
    assert!(out.state_cookie.is_none());
}

#[test]
fn callback_state_mismatch_is_a_payload_error() {
    let query = OAuthCallbackParams { code: "prov-code".to_string(), state: "aaa".to_string() };
    match validate_callback_state(
        Some("bbb".to_string()),
        Some("https://client.example/done".to_string()),
        &query,
    ) {
        Err(InertiaError::PayloadError(msg)) => assert_eq!(msg, "State mismatch"),
        _ => panic!("state mismatch accepted"),
    }
}

#[test]
fn callback_missing_state_cookie_is_a_payload_error() {
    let query = OAuthCallbackParams { code: "prov-code".to_string(), state: "aaa".to_string() };
    match validate_callback_state(None, Some("https://client.example/done".to_string()), &query) {
        Err(InertiaError::PayloadError(msg)) => assert_eq!(msg, "Missing state cookie"),
        _ => panic!("missing state cookie accepted"),
    }
}

#[test]
fn callback_missing_redirect_cookie_is_a_payload_error() {
    let query = OAuthCallbackParams { code: "prov-code".to_string(), state: "aaa".to_string() };
    match validate_callback_state(Some("aaa".to_string()), None, &query) {
        Err(InertiaError::PayloadError(msg)) => assert_eq!(msg, "Missing redirect_uri cookie"),
        _ => panic!("missing redirect cookie accepted"),
    }
}

#[test]
fn callback_matching_state_hands_back_redirect_uri() {
    let query = OAuthCallbackParams { code: "prov-code".to_string(), state: "aaa".to_string() };
    let uri = validate_callback_state(
        Some("aaa".to_string()),
        Some("https://client.example/done".to_string()),
        &query,
    )
    .unwrap();
    assert_eq!(uri, "https://client.example/done");
}

#[test]
fn token_exchange_form_carries_the_expected_fields() {
    let form = build_token_exchange_form(&config(), "prov-code".to_string());
    let expected = [
        ("client_id", "cid"),
        ("client_secret", "client-secret-value"),
        ("grant_type", "authorization_code"),
        ("code", "prov-code"),
        ("redirect_uri", "https://api.example/oauth2/d/callback"),
        ("scope", "identify email"),
    ];
    assert_eq!(form.len(), expected.len());
    for ((key, value), (expected_key, expected_value)) in form.iter().zip(expected) {
        assert_eq!(key, expected_key);
        assert_eq!(value, expected_value);
    }
}

#[test]
fn avatar_url_is_exact() {
    assert_eq!(
        avatar_url("111222333", "abcdef"),
        "https://cdn.discordapp.com/avatars/111222333/abcdef.png"
    );
}

#[test]
fn new_user_plan_uses_profile_name_and_avatar() {
    let plan = plan_new_user(&discord_user(Some("abcdef")));
    assert_eq!(plan.name, "someone");
    assert_eq!(
        plan.image.as_deref(),
        Some("https://cdn.discordapp.com/avatars/111222333/abcdef.png")
    );
    let bare = plan_new_user(&discord_user(None));
    assert_eq!(bare.name, "someone");
    assert!(bare.image.is_none());
}

#[test]
fn new_account_plan_links_user_and_provider_identity() {
    let plan = plan_new_account("42".to_string(), discord_user(None), discord_response());
    assert_eq!(plan.user_id, "42");
    assert!(matches!(plan.account_type, AccountType::Discord));
    assert_eq!(plan.account_id, "111222333");
    assert_eq!(plan.access_token, "prov-access");
    assert_eq!(plan.refresh_token, "prov-refresh");
}

#[test]
fn linked_user_reuses_the_existing_account() {
    let account = Account {
        id: "a1".to_string(),
        user_id: "42".to_string(),
        account_type: AccountType::Discord,
        account_id: "111222333".to_string(),
        access_token: "prov-access".to_string(),
        refresh_token: "prov-refresh".to_string(),
        created_at: NOW,
    };
    assert_eq!(linked_user(Some(&account)).as_deref(), Some("42"));
    assert!(linked_user(None).is_none());
}

#[test]
fn callback_redirect_carries_code_and_echoes_state() {
    let url = build_callback_redirect(
        "https://client.example/done".to_string(),
        "c.fresh",
        Some("client-state".to_string()),
    );
    assert_eq!(url, "https://client.example/done?code=c.fresh&state=client-state");
    let bare =
        build_callback_redirect("https://client.example/done".to_string(), "c.fresh", None);
    assert_eq!(bare, "https://client.example/done?code=c.fresh");
}

#[test]
fn token_grant_requires_a_code_for_the_code_grant() {
    let mut svc = service();
    let req =
        TokenRequest { code: None, refresh_token: None, grant_type: TokenGrantType::Code };
    match token_grant(&mut svc, req, NOW) {
        Err(InertiaError::PayloadError(msg)) => assert_eq!(msg, "Missing code"),
        _ => panic!("missing code accepted"),
    }
}

#[test]
fn token_grant_requires_a_refresh_token_for_the_refresh_grant() {
    let mut svc = service();
    let req =
        TokenRequest { code: None, refresh_token: None, grant_type: TokenGrantType::Refresh };
    match token_grant(&mut svc, req, NOW) {
        Err(InertiaError::PayloadError(msg)) => assert_eq!(msg, "Missing refresh_token"),
        _ => panic!("missing refresh token accepted"),
    }
}

#[test]
fn token_grant_code_path_mints_a_pair_and_consumes_the_code() {
    let mut svc = service();
    let code = svc.create_auth_code("42", NOW);
    let req = TokenRequest {
        code: Some(code.clone()),
        refresh_token: None,
        grant_type: TokenGrantType::Code,
    };
    let resp = token_grant(&mut svc, req, NOW + 1).unwrap();
    assert_eq!(resp.token_type, "Bearer");
    assert_eq!(resp.expires_in, ACCESS_TOKEN_EXPIRATION as i64);
    match svc.verify_access_token(&resp.access_token, NOW + 1).unwrap() {
        TokenVerifyResult::Valid(uid) => assert_eq!(uid, "42"),
        TokenVerifyResult::Expired => panic!("granted token expired"),
    }
    let refresh_token = resp.refresh_token.expect("code grant returns a refresh token");
    assert!(refresh_token.starts_with("s."));
    assert_eq!(
        svc.repository.get_refresh_token(&refresh_token, NOW + 2).unwrap().user_id,
        "42"
    );

    // Single use: the same code cannot be redeemed again.
    let again = TokenRequest {
        code: Some(code),
        refresh_token: None,
        grant_type: TokenGrantType::Code,
    };
    match token_grant(&mut svc, again, NOW + 2) {
        Err(InertiaError::Unauthorized) => {}
        _ => panic!("one code yielded two grants"),
    }
}

#[test]
fn token_grant_unknown_code_is_unauthorized() {
    let mut svc = service();
    let req = TokenRequest {
        code: Some("c.never-created".to_string()),
        refresh_token: None,
        grant_type: TokenGrantType::Code,
    };
    match token_grant(&mut svc, req, NOW) {
        Err(InertiaError::Unauthorized) => {}
        _ => panic!("unknown code not mapped to unauthorized"),
    }
}

#[test]
fn token_grant_refresh_path_returns_no_refresh_token() {
    let mut svc = service();
    let pair = svc.create_token_pair("42", NOW).unwrap();
    let req = TokenRequest {
        code: None,
        refresh_token: Some(pair.refresh_token.clone()),
        grant_type: TokenGrantType::Refresh,
    };
    let resp = token_grant(&mut svc, req, NOW + 5).unwrap();
    assert!(resp.refresh_token.is_none());
    assert_eq!(resp.token_type, "Bearer");
    match svc.verify_access_token(&resp.access_token, NOW + 5).unwrap() {
        TokenVerifyResult::Valid(uid) => assert_eq!(uid, "42"),
        TokenVerifyResult::Expired => panic!("granted token expired"),
    }
    // The refresh token survives the grant.
    assert!(svc.repository.get_refresh_token(&pair.refresh_token, NOW + 6).is_ok());
}

#[test]
fn token_grant_unknown_refresh_token_is_unauthorized() {
    let mut svc = service();
    let req = TokenRequest {
        code: None,
        refresh_token: Some("s.never-created".to_string()),
        grant_type: TokenGrantType::Refresh,
    };
    match token_grant(&mut svc, req, NOW) {
        Err(InertiaError::Unauthorized) => {}
        _ => panic!("unknown refresh token not mapped to unauthorized"),
    }
}

#[test]
fn bearer_header_authenticates_and_other_schemes_do_not() {
    let mut svc = service();
    let pair = svc.create_token_pair("42", NOW).unwrap();
    let header = format!("Bearer {}", pair.access_token);
    let auth = Auth::from_header(&svc, &header, NOW + 1).unwrap();
    assert_eq!(auth.0, "42");

    for bad in [
        format!("Basic {}", pair.access_token),
        pair.access_token.clone(),
        "Bearer".to_string(),
        String::new(),
    ] {
        match Auth::from_header(&svc, &bad, NOW + 1) {
            Err(InertiaError::Unauthorized) => {}
            _ => panic!("a bad authorization header was accepted"),
        }
    }
}

#[test]
fn expired_bearer_token_is_unauthorized() {
    let mut svc = service();
    let pair = svc.create_token_pair("42", NOW).unwrap();
    let header = format!("Bearer {}", pair.access_token);
    match Auth::from_header(&svc, &header, NOW + ACCESS_TOKEN_EXPIRATION + 1) {
        Err(InertiaError::Unauthorized) => {}
        _ => panic!("an expired bearer token was accepted"),
    }
}

use inertia_auth::account::AccountType;
use inertia_auth::error::InertiaError;
use inertia_auth::response::TokenGrantResponse;
use inertia_auth::request::{OAuth2Provider, TokenGrantType};
use inertia_auth::service::{RefreshTokenResponse, TokenPair};
use inertia_auth::text::{str_eq, u64_to_decimal};
use inertia_auth::user::{AuthRole, User};

#[test]
fn error_status_codes_follow_the_taxonomy() {
    assert_eq!(InertiaError::PayloadError("x".to_string()).status_code(), 400);
    assert_eq!(InertiaError::Unauthorized.status_code(), 401);
    assert_eq!(InertiaError::NotFound.status_code(), 401);
    assert_eq!(InertiaError::UpstreamError.status_code(), 500);
}

#[test]
fn error_internal_codes_extend_the_status() {
    assert_eq!(InertiaError::PayloadError("x".to_string()).internal_code(), 40000);
    assert_eq!(InertiaError::Unauthorized.internal_code(), 40100);
    assert_eq!(InertiaError::NotFound.internal_code(), 40100);
    assert_eq!(InertiaError::UpstreamError.internal_code(), 50000);
}

#[test]
fn account_type_names_round_trip() {
    assert_eq!(AccountType::Discord.as_str(), "discord");
    assert_eq!(AccountType::Google.as_str(), "google");
    assert_eq!(AccountType::Apple.as_str(), "apple");
    assert!(matches!(AccountType::from("google".to_string()), AccountType::Google));
    assert!(matches!(AccountType::from("apple".to_string()), AccountType::Apple));
    assert!(matches!(AccountType::from("discord".to_string()), AccountType::Discord));
    assert!(matches!(AccountType::from("unknown".to_string()), AccountType::Discord));
}

#[test]
fn auth_role_names_round_trip() {
    assert_eq!(AuthRole::User.as_str(), "user");
    assert_eq!(AuthRole::Admin.as_str(), "admin");
    assert!(matches!(AuthRole::from("admin".to_string()), AuthRole::Admin));
    assert!(matches!(AuthRole::from("user".to_string()), AuthRole::User));
    assert!(matches!(AuthRole::from("other".to_string()), AuthRole::User));
}

#[test]
fn provider_and_grant_type_wire_names() {
    assert_eq!(OAuth2Provider::Discord.as_str(), "discord");
    assert_eq!(OAuth2Provider::Google.as_str(), "google");
    assert_eq!(OAuth2Provider::Apple.as_str(), "apple");
    assert_eq!(TokenGrantType::Code.as_str(), "authorization_code");
    assert_eq!(TokenGrantType::Refresh.as_str(), "refresh_token");
}

#[test]
fn default_user_is_the_placeholder() {
    let user = User::default();
    assert_eq!(user.id, "0000000000000000000");
    assert_eq!(user.name, "User");
    assert!(user.image.is_none());
    assert!(matches!(user.auth_role, AuthRole::User));
    assert_eq!(user.created_at, 0);
}

#[test]
fn placeholder_user_is_stamped_with_the_given_instant() {
    let user = User::placeholder(1_700_000_000_000);
    assert_eq!(user.id, "0000000000000000000");
    assert_eq!(user.name, "User");
    assert!(user.image.is_none());
    assert!(matches!(user.auth_role, AuthRole::User));
    assert_eq!(user.created_at, 1_700_000_000_000);
}

#[test]
fn grant_response_from_pair_keeps_the_refresh_token() {
    let pair = TokenPair {
        access_token: "acc".to_string(),
        refresh_token: "s.ref".to_string(),
        expires_in: 86_400_000,
        token_type: "Bearer".to_string(),
    };
    let resp = TokenGrantResponse::from(pair);
    assert_eq!(resp.access_token, "acc");
    assert_eq!(resp.token_type, "Bearer");
    assert_eq!(resp.expires_in, 86_400_000);
    assert_eq!(resp.refresh_token.as_deref(), Some("s.ref"));
}

#[test]
fn grant_response_from_refresh_has_no_refresh_token() {
    let refresh = RefreshTokenResponse {
        access_token: "acc".to_string(),
        expires_in: 86_400_000,
        token_type: "Bearer".to_string(),
    };
    let resp = TokenGrantResponse::from(refresh);
    assert_eq!(resp.access_token, "acc");
    assert_eq!(resp.token_type, "Bearer");
    assert_eq!(resp.expires_in, 86_400_000);
    assert!(resp.refresh_token.is_none());
}

#[test]
fn decimal_rendering_is_exact() {
    assert_eq!(u64_to_decimal(0), "0");
    assert_eq!(u64_to_decimal(7), "7");
    assert_eq!(u64_to_decimal(10), "10");
    assert_eq!(u64_to_decimal(1_234_567_890), "1234567890");
    assert_eq!(u64_to_decimal(u64::MAX), "18446744073709551615");
}

#[test]
fn str_eq_compares_contents() {
    assert!(str_eq("", ""));
    assert!(str_eq("abc", "abc"));
    assert!(!str_eq("abc", "abd"));
    assert!(!str_eq("abc", "abcd"));
}

#[test]
fn error_messages_match_the_taxonomy() {
    assert_eq!(
        InertiaError::PayloadError("Missing code".to_string()).message(),
        "An error occurred while processing the request body: Missing code"
    );
    assert_eq!(
        InertiaError::Unauthorized.message(),
        "You're not authorized to perform this request"
    );
    assert_eq!(
        InertiaError::NotFound.message(),
        "You're not authorized to perform this request"
    );
    assert_eq!(InertiaError::UpstreamError.message(), "Error while processing request");
}

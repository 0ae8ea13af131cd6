use inertia_auth::repository::InertiaAuthRepository;
use inertia_auth::service::{AuthService, InertiaAuthService};
use inertia_auth::token::TokenVerifyResult;
use inertia_auth::{InertiaError, ACCESS_TOKEN_EXPIRATION};

const NOW: u64 = 1_700_000_000_000;

fn service() -> InertiaAuthService {
    let repo = InertiaAuthRepository::new(
        b"0123456789abcdef0123456789abcdef0123456789abcdef0123456789abcdef".to_vec(),
    )
    .unwrap();
    InertiaAuthService::new(repo)
}

#[test]
fn token_pair_access_token_verifies_to_its_user() {
    let mut svc = service();
    let pair = svc.create_token_pair("42", NOW).unwrap();
    assert_eq!(pair.token_type, "Bearer");
    assert_eq!(pair.expires_in, ACCESS_TOKEN_EXPIRATION as i64);
    match svc.verify_access_token(&pair.access_token, NOW).unwrap() {
        TokenVerifyResult::Valid(uid) => assert_eq!(uid, "42"),
        TokenVerifyResult::Expired => panic!("fresh pair expired"),
    }
}

#[test]
fn token_pair_refresh_token_maps_to_its_user() {
    let mut svc = service();
    let pair = svc.create_token_pair("42", NOW).unwrap();
    assert!(pair.refresh_token.starts_with("s."));
    let record = svc.repository.get_refresh_token(&pair.refresh_token, NOW + 1).unwrap();
    assert_eq!(record.user_id, "42");
    assert_eq!(record.token, pair.refresh_token);
    assert_eq!(record.created_at, NOW);
}

#[test]
fn refresh_mints_new_valid_token_and_keeps_the_refresh_token() {
    let mut svc = service();
    let pair = svc.create_token_pair("42", NOW).unwrap();
    let later = NOW + 10_000;
    let response = svc.refresh_access_token(&pair.refresh_token, later).unwrap();
    assert_eq!(response.token_type, "Bearer");
    assert_eq!(response.expires_in, ACCESS_TOKEN_EXPIRATION as i64);
    match svc.verify_access_token(&response.access_token, later).unwrap() {
        TokenVerifyResult::Valid(uid) => assert_eq!(uid, "42"),
        TokenVerifyResult::Expired => panic!("refreshed token expired"),
    }
    // No rotation: the refresh token stays retrievable and usable.
    assert!(svc.repository.get_refresh_token(&pair.refresh_token, later).is_ok());
    assert!(svc.refresh_access_token(&pair.refresh_token, later + 1).is_ok());
}

#[test]
fn refresh_outlives_the_access_token() {
    let mut svc = service();
    let pair = svc.create_token_pair("42", NOW).unwrap();
    let after_access_expiry = NOW + ACCESS_TOKEN_EXPIRATION + 1;
    match svc.verify_access_token(&pair.access_token, after_access_expiry).unwrap() {
        TokenVerifyResult::Expired => {}
        TokenVerifyResult::Valid(_) => panic!("stale access token still valid"),
    }
    let response = svc.refresh_access_token(&pair.refresh_token, after_access_expiry).unwrap();
    match svc.verify_access_token(&response.access_token, after_access_expiry).unwrap() {
        TokenVerifyResult::Valid(uid) => assert_eq!(uid, "42"),
        TokenVerifyResult::Expired => panic!("refreshed token expired"),
    }
}

#[test]
fn refresh_on_unknown_token_is_not_found() {
    let svc = service();
    match svc.refresh_access_token("s.never-created", NOW) {
        Err(InertiaError::NotFound) => {}
        _ => panic!("an unknown refresh token refreshed"),
    }
}

#[test]
fn refresh_on_deleted_token_is_not_found() {
    let mut svc = service();
    let pair = svc.create_token_pair("42", NOW).unwrap();
    svc.repository.delete_refresh_token(&pair.refresh_token);
    match svc.refresh_access_token(&pair.refresh_token, NOW + 1) {
        Err(InertiaError::NotFound) => {}
        _ => panic!("a deleted refresh token refreshed"),
    }
}

#[test]
fn service_code_round_trip() {
    let mut svc = service();
    let code = svc.create_auth_code("7", NOW);
    let auth_code = svc.verify_auth_code(&code, NOW + 1).unwrap();
    assert_eq!(auth_code.user_id, "7");
    svc.delete_auth_code(&code);
    match svc.verify_auth_code(&code, NOW + 1) {
        Err(InertiaError::NotFound) => {}
        _ => panic!("deleted code still verifies"),
    }
}

#[test]
fn distinct_users_get_distinct_subjects() {
    let mut svc = service();
    let a = svc.create_token_pair("1", NOW).unwrap();
    let b = svc.create_token_pair("2", NOW).unwrap();
    assert_ne!(a.refresh_token, b.refresh_token);
    match svc.verify_access_token(&a.access_token, NOW).unwrap() {
        TokenVerifyResult::Valid(uid) => assert_eq!(uid, "1"),
        _ => panic!(),
    }
    match svc.verify_access_token(&b.access_token, NOW).unwrap() {
        TokenVerifyResult::Valid(uid) => assert_eq!(uid, "2"),
        _ => panic!(),
    }
}

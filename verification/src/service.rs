//! The auth service: code issuance and verification, token-pair minting,
//! refresh, and access-token verification, orchestrated over the repository.

use vstd::prelude::*;
use vstd::string::StringExecFns;

use crate::code_store::{spec_is_code_key, AuthCode};
use crate::error::InertiaError;
use crate::record::spec_decode_refresh;
use crate::refresh_store::spec_is_refresh_key;
use crate::repository::InertiaAuthRepository;
use crate::store::spec_live;
use crate::token::{
    signed_token_of, spec_issuer, spec_token_outcome, token_claims_of, SpecTokenOutcome,
    TokenVerifyResult,
};
use crate::{ACCESS_TOKEN_EXPIRATION, AUTH_CODE_EXPIRATION, REFRESH_TOKEN_EXPIRATION};

verus! {

/// The pair handed to a client that redeemed an authorization code. A
/// response value only: the refresh token also lives in the store, the
/// access token only here.
pub struct TokenPair {
    pub access_token: String,
    pub refresh_token: String,
    /// Validity of the access token, in milliseconds.
    pub expires_in: i64,
    /// Always "Bearer".
    pub token_type: String,
}

/// The response to a refresh call: a new access token, and nothing about
/// the refresh token itself, which stays as it was.
pub struct RefreshTokenResponse {
    pub access_token: String,
    /// Validity of the access token, in milliseconds.
    pub expires_in: i64,
    /// Always "Bearer".
    pub token_type: String,
}

/// The user a live refresh-token binding belongs to.
pub open spec fn spec_stored_user(refresh: Map<Seq<char>, (Seq<u8>, u64)>, token: Seq<char>) -> Seq<
    char,
> {
    spec_decode_refresh(refresh[token].0)->Some_0.user_id
}

/// The protocol face of the token service. One concrete backend implements
/// it; callers and the route orchestration speak through it.
pub trait AuthService: Sized {
    /// The code→user bindings the service sees.
    spec fn codes_view(&self) -> Map<Seq<char>, (Seq<char>, u64)>;

    /// The refresh-secret→record bindings the service sees.
    spec fn refresh_view(&self) -> Map<Seq<char>, (Seq<u8>, u64)>;

    /// The signing secret the service verifies and mints tokens with.
    spec fn secret_view(&self) -> Seq<u8>;

    /// The service's internal invariant.
    spec fn svc_wf(&self) -> bool;

    /// Mints an authorization code for `user_id`, bound for 300 seconds.
    /// The service does not enforce single use here: that belongs to the
    /// caller sequencing verify then delete, or redeeming atomically.
    fn create_auth_code(&mut self, user_id: &str, now_ms: u64) -> (code: String)
        requires
            old(self).svc_wf(),
            now_ms + AUTH_CODE_EXPIRATION <= u64::MAX,
        ensures
            final(self).svc_wf(),
            spec_is_code_key(code@),
            final(self).codes_view() == old(self).codes_view().insert(
                code@,
                (user_id@, (now_ms + AUTH_CODE_EXPIRATION) as u64),
            ),
            final(self).refresh_view() == old(self).refresh_view(),
            final(self).secret_view() == old(self).secret_view(),
    ;

    /// Reads the metadata behind an authorization code; absent or lapsed
    /// codes fail with `NotFound`. The code is not consumed.
    fn verify_auth_code(&self, code: &str, now_ms: u64) -> (r: Result<AuthCode, InertiaError>)
        requires
            self.svc_wf(),
        ensures
            r is Ok <==> spec_live(self.codes_view(), code@, now_ms),
            r matches Ok(ac) ==> ac.code@ == code@ && ac.user_id@ == self.codes_view()[code@].0
                && ac.expires_at == self.codes_view()[code@].1,
            r matches Err(e) ==> e matches InertiaError::NotFound,
    ;

    /// Deletes an authorization code; idempotent.
    fn delete_auth_code(&mut self, code: &str)
        requires
            old(self).svc_wf(),
        ensures
            final(self).svc_wf(),
            final(self).codes_view() == old(self).codes_view().remove(code@),
            final(self).refresh_view() == old(self).refresh_view(),
            final(self).secret_view() == old(self).secret_view(),
    ;

    /// Redeems an authorization code: lookup and deletion in one step, so a
    /// code is honored at most once however calls interleave.
    fn redeem_auth_code(&mut self, code: &str, now_ms: u64) -> (r: Result<AuthCode, InertiaError>)
        requires
            old(self).svc_wf(),
        ensures
            final(self).svc_wf(),
            final(self).codes_view() == old(self).codes_view().remove(code@),
            r is Ok <==> spec_live(old(self).codes_view(), code@, now_ms),
            r matches Ok(ac) ==> ac.code@ == code@ && ac.user_id@
                == old(self).codes_view()[code@].0 && ac.expires_at
                == old(self).codes_view()[code@].1,
            r matches Err(e) ==> e matches InertiaError::NotFound,
            final(self).refresh_view() == old(self).refresh_view(),
            final(self).secret_view() == old(self).secret_view(),
    ;

    /// Mints a refresh token (a store write) and an access token (pure)
    /// for `user_id`, independently and with no shared transaction. The
    /// signer cannot fail, so the pair is owed: both the stored record and
    /// the returned tokens are pinned below.
    fn create_token_pair(&mut self, user_id: &str, now_ms: u64) -> (r: Result<
        TokenPair,
        InertiaError,
    >)
        requires
            old(self).svc_wf(),
            now_ms + REFRESH_TOKEN_EXPIRATION <= u64::MAX,
            ACCESS_TOKEN_EXPIRATION <= REFRESH_TOKEN_EXPIRATION,
        ensures
            final(self).svc_wf(),
            final(self).codes_view() == old(self).codes_view(),
            final(self).secret_view() == old(self).secret_view(),
            r is Ok,
            r matches Ok(pair) ==> {
                &&& spec_is_refresh_key(pair.refresh_token@)
                &&& final(self).refresh_view() == old(self).refresh_view().insert(
                    pair.refresh_token@,
                    final(self).refresh_view()[pair.refresh_token@],
                )
                &&& spec_live(final(self).refresh_view(), pair.refresh_token@, now_ms)
                &&& final(self).refresh_view()[pair.refresh_token@].1 == now_ms
                    + REFRESH_TOKEN_EXPIRATION
                &&& spec_stored_user(final(self).refresh_view(), pair.refresh_token@) == user_id@
                &&& spec_decode_refresh(final(self).refresh_view()[pair.refresh_token@].0)
                    is Some
                &&& spec_decode_refresh(
                    final(self).refresh_view()[pair.refresh_token@].0,
                )->Some_0.token == pair.refresh_token@
                &&& spec_decode_refresh(
                    final(self).refresh_view()[pair.refresh_token@].0,
                )->Some_0.created_at == now_ms
                &&& pair.access_token@ == signed_token_of(
                    spec_issuer(),
                    user_id@,
                    (now_ms + ACCESS_TOKEN_EXPIRATION) as u64,
                    now_ms,
                    old(self).secret_view(),
                )
                &&& token_claims_of(pair.access_token@, old(self).secret_view()) == Some(
                    (
                        spec_issuer(),
                        user_id@,
                        (now_ms + ACCESS_TOKEN_EXPIRATION) as u64,
                        now_ms,
                    ),
                )
                &&& pair.expires_in == ACCESS_TOKEN_EXPIRATION as i64
                &&& pair.token_type@ == "Bearer"@
            },
    ;

    /// Verifies a refresh-token secret and mints a new access token bound
    /// to its stored user. The record itself is left untouched and stays
    /// usable until its own expiry: refreshing does not rotate it.
    fn refresh_access_token(&self, refresh_token: &str, now_ms: u64) -> (r: Result<
        RefreshTokenResponse,
        InertiaError,
    >)
        requires
            self.svc_wf(),
            now_ms + ACCESS_TOKEN_EXPIRATION <= u64::MAX,
        ensures
            r is Ok <==> spec_live(self.refresh_view(), refresh_token@, now_ms),
            r matches Err(e) ==> e matches InertiaError::NotFound,
            r matches Ok(resp) ==> {
                &&& resp.access_token@ == signed_token_of(
                    spec_issuer(),
                    spec_stored_user(self.refresh_view(), refresh_token@),
                    (now_ms + ACCESS_TOKEN_EXPIRATION) as u64,
                    now_ms,
                    self.secret_view(),
                )
                &&& token_claims_of(resp.access_token@, self.secret_view()) == Some(
                    (
                        spec_issuer(),
                        spec_stored_user(self.refresh_view(), refresh_token@),
                        (now_ms + ACCESS_TOKEN_EXPIRATION) as u64,
                        now_ms,
                    ),
                )
                &&& resp.expires_in == ACCESS_TOKEN_EXPIRATION as i64
                &&& resp.token_type@ == "Bearer"@
            },
    ;

    /// Classifies an access token at `now_ms`; a signature or format
    /// failure surfaces as `Unauthorized`, never coerced into `Expired`.
    fn verify_access_token(&self, access_token: &str, now_ms: u64) -> (r: Result<
        TokenVerifyResult,
        InertiaError,
    >)
        requires
            self.svc_wf(),
        ensures
            match spec_token_outcome(access_token@, self.secret_view(), now_ms) {
                SpecTokenOutcome::SpecValid(subject) => r matches Ok(TokenVerifyResult::Valid(u))
                    && u@ == subject,
                SpecTokenOutcome::SpecExpired => r matches Ok(TokenVerifyResult::Expired),
                SpecTokenOutcome::SpecInvalid => r matches Err(InertiaError::Unauthorized),
            },
    ;
}

/// The concrete token service, over the in-process repository.
pub struct InertiaAuthService {
    pub repository: InertiaAuthRepository,
}

impl InertiaAuthService {
    pub fn new(repository: InertiaAuthRepository) -> (s: Self)
        ensures
            s.repository == repository,
    {
        InertiaAuthService { repository }
    }
}

impl AuthService for InertiaAuthService {
    open spec fn codes_view(&self) -> Map<Seq<char>, (Seq<char>, u64)> {
        self.repository.codes@
    }

    open spec fn refresh_view(&self) -> Map<Seq<char>, (Seq<u8>, u64)> {
        self.repository.refresh@
    }

    open spec fn secret_view(&self) -> Seq<u8> {
        self.repository.spec_secret()
    }

    open spec fn svc_wf(&self) -> bool {
        self.repository.wf()
    }

    fn create_auth_code(&mut self, user_id: &str, now_ms: u64) -> (code: String) {
        self.repository.create_auth_code(user_id, now_ms)
    }

    fn verify_auth_code(&self, code: &str, now_ms: u64) -> (r: Result<AuthCode, InertiaError>) {
        self.repository.verify_auth_code(code, now_ms)
    }

    fn delete_auth_code(&mut self, code: &str) {
        self.repository.delete_auth_code(code);
    }

    fn redeem_auth_code(&mut self, code: &str, now_ms: u64) -> (r: Result<AuthCode, InertiaError>) {
        self.repository.redeem_auth_code(code, now_ms)
    }

    fn create_token_pair(&mut self, user_id: &str, now_ms: u64) -> (r: Result<
        TokenPair,
        InertiaError,
    >) {
        let record = self.repository.create_refresh_token(user_id, now_ms);
        match self.repository.create_access_token(user_id, now_ms) {
            Ok(access_token) => Ok(
                TokenPair {
                    access_token,
                    refresh_token: record.token,
                    expires_in: ACCESS_TOKEN_EXPIRATION as i64,
                    token_type: String::from_str("Bearer"),
                },
            ),
            Err(_) => {
                proof {
                    assert(false);
                }
                Err(InertiaError::UpstreamError)
            },
        }
    }

    fn refresh_access_token(&self, refresh_token: &str, now_ms: u64) -> (r: Result<
        RefreshTokenResponse,
        InertiaError,
    >) {
        let record = match self.repository.get_refresh_token(refresh_token, now_ms) {
            Ok(record) => record,
            Err(_) => return Err(InertiaError::NotFound),
        };
        match self.repository.create_access_token(record.user_id.as_str(), now_ms) {
            Ok(access_token) => Ok(
                RefreshTokenResponse {
                    access_token,
                    expires_in: ACCESS_TOKEN_EXPIRATION as i64,
                    token_type: String::from_str("Bearer"),
                },
            ),
            Err(_) => {
                proof {
                    assert(false);
                }
                Err(InertiaError::UpstreamError)
            },
        }
    }

    fn verify_access_token(&self, access_token: &str, now_ms: u64) -> (r: Result<
        TokenVerifyResult,
        InertiaError,
    >) {
        self.repository.verify_access_token(access_token, now_ms)
    }
}

} // verus!

//! The auth repository: the two stores and the access-token codec behind
//! one interface, owning the signing secret.

use vstd::prelude::*;

use crate::code_store::{spec_is_code_key, AuthCode, CodeStore};
use crate::error::InertiaError;
use crate::record::RefreshToken;
use crate::refresh_store::{spec_is_refresh_key, RefreshStore};
use crate::store::spec_live;
use crate::token::{
    create_access_token, signed_token_of, spec_issuer, spec_token_outcome, token_claims_of,
    verify_access_token, SpecTokenOutcome, TokenVerifyResult,
};
use crate::record::spec_encode_refresh;
use crate::{ACCESS_TOKEN_EXPIRATION, AUTH_CODE_EXPIRATION, REFRESH_TOKEN_EXPIRATION};

verus! {

/// Composes the ephemeral code store, the durable refresh-token store and
/// the access-token codec. The signing secret is fixed at construction and
/// read-only for the repository's lifetime.
pub struct InertiaAuthRepository {
    /// The signing secret, fixed at construction.
    pub secret: Vec<u8>,
    /// The ephemeral code→user store.
    pub codes: CodeStore,
    /// The durable secret→record store.
    pub refresh: RefreshStore,
}

impl InertiaAuthRepository {
    /// The signing secret, as the contracts speak of it.
    pub open spec fn spec_secret(&self) -> Seq<u8> {
        self.secret@
    }

    pub open spec fn wf(&self) -> bool {
        &&& self.codes.wf()
        &&& self.refresh.wf()
        &&& self.spec_secret().len() > 0
    }

    /// Builds a repository around `secret`. An empty secret — the unset
    /// configuration — is rejected outright rather than silently defaulted.
    pub fn new(secret: Vec<u8>) -> (r: Result<Self, InertiaError>)
        ensures
            r is Ok <==> secret@.len() > 0,
            r matches Ok(repo) ==> repo.wf() && repo.spec_secret() == secret@ && repo.codes@
                == Map::<Seq<char>, (Seq<char>, u64)>::empty() && repo.refresh@ == Map::<
                Seq<char>,
                (Seq<u8>, u64),
            >::empty(),
            r matches Err(e) ==> e matches InertiaError::UpstreamError,
    {
        if secret.len() == 0 {
            return Err(InertiaError::UpstreamError);
        }
        Ok(InertiaAuthRepository { secret, codes: CodeStore::new(), refresh: RefreshStore::new() })
    }

    /// Mints an authorization code for `user_id`, bound for 300 seconds.
    pub fn create_auth_code(&mut self, user_id: &str, now_ms: u64) -> (code: String)
        requires
            old(self).wf(),
            now_ms + AUTH_CODE_EXPIRATION <= u64::MAX,
        ensures
            final(self).wf(),
            spec_is_code_key(code@),
            final(self).codes@ == old(self).codes@.insert(
                code@,
                (user_id@, (now_ms + AUTH_CODE_EXPIRATION) as u64),
            ),
            final(self).refresh@ == old(self).refresh@,
            final(self).spec_secret() == old(self).spec_secret(),
    {
        self.codes.create(user_id, now_ms)
    }

    /// Reads the metadata behind an authorization code; absent or lapsed
    /// codes fail with `NotFound`. The code is not consumed.
    pub fn verify_auth_code(&self, code: &str, now_ms: u64) -> (r: Result<AuthCode, InertiaError>)
        requires
            self.wf(),
        ensures
            r is Ok <==> spec_live(self.codes@, code@, now_ms),
            r matches Ok(ac) ==> ac.code@ == code@ && ac.user_id@ == self.codes@[code@].0
                && ac.expires_at == self.codes@[code@].1,
            r matches Err(e) ==> e matches InertiaError::NotFound,
    {
        self.codes.verify(code, now_ms)
    }

    /// Deletes an authorization code; idempotent.
    pub fn delete_auth_code(&mut self, code: &str)
        requires
            old(self).wf(),
        ensures
            final(self).wf(),
            final(self).codes@ == old(self).codes@.remove(code@),
            final(self).refresh@ == old(self).refresh@,
            final(self).spec_secret() == old(self).spec_secret(),
    {
        self.codes.delete(code);
    }

    /// Redeems an authorization code: lookup and deletion in one step, so a
    /// code is honored at most once however calls interleave.
    pub fn redeem_auth_code(&mut self, code: &str, now_ms: u64) -> (r: Result<
        AuthCode,
        InertiaError,
    >)
        requires
            old(self).wf(),
        ensures
            final(self).wf(),
            final(self).codes@ == old(self).codes@.remove(code@),
            r is Ok <==> spec_live(old(self).codes@, code@, now_ms),
            r matches Ok(ac) ==> ac.code@ == code@ && ac.user_id@ == old(self).codes@[code@].0
                && ac.expires_at == old(self).codes@[code@].1,
            r matches Err(e) ==> e matches InertiaError::NotFound,
            final(self).refresh@ == old(self).refresh@,
            final(self).spec_secret() == old(self).spec_secret(),
    {
        self.codes.redeem(code, now_ms)
    }

    /// Mints a signed access token for `user_id` at `now_ms`, expiring 24
    /// hours later; the signer cannot fail, so a token is always returned.
    pub fn create_access_token(&self, user_id: &str, now_ms: u64) -> (r: Result<
        String,
        InertiaError,
    >)
        requires
            self.wf(),
            now_ms + ACCESS_TOKEN_EXPIRATION <= u64::MAX,
        ensures
            r is Ok,
            r matches Ok(t) ==> t@ == signed_token_of(
                spec_issuer(),
                user_id@,
                (now_ms + ACCESS_TOKEN_EXPIRATION) as u64,
                now_ms,
                self.spec_secret(),
            ) && token_claims_of(t@, self.spec_secret()) == Some(
                (spec_issuer(), user_id@, (now_ms + ACCESS_TOKEN_EXPIRATION) as u64, now_ms),
            ),
    {
        create_access_token(user_id, now_ms, self.secret.as_slice())
    }

    /// Classifies an access token at `now_ms`: `Valid(subject)` or
    /// `Expired` on a good signature, `Unauthorized` on any other input.
    pub fn verify_access_token(&self, token: &str, now_ms: u64) -> (r: Result<
        TokenVerifyResult,
        InertiaError,
    >)
        requires
            self.wf(),
        ensures
            match spec_token_outcome(token@, self.spec_secret(), now_ms) {
                SpecTokenOutcome::SpecValid(subject) => r matches Ok(TokenVerifyResult::Valid(u))
                    && u@ == subject,
                SpecTokenOutcome::SpecExpired => r matches Ok(TokenVerifyResult::Expired),
                SpecTokenOutcome::SpecInvalid => r matches Err(InertiaError::Unauthorized),
            },
    {
        verify_access_token(token, now_ms, self.secret.as_slice())
    }

    /// Mints a refresh-token record for `user_id`, stored under its fresh
    /// secret for one year.
    pub fn create_refresh_token(&mut self, user_id: &str, now_ms: u64) -> (record: RefreshToken)
        requires
            old(self).wf(),
            now_ms + REFRESH_TOKEN_EXPIRATION <= u64::MAX,
        ensures
            final(self).wf(),
            record.user_id@ == user_id@,
            record.created_at == now_ms,
            spec_is_refresh_key(record.token@),
            final(self).refresh@ == old(self).refresh@.insert(
                record.token@,
                (spec_encode_refresh(record@), (now_ms + REFRESH_TOKEN_EXPIRATION) as u64),
            ),
            crate::record::spec_decode_refresh(spec_encode_refresh(record@)) == Some(record@),
            final(self).codes@ == old(self).codes@,
            final(self).spec_secret() == old(self).spec_secret(),
    {
        self.refresh.create(user_id, now_ms)
    }

    /// Fetches a refresh-token record by its secret; absent or lapsed
    /// secrets fail with `NotFound`, the only expiry mechanism they have.
    pub fn get_refresh_token(&self, token: &str, now_ms: u64) -> (r: Result<
        RefreshToken,
        InertiaError,
    >)
        requires
            self.wf(),
        ensures
            r is Ok <==> spec_live(self.refresh@, token@, now_ms),
            r matches Ok(rec) ==> Some(rec@) == crate::record::spec_decode_refresh(
                self.refresh@[token@].0,
            ) && rec.token@ == token@,
            r matches Err(e) ==> e matches InertiaError::NotFound,
    {
        self.refresh.get(token, now_ms)
    }

    /// Deletes a refresh token by its secret; idempotent.
    pub fn delete_refresh_token(&mut self, token: &str)
        requires
            old(self).wf(),
        ensures
            final(self).wf(),
            final(self).refresh@ == old(self).refresh@.remove(token@),
            final(self).codes@ == old(self).codes@,
            final(self).spec_secret() == old(self).spec_secret(),
    {
        self.refresh.delete(token);
    }
}

} // verus!

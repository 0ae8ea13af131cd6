//! The access-token codec: compact signed claims, minted and checked with
//! HMAC-SHA256 over the process's signing secret. Signature and format are
//! checked first; only a token whose signature holds is classified by its
//! expiration, so a forged token can never be mistaken for a merely expired
//! one.

use vstd::prelude::*;
use vstd::string::StringExecFns;

use crate::error::InertiaError;
use crate::ACCESS_TOKEN_EXPIRATION;

verus! {

/// The claims carried inside a signed access token. Never persisted: the
/// claims exist only inside the token string, immutable once minted.
pub struct AccessToken {
    pub issuer: String,
    /// The user the token was minted for.
    pub subject: String,
    /// Instant after which the token no longer verifies, in milliseconds.
    pub expiration: u64,
    /// Instant at which the token was minted, in milliseconds.
    pub issued_at: u64,
}

/// The outcome of verifying a well-signed access token. A token whose
/// signature or format is wrong is not a `TokenVerifyResult`: it surfaces
/// as an `Unauthorized` error, kept distinct from `Expired` so that a forged
/// credential forces re-authentication instead of a refresh.
pub enum TokenVerifyResult {
    Valid(String),
    Expired,
}

/// The fixed issuer written into every minted token.
pub open spec fn spec_issuer() -> Seq<char> {
    "https://inertia.wtf/"@
}

/// The signed compact token that the codec produces for these claims and
/// this secret. Signing is deterministic, so the result is a function of
/// its arguments; its exact text is stated nowhere.
pub uninterp spec fn signed_token_of(
    issuer: Seq<char>,
    subject: Seq<char>,
    expiration: u64,
    issued_at: u64,
    secret: Seq<u8>,
) -> Seq<char>;

/// The claims (issuer, subject, expiration, issued_at) that signature
/// verification under `secret` extracts from `token`, or nothing when the
/// signature or the format is wrong.
pub uninterp spec fn token_claims_of(token: Seq<char>, secret: Seq<u8>) -> Option<
    (Seq<char>, Seq<char>, u64, u64),
>;

/// How a token is classified at instant `now`: `Invalid` when its signature
/// or format is wrong, and otherwise `Expired` or `Valid(subject)` by
/// comparing its expiration to `now`.
pub enum SpecTokenOutcome {
    SpecValid(Seq<char>),
    SpecExpired,
    SpecInvalid,
}

pub open spec fn spec_token_outcome(token: Seq<char>, secret: Seq<u8>, now: u64) -> SpecTokenOutcome {
    match token_claims_of(token, secret) {
        None => SpecTokenOutcome::SpecInvalid,
        Some(claims) => if claims.2 > now {
            SpecTokenOutcome::SpecValid(claims.1)
        } else {
            SpecTokenOutcome::SpecExpired
        },
    }
}

/// Relies on jwt's `SignWithKey` for HMAC-SHA256 (`Hmac<Sha256>` from hmac
/// and sha2): the token is the base64 header and claims with an HMAC over
/// them, a deterministic function of the claims and the key; and jwt's
/// `VerifyWithKey` recomputes that same HMAC, so the token verifies under
/// the same key and yields the claims it was signed over. Signing cannot
/// fail: HMAC accepts a key of any length, the header is built from the
/// key's own algorithm, and string-keyed JSON claims always serialize —
/// so the call always returns a token.
#[verifier::external_body]
fn hmac_sign_claims(
    issuer: &str,
    subject: &str,
    expiration: u64,
    issued_at: u64,
    secret: &[u8],
) -> (r: Option<String>)
    ensures
        r is Some,
        r matches Some(t) ==> t@ == signed_token_of(
            issuer@,
            subject@,
            expiration,
            issued_at,
            secret@,
        ),
        r matches Some(t) ==> token_claims_of(t@, secret@) == Some(
            (issuer@, subject@, expiration, issued_at),
        ),
{
    let key: hmac::Hmac<sha2::Sha256> = match hmac::Mac::new_from_slice(secret) {
        Ok(k) => k,
        Err(_) => return None,
    };
    let mut claims: std::collections::BTreeMap<String, serde_json::Value> =
        std::collections::BTreeMap::new();
    claims.insert("iss".to_string(), serde_json::Value::String(issuer.to_string()));
    claims.insert("sub".to_string(), serde_json::Value::String(subject.to_string()));
    claims.insert("exp".to_string(), serde_json::Value::from(expiration));
    claims.insert("iat".to_string(), serde_json::Value::from(issued_at));
    jwt::SignWithKey::sign_with_key(claims, &key).ok()
}

/// Relies on jwt's `VerifyWithKey` for HMAC-SHA256: parsing and signature
/// checking depend on the token text and the key alone, and yield the
/// claims only when the recomputed HMAC matches. Missing or ill-typed
/// claims surface as `None`, as a wrong signature does.
#[verifier::external_body]
fn hmac_verify_token(token: &str, secret: &[u8]) -> (r: Option<(String, String, u64, u64)>)
    ensures
        r is Some <==> token_claims_of(token@, secret@) is Some,
        r matches Some(c) ==> token_claims_of(token@, secret@) == Some((c.0@, c.1@, c.2, c.3)),
{
    let key: hmac::Hmac<sha2::Sha256> = match hmac::Mac::new_from_slice(secret) {
        Ok(k) => k,
        Err(_) => return None,
    };
    let claims: std::collections::BTreeMap<String, serde_json::Value> =
        match jwt::VerifyWithKey::verify_with_key(token, &key) {
            Ok(c) => c,
            Err(_) => return None,
        };
    let iss = claims.get("iss")?.as_str()?.to_string();
    let sub = claims.get("sub")?.as_str()?.to_string();
    let exp = claims.get("exp")?.as_u64()?;
    let iat = claims.get("iat")?.as_u64()?;
    Some((iss, sub, exp, iat))
}

/// Mints a signed access token for `user_id` at instant `now_ms`: subject
/// `user_id`, the fixed issuer, issued at `now_ms`, expiring 24 hours
/// later. The signer cannot fail, so a token is returned for every
/// `user_id`.
pub fn create_access_token(user_id: &str, now_ms: u64, secret: &[u8]) -> (r: Result<
    String,
    InertiaError,
>)
    requires
        now_ms + ACCESS_TOKEN_EXPIRATION <= u64::MAX,
    ensures
        r is Ok,
        r matches Ok(t) ==> t@ == signed_token_of(
            spec_issuer(),
            user_id@,
            (now_ms + ACCESS_TOKEN_EXPIRATION) as u64,
            now_ms,
            secret@,
        ),
        r matches Ok(t) ==> token_claims_of(t@, secret@) == Some(
            (spec_issuer(), user_id@, (now_ms + ACCESS_TOKEN_EXPIRATION) as u64, now_ms),
        ),
{
    let claims = AccessToken {
        issuer: String::from_str("https://inertia.wtf/"),
        subject: user_id.to_owned(),
        expiration: now_ms + ACCESS_TOKEN_EXPIRATION,
        issued_at: now_ms,
    };
    match hmac_sign_claims(
        claims.issuer.as_str(),
        claims.subject.as_str(),
        claims.expiration,
        claims.issued_at,
        secret,
    ) {
        Some(token) => Ok(token),
        None => {
            proof {
                assert(false);
            }
            Err(InertiaError::UpstreamError)
        },
    }
}

/// Checks `token` under `secret` at instant `now_ms`. The signature is
/// checked first: any mismatch or malformed input fails as `Unauthorized`
/// and never reaches the expiry comparison. Only on a valid signature is
/// the expiration compared to `now_ms`: not in the future means `Expired`,
/// otherwise `Valid(subject)`.
pub fn verify_access_token(token: &str, now_ms: u64, secret: &[u8]) -> (r: Result<
    TokenVerifyResult,
    InertiaError,
>)
    ensures
        match spec_token_outcome(token@, secret@, now_ms) {
            SpecTokenOutcome::SpecValid(subject) => r matches Ok(TokenVerifyResult::Valid(u))
                && u@ == subject,
            SpecTokenOutcome::SpecExpired => r matches Ok(TokenVerifyResult::Expired),
            SpecTokenOutcome::SpecInvalid => r matches Err(InertiaError::Unauthorized),
        },
{
    match hmac_verify_token(token, secret) {
        None => Err(InertiaError::Unauthorized),
        Some(claims) => {
            if claims.2 > now_ms {
                Ok(TokenVerifyResult::Valid(claims.1))
            } else {
                Ok(TokenVerifyResult::Expired)
            }
        },
    }
}

/// Law: a token minted for a user verifies as `Valid` for exactly that
/// user at the instant it was minted — its expiration lies a full validity
/// window in the future.
pub proof fn lemma_minted_token_valid_at_mint(
    token: Seq<char>,
    secret: Seq<u8>,
    user_id: Seq<char>,
    now: u64,
)
    requires
        now + ACCESS_TOKEN_EXPIRATION <= u64::MAX,
    ensures
        token_claims_of(token, secret) == Some(
            (spec_issuer(), user_id, (now + ACCESS_TOKEN_EXPIRATION) as u64, now),
        ) ==> spec_token_outcome(token, secret, now) == SpecTokenOutcome::SpecValid(user_id),
{
}

/// Law: a token carrying a well-signed claim set whose expiration is still
/// in the future classifies as `Valid` for exactly the subject it was
/// signed over — in particular, a token minted for a user classifies as
/// `Valid` for that user at any instant before its expiration.
pub proof fn lemma_live_token_classifies_valid(
    token: Seq<char>,
    secret: Seq<u8>,
    now: u64,
    issuer: Seq<char>,
    subject: Seq<char>,
    expiration: u64,
    issued_at: u64,
)
    ensures
        token_claims_of(token, secret) == Some((issuer, subject, expiration, issued_at))
            && expiration > now ==> spec_token_outcome(token, secret, now)
            == SpecTokenOutcome::SpecValid(subject),
{
}

/// Law: a token carrying a well-signed claim set whose expiration has
/// passed classifies as `Expired`, never as `Invalid`: the signature was
/// accepted, so only the clock disqualifies it.
pub proof fn lemma_stale_token_classifies_expired(
    token: Seq<char>,
    secret: Seq<u8>,
    now: u64,
    issuer: Seq<char>,
    subject: Seq<char>,
    expiration: u64,
    issued_at: u64,
)
    ensures
        token_claims_of(token, secret) == Some((issuer, subject, expiration, issued_at))
            && expiration <= now ==> spec_token_outcome(token, secret, now)
            == SpecTokenOutcome::SpecExpired,
{
}

/// Law: a token that does not verify under a secret — in particular one
/// signed under a different secret, whenever the two keys do not collide —
/// classifies as `Invalid`, never as `Expired`, whatever the clock says.
pub proof fn lemma_unverifiable_token_classifies_invalid(token: Seq<char>, secret: Seq<u8>, now: u64)
    ensures
        token_claims_of(token, secret) is None ==> spec_token_outcome(token, secret, now)
            == SpecTokenOutcome::SpecInvalid,
{
}

} // verus!

//! The bearer-token guard for protected calls: reads the authorization
//! header's value, verifies the access token, and hands back the proven
//! user. Every failure — wrong scheme, bad signature, expired token — is
//! `Unauthorized`, so a guarded route learns nothing more than "no".

use vstd::prelude::*;
use vstd::string::StrSliceExecFns;

use crate::error::InertiaError;
use crate::service::AuthService;
use crate::text::str_eq;
use crate::token::{spec_token_outcome, SpecTokenOutcome, TokenVerifyResult};

verus! {

/// Whether the header value carries the bearer scheme: the marker
/// "Bearer " followed by the token.
pub open spec fn spec_has_bearer_scheme(header: Seq<char>) -> bool {
    header.len() >= 7 && header.subrange(0, 7) == "Bearer "@
}

/// The token behind the bearer marker.
pub open spec fn spec_bearer_token(header: Seq<char>) -> Seq<char> {
    header.skip(7)
}

/// A proven caller: the user id carried by a valid access token.
pub struct Auth(pub String);

impl Auth {
    /// Authenticates an authorization header's value at `now_ms`: the
    /// scheme must be bearer and the token must verify as `Valid`; an
    /// expired or invalid token, or any other scheme, is `Unauthorized`.
    pub fn from_header<S: AuthService>(service: &S, header: &str, now_ms: u64) -> (r: Result<
        Auth,
        InertiaError,
    >)
        requires
            service.svc_wf(),
        ensures
            r is Ok <==> spec_has_bearer_scheme(header@) && spec_token_outcome(
                spec_bearer_token(header@),
                service.secret_view(),
                now_ms,
            ) is SpecValid,
            r matches Ok(auth) ==> auth.0@ == spec_token_outcome(
                spec_bearer_token(header@),
                service.secret_view(),
                now_ms,
            )->SpecValid_0,
            r matches Err(e) ==> e matches InertiaError::Unauthorized,
    {
        let header_len = header.unicode_len();
        if header_len < 7 {
            return Err(InertiaError::Unauthorized);
        }
        let scheme = header.substring_char(0, 7);
        if !str_eq(scheme, "Bearer ") {
            return Err(InertiaError::Unauthorized);
        }
        let token = header.substring_char(7, header_len);
        proof {
            assert(token@ =~= spec_bearer_token(header@));
        }
        match service.verify_access_token(token, now_ms) {
            Ok(TokenVerifyResult::Valid(user_id)) => Ok(Auth(user_id)),
            Ok(TokenVerifyResult::Expired) => Err(InertiaError::Unauthorized),
            Err(_) => Err(InertiaError::Unauthorized),
        }
    }
}

} // verus!

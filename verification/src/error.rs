//! The error taxonomy shared by every layer of the library.

use vstd::prelude::*;
use vstd::string::StringExecFns;

verus! {

/// Failure taxonomy for the token service.
///
/// `PayloadError` is malformed or missing client input; `Unauthorized` is a
/// failed, expired or invalid credential; `NotFound` is a missed code or
/// refresh-token lookup, remapped to `Unauthorized` at the boundary so that
/// clients cannot probe for code or token existence; `UpstreamError` is a
/// provider or store failure that the caller may retry.
#[derive(Debug)]
pub enum InertiaError {
    PayloadError(String),
    Unauthorized,
    NotFound,
    UpstreamError,
}

impl InertiaError {
    /// The HTTP status code this error maps to at the boundary.
    pub fn status_code(&self) -> (code: u16)
        ensures
            code == self.spec_status_code(),
    {
        match self {
            InertiaError::PayloadError(_) => 400,
            InertiaError::Unauthorized => 401,
            InertiaError::NotFound => 401,
            InertiaError::UpstreamError => 500,
        }
    }

    /// The machine-readable error code: the HTTP status code in the first
    /// three digits, a custom subset of that status in the last two.
    pub fn internal_code(&self) -> (code: u32)
        ensures
            code == self.spec_internal_code(),
    {
        match self {
            InertiaError::PayloadError(_) => 40000,
            InertiaError::Unauthorized => 40100,
            InertiaError::NotFound => 40100,
            InertiaError::UpstreamError => 50000,
        }
    }

    /// The user-visible message: what a response body says of this error.
    /// Cryptographic and signature failure details are never part of it.
    pub fn message(&self) -> (msg: String)
        ensures
            msg@ == self.spec_message(),
    {
        match self {
            InertiaError::PayloadError(detail) => {
                let mut msg = String::from_str(
                    "An error occurred while processing the request body: ",
                );
                msg.append(detail.as_str());
                msg
            },
            InertiaError::Unauthorized => String::from_str(
                "You're not authorized to perform this request",
            ),
            InertiaError::NotFound => String::from_str(
                "You're not authorized to perform this request",
            ),
            InertiaError::UpstreamError => String::from_str("Error while processing request"),
        }
    }

    pub open spec fn spec_message(&self) -> Seq<char> {
        match self {
            InertiaError::PayloadError(detail) => "An error occurred while processing the request body: "@
                + detail@,
            InertiaError::Unauthorized => "You're not authorized to perform this request"@,
            InertiaError::NotFound => "You're not authorized to perform this request"@,
            InertiaError::UpstreamError => "Error while processing request"@,
        }
    }

    pub open spec fn spec_status_code(&self) -> u16 {
        match self {
            InertiaError::PayloadError(_) => 400u16,
            InertiaError::Unauthorized => 401u16,
            InertiaError::NotFound => 401u16,
            InertiaError::UpstreamError => 500u16,
        }
    }

    pub open spec fn spec_internal_code(&self) -> u32 {
        match self {
            InertiaError::PayloadError(_) => 40000u32,
            InertiaError::Unauthorized => 40100u32,
            InertiaError::NotFound => 40100u32,
            InertiaError::UpstreamError => 50000u32,
        }
    }

    /// The machine-readable error code is always consistent with the HTTP
    /// status: its first three digits are the status code.
    pub proof fn internal_code_matches_status(&self)
        ensures
            self.spec_internal_code() / 100 == self.spec_status_code() as u32,
    {
    }
}

} // verus!

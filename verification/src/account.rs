//! Provider-linked accounts: one per (provider, provider-native id), tying
//! a directory user to exactly one identity per provider type.

use vstd::prelude::*;

use crate::text::str_eq;

verus! {

/// The identity providers an account can be linked to.
#[derive(Clone, Copy, Debug, PartialEq, Eq, Structural)]
pub enum AccountType {
    Discord,
    Google,
    Apple,
}

impl AccountType {
    /// The provider's wire name.
    pub fn as_str(&self) -> (r: &'static str)
        ensures
            r@ == self.spec_name(),
    {
        match self {
            AccountType::Discord => "discord",
            AccountType::Google => "google",
            AccountType::Apple => "apple",
        }
    }

    pub open spec fn spec_name(&self) -> Seq<char> {
        match self {
            AccountType::Discord => "discord"@,
            AccountType::Google => "google"@,
            AccountType::Apple => "apple"@,
        }
    }

    pub open spec fn spec_of_name(s: Seq<char>) -> AccountType {
        if s == "google"@ {
            AccountType::Google
        } else if s == "apple"@ {
            AccountType::Apple
        } else {
            AccountType::Discord
        }
    }
}

impl From<String> for AccountType {
    /// Reads a provider from its wire name; every unknown name falls back
    /// to Discord.
    fn from(s: String) -> (r: Self)
        ensures
            r == AccountType::spec_of_name(s@),
    {
        if str_eq(s.as_str(), "google") {
            AccountType::Google
        } else if str_eq(s.as_str(), "apple") {
            AccountType::Apple
        } else {
            AccountType::Discord
        }
    }
}

impl vstd::std_specs::convert::FromSpecImpl<String> for AccountType {
    open spec fn obeys_from_spec() -> bool {
        true
    }

    open spec fn from_spec(s: String) -> Self {
        AccountType::spec_of_name(s@)
    }
}

/// A linked account: a directory user joined to one provider-native
/// identity, with the provider's own token pair cached alongside.
pub struct Account {
    pub id: String,
    pub user_id: String,
    pub account_type: AccountType,
    /// The provider-native identifier.
    pub account_id: String,
    pub access_token: String,
    pub refresh_token: String,
    /// Instant at which the account was linked, in milliseconds.
    pub created_at: u64,
}

/// What it takes to link an account to an existing user.
pub struct CreateAccount {
    pub user_id: String,
    pub account_type: AccountType,
    pub account_id: String,
    pub access_token: String,
    pub refresh_token: String,
}

} // verus!

//! User directory records, as the account-linking step reads and creates
//! them. The storage behind them is an external collaborator; the library
//! holds the values and the rules.

use vstd::prelude::*;
use vstd::string::StringExecFns;

use crate::text::str_eq;

verus! {

/// A user's role in the directory.
#[derive(Clone, Copy, Debug, PartialEq, Eq, Structural)]
pub enum AuthRole {
    User,
    Admin,
}

impl AuthRole {
    /// The role's wire name.
    pub fn as_str(&self) -> (r: &'static str)
        ensures
            r@ == self.spec_name(),
    {
        match self {
            AuthRole::User => "user",
            AuthRole::Admin => "admin",
        }
    }

    pub open spec fn spec_name(&self) -> Seq<char> {
        match self {
            AuthRole::User => "user"@,
            AuthRole::Admin => "admin"@,
        }
    }

    pub open spec fn spec_of_name(s: Seq<char>) -> AuthRole {
        if s == "admin"@ {
            AuthRole::Admin
        } else {
            AuthRole::User
        }
    }
}

impl From<String> for AuthRole {
    /// Reads a role from its wire name; every unknown name is the plain
    /// user role.
    fn from(s: String) -> (r: Self)
        ensures
            r == AuthRole::spec_of_name(s@),
    {
        if str_eq(s.as_str(), "admin") {
            AuthRole::Admin
        } else {
            AuthRole::User
        }
    }
}

impl vstd::std_specs::convert::FromSpecImpl<String> for AuthRole {
    open spec fn obeys_from_spec() -> bool {
        true
    }

    open spec fn from_spec(s: String) -> Self {
        AuthRole::spec_of_name(s@)
    }
}

/// A directory user.
pub struct User {
    pub id: String,
    pub name: String,
    pub image: Option<String>,
    pub auth_role: AuthRole,
    /// Instant at which the user was created, in milliseconds.
    pub created_at: u64,
}

impl User {
    /// The placeholder user, stamped with the given creation instant: the
    /// zero id, the generic name, no avatar, the plain role. The clock is
    /// injected everywhere in this library, so the caller supplies the
    /// instant.
    pub fn placeholder(created_at_ms: u64) -> (u: Self)
        ensures
            u.id@ == "0000000000000000000"@,
            u.name@ == "User"@,
            u.image is None,
            u.auth_role == AuthRole::User,
            u.created_at == created_at_ms,
    {
        User {
            id: String::from_str("0000000000000000000"),
            name: String::from_str("User"),
            image: None,
            auth_role: AuthRole::User,
            created_at: created_at_ms,
        }
    }
}

impl Default for User {
    /// The placeholder user with its creation instant at the epoch; a
    /// caller that has the clock stamps the real instant through
    /// `placeholder`.
    fn default() -> (u: Self)
        ensures
            u.id@ == "0000000000000000000"@,
            u.name@ == "User"@,
            u.image is None,
            u.auth_role == AuthRole::User,
            u.created_at == 0,
    {
        User::placeholder(0)
    }
}

/// What it takes to create a user: a display name and an optional avatar.
pub struct CreateUser {
    pub name: String,
    pub image: Option<String>,
}

} // verus!

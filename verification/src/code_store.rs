//! The ephemeral code store: single-use authorization codes bound to a user,
//! kept for five minutes. A code is namespaced with the `c.` marker so that
//! it can never collide with a refresh-token secret, which carries `s.`.

use vstd::prelude::*;
use vstd::string::StringExecFns;

use crate::error::InertiaError;
use crate::random::{is_alphanumeric, random_alphanumeric};
use crate::store::{spec_live, ExpiringKv};
use crate::AUTH_CODE_EXPIRATION;

verus! {

/// An authorization code as the store reports it: the code itself, the user
/// it was minted for, and the instant at which it lapses.
pub struct AuthCode {
    pub code: String,
    pub user_id: String,
    /// Instant at which the code lapses, in milliseconds.
    pub expires_at: u64,
}

/// The mathematical content of an authorization code.
pub struct AuthCodeView {
    pub code: Seq<char>,
    pub user_id: Seq<char>,
    pub expires_at: u64,
}

impl View for AuthCode {
    type V = AuthCodeView;

    open spec fn view(&self) -> AuthCodeView {
        AuthCodeView { code: self.code@, user_id: self.user_id@, expires_at: self.expires_at }
    }
}

/// Whether `code` has the shape this store mints: the `c.` marker followed
/// by 64 alphanumeric characters.
pub open spec fn spec_is_code_key(code: Seq<char>) -> bool {
    code.len() == 66 && code[0] == 'c' && code[1] == '.' && is_alphanumeric(code.skip(2))
}

/// The ephemeral code→user store. Its view maps each code to the user it
/// was minted for and its expiry instant.
pub struct CodeStore {
    kv: ExpiringKv<String>,
}

impl View for CodeStore {
    type V = Map<Seq<char>, (Seq<char>, u64)>;

    closed spec fn view(&self) -> Map<Seq<char>, (Seq<char>, u64)> {
        self.kv@
    }
}

impl CodeStore {
    pub closed spec fn wf(&self) -> bool {
        self.kv.wf()
    }

    /// An empty store.
    pub fn new() -> (s: Self)
        ensures
            s.wf(),
            s@ == Map::<Seq<char>, (Seq<char>, u64)>::empty(),
    {
        CodeStore { kv: ExpiringKv::new() }
    }

    /// Binds `code` to `user_id` for `ttl_ms` milliseconds from `now_ms`,
    /// replacing any previous binding.
    pub fn insert(&mut self, code: String, user_id: String, ttl_ms: u64, now_ms: u64)
        requires
            old(self).wf(),
            now_ms + ttl_ms <= u64::MAX,
        ensures
            final(self).wf(),
            final(self)@ == old(self)@.insert(code@, (user_id@, (now_ms + ttl_ms) as u64)),
    {
        self.kv.set(code, user_id, now_ms + ttl_ms);
    }

    /// Mints a fresh code for `user_id` at `now_ms`: the `c.` marker, then
    /// 64 characters from the cryptographically secure random source, bound
    /// for 300 seconds.
    pub fn create(&mut self, user_id: &str, now_ms: u64) -> (code: String)
        requires
            old(self).wf(),
            now_ms + AUTH_CODE_EXPIRATION <= u64::MAX,
        ensures
            final(self).wf(),
            spec_is_code_key(code@),
            final(self)@ == old(self)@.insert(
                code@,
                (user_id@, (now_ms + AUTH_CODE_EXPIRATION) as u64),
            ),
    {
        let suffix = random_alphanumeric(64);
        let mut code = String::from_str("c.");
        code.append(suffix.as_str());
        proof {
            reveal_strlit("c.");
            assert(code@.skip(2) =~= suffix@);
        }
        let key = code.clone();
        self.insert(key, user_id.to_owned(), AUTH_CODE_EXPIRATION, now_ms);
        code
    }

    /// Looks `code` up at `now_ms`. A code that is absent — never minted,
    /// lapsed, or already consumed — fails with `NotFound`; a live one is
    /// reported with its user and expiry, and stays in the store.
    pub fn verify(&self, code: &str, now_ms: u64) -> (r: Result<AuthCode, InertiaError>)
        requires
            self.wf(),
        ensures
            r is Ok <==> spec_live(self@, code@, now_ms),
            r matches Ok(ac) ==> ac.code@ == code@ && ac.user_id@ == self@[code@].0
                && ac.expires_at == self@[code@].1,
            r matches Err(e) ==> e matches InertiaError::NotFound,
    {
        match self.kv.get(code, now_ms) {
            Some(found) => Ok(
                AuthCode { code: code.to_owned(), user_id: found.0.clone(), expires_at: found.1 },
            ),
            None => Err(InertiaError::NotFound),
        }
    }

    /// Unbinds `code`; deleting an absent code is not an error.
    pub fn delete(&mut self, code: &str)
        requires
            old(self).wf(),
        ensures
            final(self).wf(),
            final(self)@ == old(self)@.remove(code@),
    {
        self.kv.remove(code);
    }

    /// Redeems `code` at `now_ms`: lookup and deletion in one step, so that
    /// a code can be redeemed at most once however calls interleave. A code
    /// that is absent or lapsed fails with `NotFound`.
    pub fn redeem(&mut self, code: &str, now_ms: u64) -> (r: Result<AuthCode, InertiaError>)
        requires
            old(self).wf(),
        ensures
            final(self).wf(),
            final(self)@ == old(self)@.remove(code@),
            r is Ok <==> spec_live(old(self)@, code@, now_ms),
            r matches Ok(ac) ==> ac.code@ == code@ && ac.user_id@ == old(self)@[code@].0
                && ac.expires_at == old(self)@[code@].1,
            r matches Err(e) ==> e matches InertiaError::NotFound,
    {
        match self.kv.take(code, now_ms) {
            Some(taken) => Ok(
                AuthCode { code: code.to_owned(), user_id: taken.0, expires_at: taken.1 },
            ),
            None => Err(InertiaError::NotFound),
        }
    }
}

/// Law: a code just bound for a user verifies, before its expiry, to
/// exactly that user.
pub proof fn lemma_created_code_verifies(
    m: Map<Seq<char>, (Seq<char>, u64)>,
    code: Seq<char>,
    user: Seq<char>,
    expires_at: u64,
    now: u64,
)
    ensures
        expires_at > now ==> spec_live(m.insert(code, (user, expires_at)), code, now),
        m.insert(code, (user, expires_at))[code] == (user, expires_at),
{
}

/// Law: a code whose binding lapses at the very instant it was written — a
/// time-to-live of zero — is never live, then or later.
pub proof fn lemma_zero_ttl_code_not_live(
    m: Map<Seq<char>, (Seq<char>, u64)>,
    code: Seq<char>,
    user: Seq<char>,
    now: u64,
    later: u64,
)
    requires
        later >= now,
    ensures
        !spec_live(m.insert(code, (user, now)), code, later),
{
}

/// Law: after a code is deleted, no instant makes it verify again — the
/// binding is gone from the store's map.
pub proof fn lemma_deleted_code_never_live(
    m: Map<Seq<char>, (Seq<char>, u64)>,
    code: Seq<char>,
    now: u64,
)
    ensures
        !spec_live(m.remove(code), code, now),
{
}

/// Law: a code key and a refresh-token key can never collide — the first
/// carries the `c.` marker where the second carries `s.`.
pub proof fn lemma_code_and_refresh_keys_disjoint(code: Seq<char>, secret: Seq<char>)
    requires
        code.len() > 0,
        secret.len() > 0,
        code[0] == 'c',
        secret[0] == 's',
    ensures
        code != secret,
{
    assert(code[0] != secret[0]);
}

} // verus!

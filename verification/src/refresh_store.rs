//! The durable refresh-token store: opaque secrets bound to a compactly
//! encoded record for a year. A secret is namespaced with the `s.` marker so
//! that it can never collide with an authorization code, which carries `c.`.

use vstd::bytes::lemma_auto_spec_u64_to_from_le_bytes;
use vstd::prelude::*;
use vstd::string::StringExecFns;
use vstd::utf8::encode_utf8;

use crate::error::InertiaError;
use crate::random::{is_alphanumeric, random_alphanumeric, snowflake_id};
use crate::record::{
    decode_refresh_token, encode_refresh_token, lemma_refresh_codec_round_trip,
    spec_decode_refresh, spec_encode_refresh, RefreshToken,
};
use crate::store::{spec_live, ExpiringKv};
use crate::text::u64_to_decimal;
use crate::REFRESH_TOKEN_EXPIRATION;

verus! {

/// The node identity under which refresh-token record ids are generated.
pub const REFRESH_TOKEN_NODE: i32 = 2;

/// Whether `secret` has the shape this store mints: the `s.` marker
/// followed by 64 alphanumeric characters.
pub open spec fn spec_is_refresh_key(secret: Seq<char>) -> bool {
    secret.len() == 66 && secret[0] == 's' && secret[1] == '.' && is_alphanumeric(secret.skip(2))
}

/// The durable secret→record store. Its view maps each secret to the wire
/// encoding of its record and its expiry instant; well-formedness says that
/// every stored value decodes to a record carrying its own key as `token`.
pub struct RefreshStore {
    kv: ExpiringKv<Vec<u8>>,
}

impl View for RefreshStore {
    type V = Map<Seq<char>, (Seq<u8>, u64)>;

    closed spec fn view(&self) -> Map<Seq<char>, (Seq<u8>, u64)> {
        self.kv@
    }
}

impl RefreshStore {
    pub closed spec fn wf(&self) -> bool {
        &&& self.kv.wf()
        &&& forall|k: Seq<char>|
            self.kv@.contains_key(k) ==> {
                &&& (#[trigger] spec_decode_refresh(self.kv@[k].0)) matches Some(rec)
                &&& spec_decode_refresh(self.kv@[k].0)->Some_0.token == k
            }
    }

    /// An empty store.
    pub fn new() -> (s: Self)
        ensures
            s.wf(),
            s@ == Map::<Seq<char>, (Seq<u8>, u64)>::empty(),
    {
        RefreshStore { kv: ExpiringKv::new() }
    }

    /// Stores `record` under its own secret for `ttl_ms` milliseconds from
    /// `now_ms`, replacing any previous binding of that secret.
    pub fn insert(&mut self, record: RefreshToken, ttl_ms: u64, now_ms: u64)
        requires
            old(self).wf(),
            now_ms + ttl_ms <= u64::MAX,
        ensures
            final(self).wf(),
            final(self)@ == old(self)@.insert(
                record.token@,
                (spec_encode_refresh(record@), (now_ms + ttl_ms) as u64),
            ),
            spec_decode_refresh(spec_encode_refresh(record@)) == Some(record@),
    {
        let payload = encode_refresh_token(&record);
        let payload_len = payload.len();
        proof {
            lemma_auto_spec_u64_to_from_le_bytes();
            assert(payload_len == 32 + encode_utf8(record@.id).len() + encode_utf8(
                record@.user_id,
            ).len() + encode_utf8(record@.token).len());
            assert(payload_len <= u64::MAX);
            lemma_refresh_codec_round_trip(record@);
        }
        let key = record.token;
        self.kv.set(key, payload, now_ms + ttl_ms);
        proof {
            let m = self.kv@;
            assert forall|k: Seq<char>| m.contains_key(k) implies {
                &&& (#[trigger] spec_decode_refresh(m[k].0)) matches Some(rec)
                &&& spec_decode_refresh(m[k].0)->Some_0.token == k
            } by {
                if k != record.token@ {
                    assert(old(self).kv@.contains_key(k));
                }
            }
        }
    }

    /// Mints a record for `user_id` at `now_ms`: a generated id, a fresh
    /// secret under the `s.` marker from the cryptographically secure
    /// random source, stored for one year.
    pub fn create(&mut self, user_id: &str, now_ms: u64) -> (record: RefreshToken)
        requires
            old(self).wf(),
            now_ms + REFRESH_TOKEN_EXPIRATION <= u64::MAX,
        ensures
            final(self).wf(),
            record.user_id@ == user_id@,
            record.created_at == now_ms,
            spec_is_refresh_key(record.token@),
            final(self)@ == old(self)@.insert(
                record.token@,
                (spec_encode_refresh(record@), (now_ms + REFRESH_TOKEN_EXPIRATION) as u64),
            ),
            spec_decode_refresh(spec_encode_refresh(record@)) == Some(record@),
    {
        let id = u64_to_decimal(snowflake_id(REFRESH_TOKEN_NODE));
        let suffix = random_alphanumeric(64);
        let mut secret = String::from_str("s.");
        secret.append(suffix.as_str());
        proof {
            reveal_strlit("s.");
            assert(secret@.skip(2) =~= suffix@);
        }
        let record = RefreshToken {
            id,
            user_id: user_id.to_owned(),
            token: secret,
            created_at: now_ms,
        };
        let copy = record.duplicate();
        self.insert(copy, REFRESH_TOKEN_EXPIRATION, now_ms);
        record
    }

    /// Looks a secret up at `now_ms`. A secret that is absent or whose
    /// record has lapsed fails with `NotFound` — the only expiry mechanism a
    /// refresh token has; a live one decodes to the stored record.
    pub fn get(&self, token: &str, now_ms: u64) -> (r: Result<RefreshToken, InertiaError>)
        requires
            self.wf(),
        ensures
            r is Ok <==> spec_live(self@, token@, now_ms),
            r matches Ok(rec) ==> Some(rec@) == spec_decode_refresh(self@[token@].0)
                && rec.token@ == token@,
            r matches Err(e) ==> e matches InertiaError::NotFound,
    {
        match self.kv.get(token, now_ms) {
            Some(found) => {
                match decode_refresh_token(found.0.as_slice()) {
                    Some(record) => Ok(record),
                    None => {
                        proof {
                            assert(false);
                        }
                        Err(InertiaError::NotFound)
                    },
                }
            },
            None => Err(InertiaError::NotFound),
        }
    }

    /// Unbinds a secret; deleting an absent secret is not an error.
    pub fn delete(&mut self, token: &str)
        requires
            old(self).wf(),
        ensures
            final(self).wf(),
            final(self)@ == old(self)@.remove(token@),
    {
        self.kv.remove(token);
        proof {
            assert forall|k: Seq<char>| self.kv@.contains_key(k) implies {
                &&& (#[trigger] spec_decode_refresh(self.kv@[k].0)) matches Some(rec)
                &&& spec_decode_refresh(self.kv@[k].0)->Some_0.token == k
            } by {
                assert(old(self).kv@.contains_key(k));
            }
        }
    }
}

} // verus!

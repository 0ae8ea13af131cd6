//! The refresh-token record and its compact wire encoding: length-framed
//! UTF-8 fields followed by the creation instant, the form in which the
//! durable store keeps a record. Encoding and decoding are verified inverse
//! to one another.

use vstd::bytes::{
    lemma_auto_spec_u64_to_from_le_bytes, spec_u64_from_le_bytes, spec_u64_to_le_bytes,
    u64_from_le_bytes, u64_to_le_bytes,
};
use vstd::prelude::*;
use vstd::slice::slice_subrange;
use vstd::string::StrSliceExecFns;
use vstd::utf8::{decode_utf8, encode_utf8, encode_utf8_decode_utf8, encode_utf8_valid_utf8, valid_utf8};

verus! {

/// A durable opaque credential: reusable until deleted or expired, never
/// rotated by use. `token` is the secret under which the record is stored.
pub struct RefreshToken {
    pub id: String,
    pub user_id: String,
    pub token: String,
    /// Instant at which the record was issued, in milliseconds.
    pub created_at: u64,
}

/// The mathematical content of a refresh-token record.
pub struct RefreshTokenView {
    pub id: Seq<char>,
    pub user_id: Seq<char>,
    pub token: Seq<char>,
    pub created_at: u64,
}

impl View for RefreshToken {
    type V = RefreshTokenView;

    open spec fn view(&self) -> RefreshTokenView {
        RefreshTokenView {
            id: self.id@,
            user_id: self.user_id@,
            token: self.token@,
            created_at: self.created_at,
        }
    }
}

impl RefreshToken {
    /// A field-for-field copy of the record.
    pub fn duplicate(&self) -> (r: Self)
        ensures
            r@ == self@,
    {
        RefreshToken {
            id: self.id.clone(),
            user_id: self.user_id.clone(),
            token: self.token.clone(),
            created_at: self.created_at,
        }
    }
}

/// A length-framed chunk: eight little-endian bytes of length, then the
/// bytes themselves.
pub open spec fn spec_frame(b: Seq<u8>) -> Seq<u8> {
    spec_u64_to_le_bytes(b.len() as u64) + b
}

/// The wire encoding of a record: its three fields as length-framed UTF-8,
/// then eight little-endian bytes of creation instant.
pub open spec fn spec_encode_refresh(r: RefreshTokenView) -> Seq<u8> {
    spec_frame(encode_utf8(r.id)) + spec_frame(encode_utf8(r.user_id)) + spec_frame(
        encode_utf8(r.token),
    ) + spec_u64_to_le_bytes(r.created_at)
}

/// Reads one length-framed chunk of `b` at `pos`: the chunk and the
/// position after it, or nothing when the frame runs past the end.
pub open spec fn spec_read_chunk(b: Seq<u8>, pos: int) -> Option<(Seq<u8>, int)> {
    if 0 <= pos && pos + 8 <= b.len() {
        let n = spec_u64_from_le_bytes(b.subrange(pos, pos + 8)) as int;
        if pos + 8 + n <= b.len() {
            Some((b.subrange(pos + 8, pos + 8 + n), pos + 8 + n))
        } else {
            None
        }
    } else {
        None
    }
}

/// The record that `b` encodes: three length-framed valid-UTF-8 chunks and
/// exactly eight trailing bytes, or nothing when `b` has any other shape.
pub open spec fn spec_decode_refresh(b: Seq<u8>) -> Option<RefreshTokenView> {
    match spec_read_chunk(b, 0) {
        None => None,
        Some((c1, p1)) => match spec_read_chunk(b, p1) {
            None => None,
            Some((c2, p2)) => match spec_read_chunk(b, p2) {
                None => None,
                Some((c3, p3)) => {
                    if p3 + 8 == b.len() && valid_utf8(c1) && valid_utf8(c2) && valid_utf8(c3) {
                        Some(
                            RefreshTokenView {
                                id: decode_utf8(c1),
                                user_id: decode_utf8(c2),
                                token: decode_utf8(c3),
                                created_at: spec_u64_from_le_bytes(b.subrange(p3, p3 + 8)),
                            },
                        )
                    } else {
                        None
                    }
                },
            },
        },
    }
}

/// Law: decoding inverts encoding — every record read back from its own
/// wire form is the record that was written.
pub proof fn lemma_refresh_codec_round_trip(r: RefreshTokenView)
    requires
        encode_utf8(r.id).len() <= u64::MAX,
        encode_utf8(r.user_id).len() <= u64::MAX,
        encode_utf8(r.token).len() <= u64::MAX,
    ensures
        spec_decode_refresh(spec_encode_refresh(r)) == Some(r),
{
    lemma_auto_spec_u64_to_from_le_bytes();
    broadcast use encode_utf8_valid_utf8;
    broadcast use encode_utf8_decode_utf8;

    let b = spec_encode_refresh(r);
    let e1 = encode_utf8(r.id);
    let e2 = encode_utf8(r.user_id);
    let e3 = encode_utf8(r.token);
    let n1 = e1.len() as int;
    let n2 = e2.len() as int;
    let n3 = e3.len() as int;

    assert(b.subrange(0, 8) =~= spec_u64_to_le_bytes(e1.len() as u64));
    assert(b.subrange(8, 8 + n1) =~= e1);
    assert(spec_read_chunk(b, 0) == Some((e1, 8 + n1)));

    let p1 = 8 + n1;
    assert(b.subrange(p1, p1 + 8) =~= spec_u64_to_le_bytes(e2.len() as u64));
    assert(b.subrange(p1 + 8, p1 + 8 + n2) =~= e2);
    assert(spec_read_chunk(b, p1) == Some((e2, p1 + 8 + n2)));

    let p2 = p1 + 8 + n2;
    assert(b.subrange(p2, p2 + 8) =~= spec_u64_to_le_bytes(e3.len() as u64));
    assert(b.subrange(p2 + 8, p2 + 8 + n3) =~= e3);
    assert(spec_read_chunk(b, p2) == Some((e3, p2 + 8 + n3)));

    let p3 = p2 + 8 + n3;
    assert(b.subrange(p3, p3 + 8) =~= spec_u64_to_le_bytes(r.created_at));
    assert(p3 + 8 == b.len());
}

/// Relies on std's `String::from_utf8`: it succeeds exactly on valid UTF-8
/// and returns the string those bytes encode.
#[verifier::external_body]
fn bytes_to_string(v: &[u8]) -> (r: Option<String>)
    ensures
        r is Some <==> valid_utf8(v@),
        r matches Some(s) ==> encode_utf8(s@) == v@,
{
    String::from_utf8(v.to_vec()).ok()
}

fn push_frame(out: &mut Vec<u8>, s: &str)
    ensures
        final(out)@ == old(out)@ + spec_frame(encode_utf8(s@)),
{
    let mut bytes = s.as_bytes_vec();
    let mut len_bytes = u64_to_le_bytes(bytes.len() as u64);
    out.append(&mut len_bytes);
    out.append(&mut bytes);
}

/// Encodes a record into its compact wire form.
pub fn encode_refresh_token(r: &RefreshToken) -> (out: Vec<u8>)
    ensures
        out@ == spec_encode_refresh(r@),
{
    let mut out: Vec<u8> = Vec::new();
    push_frame(&mut out, r.id.as_str());
    push_frame(&mut out, r.user_id.as_str());
    push_frame(&mut out, r.token.as_str());
    let mut tail = u64_to_le_bytes(r.created_at);
    out.append(&mut tail);
    assert(out@ =~= spec_encode_refresh(r@));
    out
}

fn read_chunk<'a>(bytes: &'a [u8], pos: usize) -> (r: Option<(&'a [u8], usize)>)
    requires
        pos <= bytes@.len(),
    ensures
        match r {
            Some(p) => spec_read_chunk(bytes@, pos as int) == Some((p.0@, p.1 as int)),
            None => spec_read_chunk(bytes@, pos as int) is None,
        },
{
    if bytes.len() - pos < 8 {
        return None;
    }
    let len_slice = slice_subrange(bytes, pos, pos + 8);
    let n64 = u64_from_le_bytes(len_slice);
    if n64 > (bytes.len() - pos - 8) as u64 {
        return None;
    }
    let n = n64 as usize;
    Some((slice_subrange(bytes, pos + 8, pos + 8 + n), pos + 8 + n))
}

/// Decodes a compact wire form back into a record; every malformed input —
/// a frame past the end, trailing garbage, a chunk that is not UTF-8 — is
/// rejected.
pub fn decode_refresh_token(bytes: &[u8]) -> (r: Option<RefreshToken>)
    ensures
        match r {
            Some(t) => spec_decode_refresh(bytes@) == Some(t@),
            None => spec_decode_refresh(bytes@) is None,
        },
{
    broadcast use encode_utf8_decode_utf8;

    let c1 = match read_chunk(bytes, 0) {
        Some(p) => p,
        None => return None,
    };
    let c2 = match read_chunk(bytes, c1.1) {
        Some(p) => p,
        None => return None,
    };
    let c3 = match read_chunk(bytes, c2.1) {
        Some(p) => p,
        None => return None,
    };
    if bytes.len() - c3.1 != 8 {
        return None;
    }
    let id = match bytes_to_string(c1.0) {
        Some(s) => s,
        None => return None,
    };
    let user_id = match bytes_to_string(c2.0) {
        Some(s) => s,
        None => return None,
    };
    let token = match bytes_to_string(c3.0) {
        Some(s) => s,
        None => return None,
    };
    let created_at = u64_from_le_bytes(slice_subrange(bytes, c3.1, c3.1 + 8));
    Some(RefreshToken { id, user_id, token, created_at })
}

} // verus!

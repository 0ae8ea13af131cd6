//! Trusted access to the process's cryptographically secure random source.

use vstd::prelude::*;

verus! {

/// Whether `c` is an ASCII letter or digit.
pub open spec fn is_alphanumeric_char(c: char) -> bool {
    ('a' <= c && c <= 'z') || ('A' <= c && c <= 'Z') || ('0' <= c && c <= '9')
}

/// Whether every character of `s` is an ASCII letter or digit.
pub open spec fn is_alphanumeric(s: Seq<char>) -> bool {
    forall|i: int| 0 <= i < s.len() ==> is_alphanumeric_char(#[trigger] s[i])
}

/// Relies on rand's `Alphanumeric` distribution: `sample_string` draws
/// exactly `len` characters from `a`-`z`, `A`-`Z`, `0`-`9`, using the
/// thread-local cryptographically secure generator. Nothing can be said
/// about which characters are drawn.
#[verifier::external_body]
pub(crate) fn random_alphanumeric(len: usize) -> (r: String)
    ensures
        r@.len() == len,
        is_alphanumeric(r@),
{
    rand::distr::SampleString::sample_string(&rand::distr::Alphanumeric, &mut rand::rng(), len)
}

/// Relies on rand's `random`: a fresh value from the thread-local
/// cryptographically secure generator. Nothing is known of the result.
#[verifier::external_body]
pub(crate) fn random_u64() -> u64 {
    rand::random::<u64>()
}

/// Relies on rs-snowflake's `SnowflakeIdGenerator::generate`: a process-unique
/// identifier derived from the clock, the given node and a counter. Nothing
/// is known of the result; the conversion reinterprets the bits as unsigned.
#[verifier::external_body]
pub(crate) fn snowflake_id(node_id: i32) -> u64
    requires
        0 <= node_id < 32,
{
    let mut generator = snowflake::SnowflakeIdGenerator::new(1, node_id);
    let id = generator.generate();
    id as u64
}

} // verus!

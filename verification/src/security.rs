//! Random material for tokens and salts.

use vstd::prelude::*;
use rand::Rng;

verus! {

/// One of the 62 characters `a`-`z`, `A`-`Z`, `0`-`9`.
pub open spec fn is_alphanumeric_char(c: char) -> bool {
    ('a' <= c && c <= 'z') || ('A' <= c && c <= 'Z') || ('0' <= c && c <= '9')
}

/// An opaque bearer-token value: `size` characters drawn from a uniform
/// alphanumeric alphabet by a cryptographically secure random source.
///
/// Relies on rand's `Alphanumeric` distribution: each sample is one byte in
/// `a`-`z`, `A`-`Z`, `0`-`9`, so the collected string holds exactly `size`
/// alphanumeric characters.
#[verifier::external_body]
pub fn generate_token(size: usize) -> (r: String)
    ensures
        r@.len() == size as int,
        forall|i: int| 0 <= i < r@.len() ==> is_alphanumeric_char(#[trigger] r@[i]),
{
    rand::thread_rng()
        .sample_iter(&rand::distributions::Alphanumeric)
        .take(size)
        .map(char::from)
        .collect()
}

/// One uniformly random byte. Relies on `rand::random`; nothing is assumed
/// of the value.
#[verifier::external_body]
pub(crate) fn random_byte() -> u8 {
    rand::random::<u8>()
}

/// A fresh random salt of `size` bytes (empty for a negative `size`).
pub fn generate_salt(size: i32) -> (r: Vec<u8>)
    ensures
        r@.len() == if size >= 0 { size as int } else { 0 },
{
    let mut out: Vec<u8> = Vec::new();
    let mut i: i32 = 0;
    while i < size
        invariant
            0 <= i,
            size >= 0 ==> i <= size,
            size < 0 ==> i == 0,
            out@.len() == i as int,
        decreases size - i,
    {
        out.push(random_byte());
        i = i + 1;
    }
    out
}

} // verus!

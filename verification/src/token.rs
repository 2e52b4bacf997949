//! The shape and liveness rule of bearer tokens.
//!
//! A token is an opaque random string together with its issue and expiry
//! timestamps (milliseconds since the epoch). A token is live exactly while
//! its expiry has not passed; liveness is re-evaluated against the clock on
//! every lookup and never cached.

use vstd::prelude::*;

verus! {

/// The mathematical content of a bearer token, shared by both identity
/// domains: its character string and its two timestamps.
#[verifier::ext_equal]
pub struct TokenView {
    pub token: Seq<char>,
    pub timestamp: u64,
    pub expiration_timestamp: u64,
}

/// A token is live at time `now` iff it has not yet expired.
pub open spec fn token_is_live(t: TokenView, now: u64) -> bool {
    t.expiration_timestamp >= now
}

/// How long a freshly issued token lives, in seconds: one day.
pub const TOKEN_DURATION: u64 = 24 * 60 * 60;

/// Index `j` holds the first token of `ts` whose value is exactly `v`,
/// live or not.
pub open spec fn first_token_value_at(ts: Seq<TokenView>, v: Seq<char>, j: int) -> bool {
    &&& 0 <= j < ts.len()
    &&& ts[j].token == v
    &&& forall|l: int| 0 <= l < j ==> (#[trigger] ts[l]).token != v
}

} // verus!

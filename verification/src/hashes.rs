//! The 128-bit content digest and the token-chaining operation built on it.
//!
//! A version token is a running digest of a record's accepted-diff history:
//! each accepted diff advances the token to the digest of the pair
//! (previous token, diff digest).
use vstd::prelude::*;

verus! {

/// A 128-bit content digest used as an optimistic-concurrency version token.
#[derive(Copy, Clone, Debug, PartialOrd, Ord, PartialEq, Eq, Hash, Structural)]
pub struct Hash128(pub u128);

impl Hash128 {
    /// The token every record carries at creation.
    pub fn zero() -> (r: Hash128)
        ensures
            r.0 == 0,
    {
        Hash128(0)
    }
}

impl Default for Hash128 {
    fn default() -> (r: Self)
        ensures
            r.0 == 0,
    {
        Hash128(0)
    }
}

/// The 128-bit value packed from the two digest words, high word first.
pub open spec fn combine128(w: (u64, u64)) -> u128 {
    ((w.0 as u128) << 64) | (w.1 as u128)
}

/// What the stable hasher returns for an ordered pair of 128-bit values.
pub uninterp spec fn pair_digest(a: u128, b: u128) -> (u64, u64);

/// Relies on rustc_stable_hash's SipHasher128: hashing a value feeds its
/// bytes into a keyed 128-bit SipHash with fixed zero keys, so the two
/// result words depend on the pair of inputs alone, stably across runs.
#[verifier::external_body]
fn sip_digest_of_pair(a: u128, b: u128) -> (r: (u64, u64))
    ensures
        r == pair_digest(a, b),
{
    let mut hasher = rustc_stable_hash::hashers::SipHasher128::default();
    std::hash::Hash::hash(&(a, b), &mut hasher);
    let rustc_stable_hash::SipHasher128Hash(words) =
        rustc_stable_hash::ExtendedHasher::finish(hasher);
    (words[0], words[1])
}

/// The token that chaining `b` onto `a` yields.
pub open spec fn spec_chain(a: u128, b: u128) -> u128 {
    combine128(pair_digest(a, b))
}

/// Advances a version token: the new token is the digest of the ordered pair
/// (previous token, digest of the accepted diff).
pub fn chain_tokens(a: Hash128, b: Hash128) -> (r: Hash128)
    ensures
        r.0 == spec_chain(a.0, b.0),
{
    let words = sip_digest_of_pair(a.0, b.0);
    Hash128(((words.0 as u128) << 64) | (words.1 as u128))
}

} // verus!

use vstd::array::array_as_slice;
use vstd::bytes::{spec_u128_from_le_bytes, u128_from_le_bytes};
use vstd::prelude::*;
use vstd::slice::slice_subrange;

verus! {

/// One more than the largest damage a single attack can deal.
pub const DAMAGE_CAP: u128 = 40;

/// The SHA-256 digest of a byte string.
pub uninterp spec fn sha256_of(data: Seq<u8>) -> Seq<u8>;

/// Relies on anchor_lang::solana_program::hash::hash: the SHA-256 digest of
/// the bytes, a function of the bytes alone.
#[verifier::external_body]
fn digest(data: &[u8]) -> (r: [u8; 32])
    ensures
        r@ == sha256_of(data@),
{
    anchor_lang::solana_program::hash::hash(data).to_bytes()
}

/// The roll drawn from a digest: its two 16-byte halves read as little-endian
/// integers, added modulo 2^128, reduced modulo `cap`, plus one.
pub open spec fn roll_of_digest(d: Seq<u8>, cap: u128) -> u8
    recommends
        1 <= cap <= 255,
{
    let lower = spec_u128_from_le_bytes(d.subrange(0, 16));
    let upper = spec_u128_from_le_bytes(d.subrange(16, 32));
    (lower.wrapping_add(upper) % cap + 1) as u8
}

/// The damage that the signature `sig` deals under the bound `cap`.
pub open spec fn damage_of(sig: Seq<u8>, cap: u128) -> u8 {
    roll_of_digest(sha256_of(sig), cap)
}

/// Turns a 32-byte digest into a roll in `[1, cap]`.
pub fn roll_from_digest(digest: &[u8; 32], upper_cap: u128) -> (r: u8)
    requires
        1 <= upper_cap <= 255,
    ensures
        r == roll_of_digest(digest@, upper_cap),
        1 <= r <= upper_cap,
{
    let bytes = array_as_slice(digest);
    let lower = u128_from_le_bytes(slice_subrange(bytes, 0, 16));
    let upper = u128_from_le_bytes(slice_subrange(bytes, 16, 32));
    let rem = lower.wrapping_add(upper) % upper_cap;
    rem as u8 + 1
}

/// Derives a damage roll in `[1, upper_cap]` from signature bytes.
pub fn gen_number(sig: &[u8], upper_cap: u128) -> (r: u8)
    requires
        1 <= upper_cap <= 255,
    ensures
        r == damage_of(sig@, upper_cap),
        1 <= r <= upper_cap,
{
    let d = digest(sig);
    roll_from_digest(&d, upper_cap)
}

/// The damage roll depends on the signature bytes and the cap alone, and
/// always lies in `[1, cap]`.
pub proof fn lemma_damage_deterministic(s1: Seq<u8>, s2: Seq<u8>, cap: u128)
    requires
        1 <= cap <= 255,
        s1 == s2,
    ensures
        damage_of(s1, cap) == damage_of(s2, cap),
        1 <= damage_of(s1, cap) <= cap,
{
    let d = sha256_of(s1);
    let lower = spec_u128_from_le_bytes(d.subrange(0, 16));
    let upper = spec_u128_from_le_bytes(d.subrange(16, 32));
    let rem = lower.wrapping_add(upper) % cap;
    assert(0 <= rem < cap);
}

} // verus!

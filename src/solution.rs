use vstd::prelude::*;

verus! {

/// The 32-byte hash that drillx derives from a submitted digest and nonce.
pub uninterp spec fn drillx_hash(digest: Seq<u8>, nonce: Seq<u8>) -> Seq<u8>;

/// Leading zero bits of one byte.
pub open spec fn byte_leading_zeros(b: u8) -> nat {
    if b >= 128 {
        0
    } else if b >= 64 {
        1
    } else if b >= 32 {
        2
    } else if b >= 16 {
        3
    } else if b >= 8 {
        4
    } else if b >= 4 {
        5
    } else if b >= 2 {
        6
    } else if b >= 1 {
        7
    } else {
        8
    }
}

/// Leading zero bits of a byte string read most significant byte first.
pub open spec fn leading_zero_bits(h: Seq<u8>) -> nat
    decreases h.len(),
{
    if h.len() == 0 {
        0
    } else if h[0] == 0 {
        8 + leading_zero_bits(h.drop_first())
    } else {
        byte_leading_zeros(h[0])
    }
}

/// Relies on drillx::Solution::to_hash: the keccak hash of the digest, its
/// eight 16-bit words sorted as read in the machine's byte order, followed
/// by the nonce; a function of those bytes alone on a given machine.
#[verifier::external_body]
fn drillx_solution_hash(digest: [u8; 16], nonce: [u8; 8]) -> (r: [u8; 32])
    ensures
        r@ == drillx_hash(digest@, nonce@),
{
    drillx::Solution::new(digest, nonce).to_hash().h
}

/// Relies on drillx::difficulty: it adds up the leading zeros of the bytes
/// in order and stops after the first byte that is not zero.
#[verifier::external_body]
fn drillx_difficulty(hash: [u8; 32]) -> (r: u32)
    ensures
        r as nat == leading_zero_bits(hash@),
{
    drillx::difficulty(hash)
}

/// The difficulty of a hash: its count of leading zero bits.
pub fn hash_difficulty(hash: [u8; 32]) -> (r: u32)
    ensures
        r as nat == leading_zero_bits(hash@),
{
    drillx_difficulty(hash)
}

/// The difficulty of a submitted solution.
pub fn solution_difficulty(digest: [u8; 16], nonce: [u8; 8]) -> (r: u32)
    ensures
        r as nat == leading_zero_bits(drillx_hash(digest@, nonce@)),
{
    let hash = drillx_solution_hash(digest, nonce);
    drillx_difficulty(hash)
}

} // verus!

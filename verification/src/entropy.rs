//! Where genomes and selectors come from: a 128-bit BLAKE2 digest of what
//! the randomness beacon handed out, the caller and the position of the call
//! in its block, in their SCALE encoding.

use crate::types::{AccountId, RandomSeed};
use vstd::prelude::*;

verus! {

/// The 128-bit BLAKE2b digest of `data`, as `sp_io::hashing::blake2_128`
/// computes it. The digest is a function of the bytes alone; nothing else is
/// claimed of it here.
pub uninterp spec fn blake2_128_digest(data: Seq<u8>) -> Seq<u8>;

/// The eight bytes of `x`, least significant first.
pub open spec fn le_bytes_u64(x: u64) -> Seq<u8> {
    seq![
        (x & 0xff) as u8,
        ((x >> 8) & 0xff) as u8,
        ((x >> 16) & 0xff) as u8,
        ((x >> 24) & 0xff) as u8,
        ((x >> 32) & 0xff) as u8,
        ((x >> 40) & 0xff) as u8,
        ((x >> 48) & 0xff) as u8,
        ((x >> 56) & 0xff) as u8,
    ]
}

/// The four bytes of `x`, least significant first.
pub open spec fn le_bytes_u32(x: u32) -> Seq<u8> {
    seq![
        (x & 0xff) as u8,
        ((x >> 8) & 0xff) as u8,
        ((x >> 16) & 0xff) as u8,
        ((x >> 24) & 0xff) as u8,
    ]
}

/// The bytes that are hashed: the beacon's seed as it stands and its block
/// number in eight little-endian bytes, the sender in eight little-endian
/// bytes, then a zero byte where there is no extrinsic index, or a one byte
/// and the index in four little-endian bytes.
pub open spec fn payload(seed: RandomSeed, sender: AccountId, extrinsic_index: Option<u32>) -> Seq<
    u8,
> {
    seed.hash@ + le_bytes_u64(seed.block_number) + le_bytes_u64(sender) + match extrinsic_index {
        None => seq![0u8],
        Some(index) => seq![1u8] + le_bytes_u32(index),
    }
}

/// The sixteen pseudo-random bytes drawn for `sender` from `seed` at
/// `extrinsic_index`.
pub open spec fn random_value(seed: RandomSeed, sender: AccountId, extrinsic_index: Option<u32>)
    -> Seq<u8> {
    blake2_128_digest(payload(seed, sender, extrinsic_index))
}

/// Calls `parity_scale_codec::Encode::encode` on the tuple of the beacon's
/// pair of seed and block number, the sender and the extrinsic index.
/// Believed, not proved: SCALE writes a tuple as its fields in order, a byte
/// array as its bytes, an integer in little-endian bytes, and an option as a
/// tag byte followed by the value if there is one.
#[verifier::external_body]
pub(crate) fn encode_payload(seed: &RandomSeed, sender: AccountId, extrinsic_index: Option<u32>)
    -> (bytes: Vec<u8>)
    ensures
        bytes@ == payload(*seed, sender, extrinsic_index),
{
    parity_scale_codec::Encode::encode(
        &((seed.hash, seed.block_number), sender, extrinsic_index),
    )
}

/// Calls `sp_io::hashing::blake2_128`. Believed, not proved: the result is
/// the digest that bears this function's name, the same for the same bytes.
#[verifier::external_body]
pub(crate) fn blake2_128(data: &[u8]) -> (digest: [u8; 16])
    ensures
        digest@ == blake2_128_digest(data@),
{
    sp_io::hashing::blake2_128(data)
}

} // verus!

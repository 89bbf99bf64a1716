//! Bytes in and out: the encoding of seeds, their digest, and the account read from a digest.

use vstd::prelude::*;
use vstd::bytes::{spec_u32_to_le_bytes, spec_u64_from_le_bytes};
use crate::primitives::AccountId;

verus! {

/// The 256-bit Blake2b digest of `data`, as its 32 bytes.
pub uninterp spec fn blake2_256_digest(data: Seq<u8>) -> Seq<u8>;

/// The account that a digest stands for: its first eight bytes, read as a little-endian number.
pub open spec fn account_from_entropy_spec(entropy: Seq<u8>) -> AccountId {
    spec_u64_from_le_bytes(entropy.subrange(0, 8))
}

/// `sp_io::hashing::blake2_256`.
///
/// Trusted: the result depends on the bytes of `data` alone, so that it can be given the name
/// `blake2_256_digest`.
#[verifier::external_body]
pub(crate) fn blake2_256(data: &[u8]) -> (res: [u8; 32])
    ensures
        res@ == blake2_256_digest(data@),
{
    sp_io::hashing::blake2_256(data)
}

/// `parity_scale_codec::Encode::encode` on the pair of a 12-byte tag and a seed.
///
/// Trusted: a pair is encoded as its first field followed by its second, a byte array as its
/// bytes without a length, and a `u32` as its four bytes, least significant first.
#[verifier::external_body]
pub(crate) fn encode_tagged_seed(tag: &[u8; 12], seed: u32) -> (res: Vec<u8>)
    ensures
        res@ == tag@ + spec_u32_to_le_bytes(seed),
{
    parity_scale_codec::Encode::encode(&(tag, seed))
}

/// `parity_scale_codec::Decode::decode` of a `u64` from
/// `sp_runtime::traits::TrailingZeroInput` over 32 bytes.
///
/// Trusted: the eight bytes that a `u64` takes are the first eight of the input, least
/// significant first, and decoding a `u64` from an input that never ends does not fail.
#[verifier::external_body]
fn decode_u64(entropy: &[u8; 32]) -> (res: u64)
    ensures
        res == spec_u64_from_le_bytes(entropy@.subrange(0, 8)),
{
    let mut input = sp_runtime::traits::TrailingZeroInput::new(entropy.as_ref());
    <u64 as parity_scale_codec::Decode>::decode(&mut input)
        .expect("infinite length input; no invalid inputs for type; qed")
}

/// The account that a digest stands for.
pub fn account_from_entropy(entropy: &[u8; 32]) -> (res: AccountId)
    ensures
        res == account_from_entropy_spec(entropy@),
{
    decode_u64(entropy)
}

} // verus!

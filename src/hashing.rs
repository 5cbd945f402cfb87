//! Byte payloads that get hashed, and the hash itself.
//!
//! Payloads are laid out by the SCALE codec: fixed-width integers little-endian,
//! byte arrays as they stand, tuples field after field, and an `Option` as a
//! tag byte (0 for `None`, 1 for `Some`) followed by the value.
use parity_scale_codec::Encode;
use vstd::bytes::{spec_u128_to_le_bytes, spec_u32_to_le_bytes, spec_u64_to_le_bytes};
use vstd::prelude::*;

verus! {

/// The bytes that a breeding proof `(kitty_id_1, kitty_id_2, nonce, solution)` is hashed from.
pub open spec fn proof_payload(kitty_id_1: u32, kitty_id_2: u32, nonce: u32, solution: u128) -> Seq<
    u8,
> {
    spec_u32_to_le_bytes(kitty_id_1) + spec_u32_to_le_bytes(kitty_id_2) + spec_u32_to_le_bytes(nonce)
        + spec_u128_to_le_bytes(solution)
}

/// The SCALE bytes of an optional index.
pub open spec fn optional_index_bytes(index: Option<u32>) -> Seq<u8> {
    match index {
        None => seq![0u8],
        Some(i) => seq![1u8] + spec_u32_to_le_bytes(i),
    }
}

/// The bytes that a fresh genome or selector is hashed from: the random seed,
/// the account it is drawn for, and the index of the current extrinsic.
pub open spec fn entropy_payload(seed: Seq<u8>, account: u64, extrinsic_index: Option<u32>) -> Seq<
    u8,
> {
    seed + spec_u64_to_le_bytes(account) + optional_index_bytes(extrinsic_index)
}

/// The 128-bit Blake2b digest of a byte string.
pub uninterp spec fn blake2_128_of(data: Seq<u8>) -> Seq<u8>;

/// Relies on `sp_io::hashing::blake2_128`: the 16-byte Blake2b digest of `data`,
/// which depends on the bytes alone.
#[verifier::external_body]
pub(crate) fn blake2_128(data: &Vec<u8>) -> (r: [u8; 16])
    ensures
        r@ == blake2_128_of(data@),
{
    sp_io::hashing::blake2_128(data)
}

/// Relies on `Encode::encode` of parity-scale-codec for the tuple
/// `(u32, u32, u32, u128)`: each field little-endian, in order.
#[verifier::external_body]
pub(crate) fn encode_proof(kitty_id_1: u32, kitty_id_2: u32, nonce: u32, solution: u128) -> (r: Vec<
    u8,
>)
    ensures
        r@ == proof_payload(kitty_id_1, kitty_id_2, nonce, solution),
{
    (kitty_id_1, kitty_id_2, nonce, solution).encode()
}

/// Relies on `Encode::encode` of parity-scale-codec for the tuple
/// `([u8; 32], u64, Option<u32>)`: the array's bytes as they are, the account
/// little-endian, then the option's tag byte and value.
#[verifier::external_body]
pub(crate) fn encode_entropy(seed: &[u8; 32], account: u64, extrinsic_index: Option<u32>) -> (r: Vec<
    u8,
>)
    ensures
        r@ == entropy_payload(seed@, account, extrinsic_index),
{
    (seed, account, extrinsic_index).encode()
}

} // verus!

//! The proof-of-work check: a proof is valid when the digest of its encoding,
//! read as a little-endian 128-bit number, falls below `u128::MAX / difficulty`.
use crate::hashing::{blake2_128, blake2_128_of, encode_proof, proof_payload};
use vstd::bytes::{spec_u128_from_le_bytes, u128_from_le_bytes};
use vstd::prelude::*;

verus! {

/// The largest accepted digest value plus one, for a difficulty of at least 1.
pub open spec fn threshold(difficulty: u32) -> u128 {
    (u128::MAX / (difficulty as u128)) as u128
}

/// A digest meets a difficulty when its little-endian value is below the threshold.
pub open spec fn digest_meets(digest: Seq<u8>, difficulty: u32) -> bool {
    spec_u128_from_le_bytes(digest) < threshold(difficulty)
}

/// The digest of a breeding proof.
pub open spec fn proof_digest(kitty_id_1: u32, kitty_id_2: u32, nonce: u32, solution: u128) -> Seq<
    u8,
> {
    blake2_128_of(proof_payload(kitty_id_1, kitty_id_2, nonce, solution))
}

/// Whether a breeding proof meets a difficulty.
pub open spec fn solution_valid(
    kitty_id_1: u32,
    kitty_id_2: u32,
    nonce: u32,
    solution: u128,
    difficulty: u32,
) -> bool {
    digest_meets(proof_digest(kitty_id_1, kitty_id_2, nonce, solution), difficulty)
}

/// Whether a 16-byte digest meets `difficulty`.
pub fn meets_difficulty(digest: &[u8; 16], difficulty: u32) -> (r: bool)
    requires
        difficulty >= 1,
    ensures
        r == digest_meets(digest@, difficulty),
{
    let value = u128_from_le_bytes(digest.as_slice());
    value < u128::MAX / (difficulty as u128)
}

/// Whether the proof `(kitty_id_1, kitty_id_2, nonce, solution)` meets `difficulty`.
pub fn validate_solution(
    kitty_id_1: u32,
    kitty_id_2: u32,
    nonce: u32,
    solution: u128,
    difficulty: u32,
) -> (r: bool)
    requires
        difficulty >= 1,
    ensures
        r == solution_valid(kitty_id_1, kitty_id_2, nonce, solution, difficulty),
{
    let payload = encode_proof(kitty_id_1, kitty_id_2, nonce, solution);
    let digest = blake2_128(&payload);
    meets_difficulty(&digest, difficulty)
}

/// At difficulty 1 every digest is accepted but the single largest value,
/// `u128::MAX`.
pub proof fn difficulty_one_accepts_all_but_max(digest: Seq<u8>)
    ensures
        digest_meets(digest, 1) <==> spec_u128_from_le_bytes(digest) != u128::MAX,
{
    assert(u128::MAX as int / 1 == u128::MAX as int) by (nonlinear_arith);
}

/// Raising the difficulty never turns a rejected digest into an accepted one.
pub proof fn higher_difficulty_accepts_less(digest: Seq<u8>, low: u32, high: u32)
    requires
        1 <= low <= high,
    ensures
        digest_meets(digest, high) ==> digest_meets(digest, low),
{
    assert(u128::MAX as int / high as int <= u128::MAX as int / low as int) by (nonlinear_arith)
        requires
            1 <= low <= high,
    ;
}

} // verus!

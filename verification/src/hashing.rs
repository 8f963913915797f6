//! The hash commitment primitive: `commitment_of(seed, salt)` is the
//! SHA-256 digest of the exact byte concatenation `seed || salt`.
//!
//! The concatenation is not length-prefixed, so distinct `(seed, salt)`
//! pairs whose concatenations coincide commit to the same value; fixing
//! the widths of seed and salt is left to the callers, as changing the
//! format here would break compatibility with existing signers.

use vstd::prelude::*;

use crate::bytes::concat_bytes;

verus! {

/// The SHA-256 digest of a byte sequence. SHA-256 is a fixed public
/// function of its input alone, so the digest carries a name rather than
/// a transcription of the algorithm.
pub uninterp spec fn sha256_of(data: Seq<u8>) -> Seq<u8>;

/// Relies on `soroban_sdk`'s `Crypto::sha256` host function: the SHA-256
/// digest of the input, always 32 bytes, depending on the bytes alone.
/// The metering budget is lifted; what remains is the host's length cap —
/// a byte string holds at most `u32::MAX` bytes, and the host fails the
/// call beyond it — which the `requires` excludes.
#[verifier::external_body]
pub fn sha256(data: &Vec<u8>) -> (r: Vec<u8>)
    requires
        data@.len() <= 0xFFFF_FFFF,
    ensures
        r@ == sha256_of(data@),
        r@.len() == 32,
{
    let env = soroban_sdk::Env::default();
    env.budget().reset_unlimited();
    let bytes = soroban_sdk::Bytes::from_slice(&env, data.as_slice());
    env.crypto().sha256(&bytes).to_array().to_vec()
}

/// The commitment a party publishes for a secret `(seed, salt)` pair.
pub open spec fn commitment_of(seed: Seq<u8>, salt: Seq<u8>) -> Seq<u8> {
    sha256_of(seed + salt)
}

/// Computes `sha256(seed || salt)`, the 32-byte commitment value. The
/// commit side and the reveal side both use exactly this function. The
/// concatenation must fit the host's `u32` length cap.
pub fn compute_commitment(seed: &Vec<u8>, salt: &Vec<u8>) -> (r: Vec<u8>)
    requires
        seed@.len() + salt@.len() <= 0xFFFF_FFFF,
    ensures
        r@ == commitment_of(seed@, salt@),
        r@.len() == 32,
{
    let combined = concat_bytes(seed, salt);
    sha256(&combined)
}

} // verus!

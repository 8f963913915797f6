//! BLS signature verification by a bilinear pairing check.
//!
//! The public key is a G1 element (96 bytes, uncompressed), the signature
//! a G2 element (192 bytes, uncompressed), following the
//! minimal-signature-size convention. A signature over a 32-byte message
//! verifies when `e(pubkey, H(msg)) * e(-G, signature)` is the identity of
//! the target group, where `H` is hash-to-curve onto G2 under the domain
//! separation tag and `-G` is the negated generator of G1 (precomputed, so
//! no negation happens at run time). That equation holds exactly when
//! `e(pubkey, H(msg)) == e(G, signature)`, and a single two-term
//! multi-pairing check decides it with one final exponentiation.
//!
//! Which pairing backend decides the check is an injected capability, so a
//! harness can swap the real backend for a trivial one without any
//! behavioural fork inside the protocol itself.

use vstd::prelude::*;

use crate::errors::VRFError;
use crate::storage::{dst_in_effect, get_dst, wf, Store};
use crate::dst_bytes;

use soroban_sdk::crypto::bls12_381::{Bls12381G1Affine, Bls12381G2Affine};
use soroban_env_host::Env as _;

verus! {

/// The 96-byte uncompressed encoding of the negated generator of G1,
/// `-G`. Supplying it as the first group element of the second pairing
/// term turns the signature equation into a single product-is-identity
/// check.
pub const NEG_G1: [u8; 96] = [
    0x17, 0xf1, 0xd3, 0xa7, 0x31, 0x97, 0xd7, 0x94, 0x26, 0x95, 0x63, 0x8c, 0x4f, 0xa9, 0xac,
    0x0f, 0xc3, 0x68, 0x8c, 0x4f, 0x97, 0x74, 0xb9, 0x05, 0xa1, 0x4e, 0x3a, 0x3f, 0x17, 0x1b,
    0xac, 0x58, 0x6c, 0x55, 0xe8, 0x3f, 0xf9, 0x7a, 0x1a, 0xef, 0xfb, 0x3a, 0xf0, 0x0a, 0xdb,
    0x22, 0xc6, 0xbb, 0x11, 0x4d, 0x1d, 0x68, 0x55, 0xd5, 0x45, 0xa8, 0xaa, 0x7d, 0x76, 0xc8,
    0xcf, 0x2e, 0x21, 0xf2, 0x67, 0x81, 0x6a, 0xef, 0x1d, 0xb5, 0x07, 0xc9, 0x66, 0x55, 0xb9,
    0xd5, 0xca, 0xac, 0x42, 0x36, 0x4e, 0x6f, 0x38, 0xba, 0x0e, 0xcb, 0x75, 0x1b, 0xad, 0x54,
    0xdc, 0xd6, 0xb9, 0x39, 0xc2, 0xca,
];

/// The 192-byte encoding of the G2 point that `msg` hashes to under the
/// domain separation tag `dst`. Hash-to-curve is deterministic in its two
/// inputs, so the point carries a name.
pub uninterp spec fn hash_to_g2_of(msg: Seq<u8>, dst: Seq<u8>) -> Seq<u8>;

/// Whether `p1`, `p2` (96 bytes each) and `q1`, `q2` (192 bytes each) are
/// all valid uncompressed encodings of points of their prime-order
/// subgroups (G1 and G2 respectively) *and* the two-term pairing product
/// `e(p1, q1) * e(p2, q2)` equals the identity of the target group. False
/// whenever any of the four byte strings fails to decode as such a point:
/// strict validation happens before any pairing is evaluated. A pure
/// function of the four encodings.
pub uninterp spec fn pairing_product_is_identity(
    p1: Seq<u8>,
    q1: Seq<u8>,
    p2: Seq<u8>,
    q2: Seq<u8>,
) -> bool;

/// Relies on `soroban_sdk`'s `Bls12_381::hash_to_g2` host function
/// (hash-to-curve onto G2): deterministic in `(msg, dst)`, 192-byte
/// uncompressed output; the host fails the call unless the tag is 1 to
/// 255 bytes long and the message fits a host byte string (at most
/// `u32::MAX` bytes), which the `requires` excludes.
#[verifier::external_body]
fn hash_to_g2(msg: &Vec<u8>, dst: &Vec<u8>) -> (r: Vec<u8>)
    requires
        msg@.len() <= 0xFFFF_FFFF,
        1 <= dst@.len() <= 255,
    ensures
        r@ == hash_to_g2_of(msg@, dst@),
        r@.len() == 192,
{
    let env = soroban_sdk::Env::default();
    env.budget().reset_unlimited();
    let m = soroban_sdk::Bytes::from_slice(&env, msg.as_slice());
    let d = soroban_sdk::Bytes::from_slice(&env, dst.as_slice());
    env.crypto().bls12_381().hash_to_g2(&m, &d).to_array().to_vec()
}

/// Relies on the `bls12_381_multi_pairing_check` host function behind
/// `soroban_sdk`'s `Bls12_381::pairing_check`, over exactly two (G1, G2)
/// pairs: deterministic in the four encodings. The host strictly
/// validates each byte string (encoding flags, field-element range,
/// on-curve, subgroup) before evaluating any pairing and returns an error
/// for an invalid one; this calls the host's fallible entry point
/// directly, so that failure comes back as `false` — a rejection — rather
/// than escalating, and the call is total on all 96/192-byte inputs.
#[verifier::external_body]
fn pairing_check_pairs(p1: &Vec<u8>, q1: &Vec<u8>, p2: &Vec<u8>, q2: &Vec<u8>) -> (r: bool)
    requires
        p1@.len() == 96,
        q1@.len() == 192,
        p2@.len() == 96,
        q2@.len() == 192,
    ensures
        r == pairing_product_is_identity(p1@, q1@, p2@, q2@),
{
    let env = soroban_sdk::Env::default();
    env.budget().reset_unlimited();
    let a1 = Bls12381G1Affine::from_array(&env, p1.as_slice().try_into().unwrap());
    let a2 = Bls12381G1Affine::from_array(&env, p2.as_slice().try_into().unwrap());
    let b1 = Bls12381G2Affine::from_array(&env, q1.as_slice().try_into().unwrap());
    let b2 = Bls12381G2Affine::from_array(&env, q2.as_slice().try_into().unwrap());
    let vp1 = soroban_sdk::Vec::from_array(&env, [a1, a2]);
    let vp2 = soroban_sdk::Vec::from_array(&env, [b1, b2]);
    match env.host().bls12_381_multi_pairing_check(vp1.into(), vp2.into()) {
        Ok(b) => b.into(),
        Err(_) => false,
    }
}

/// What the BLS backend accepts: the signature equation over the named
/// pairing product and hashed message. False — an invalid signature, not
/// a trap — when the public key or the signature is not a valid encoding
/// of a point of its expected subgroup.
pub open spec fn bls_accepts(msg: Seq<u8>, pubkey: Seq<u8>, signature: Seq<u8>, dst: Seq<u8>) -> bool {
    pairing_product_is_identity(pubkey, hash_to_g2_of(msg, dst), NEG_G1@, signature)
}

/// A capability that decides whether a signature over a 32-byte message
/// was produced by the holder of a public key, under a domain separation
/// tag.
pub trait PairingEngine {
    /// Which (message, key, signature, tag) quadruples this engine
    /// accepts.
    spec fn accepts(&self, msg: Seq<u8>, pubkey: Seq<u8>, signature: Seq<u8>, dst: Seq<u8>) -> bool;

    /// Decides the check; `true` means the signature is accepted.
    fn verify(&self, msg: &Vec<u8>, pubkey: &Vec<u8>, signature: &Vec<u8>, dst: &Vec<u8>) -> (r:
        bool)
        requires
            msg@.len() == 32,
            pubkey@.len() == 96,
            signature@.len() == 192,
            1 <= dst@.len() <= 255,
        ensures
            r == self.accepts(msg@, pubkey@, signature@, dst@),
    ;
}

/// The real pairing backend.
pub struct Bls12381Engine;

impl PairingEngine for Bls12381Engine {
    open spec fn accepts(
        &self,
        msg: Seq<u8>,
        pubkey: Seq<u8>,
        signature: Seq<u8>,
        dst: Seq<u8>,
    ) -> bool {
        bls_accepts(msg, pubkey, signature, dst)
    }

    fn verify(&self, msg: &Vec<u8>, pubkey: &Vec<u8>, signature: &Vec<u8>, dst: &Vec<u8>) -> (r:
        bool) {
        let hashed = hash_to_g2(msg, dst);
        let neg_g1 = vstd::slice::slice_to_vec(NEG_G1.as_slice());
        pairing_check_pairs(pubkey, &hashed, &neg_g1, signature)
    }
}

/// An engine that accepts every signature, for harnesses that exercise
/// the commit–reveal flow without real curve points.
pub struct AcceptAllEngine;

impl PairingEngine for AcceptAllEngine {
    open spec fn accepts(
        &self,
        msg: Seq<u8>,
        pubkey: Seq<u8>,
        signature: Seq<u8>,
        dst: Seq<u8>,
    ) -> bool {
        true
    }

    fn verify(&self, msg: &Vec<u8>, pubkey: &Vec<u8>, signature: &Vec<u8>, dst: &Vec<u8>) -> (r:
        bool) {
        true
    }
}

/// Verifies a BLS signature over the given message hash under the stored
/// domain tag, falling back to the protocol constant when none is stored.
///
/// Returns `Ok(())` exactly when the engine accepts the signature; any
/// rejection surfaces as [`VRFError::InvalidSignature`]. Under the real
/// backend that covers, besides a failing pairing equation, a public key
/// or signature that does not decode as a valid point of its expected
/// subgroup: such inputs are rejected before any pairing is evaluated,
/// never accepted and never a failure of the call itself.
pub fn verify_bls_signature<E: PairingEngine>(
    engine: &E,
    store: &Store,
    msg: &Vec<u8>,
    pubkey: &Vec<u8>,
    signature: &Vec<u8>,
) -> (r: Result<(), VRFError>)
    requires
        wf(store@),
        msg@.len() == 32,
        pubkey@.len() == 96,
        signature@.len() == 192,
    ensures
        r is Ok <==> engine.accepts(msg@, pubkey@, signature@, dst_in_effect(store@)),
        r is Err ==> r == Err::<(), VRFError>(VRFError::InvalidSignature),
{
    let dst = match get_dst(store) {
        Some(d) => d,
        None => dst_bytes(),
    };
    if engine.verify(msg, pubkey, signature, &dst) {
        Ok(())
    } else {
        Err(VRFError::InvalidSignature)
    }
}

} // verus!

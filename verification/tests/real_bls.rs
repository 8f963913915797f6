//! Reveals run against the real BLS12-381 pairing backend, with keys and
//! signatures built from the curve generator by scalar multiplication.

use nebula_vrf::auth::AllowAllGuard;
use nebula_vrf::bls::Bls12381Engine;
use nebula_vrf::hashing::compute_commitment;
use nebula_vrf::{dst_bytes, NebulaVRF, VRFError};

use soroban_sdk::crypto::bls12_381::{Bls12381Fr, Bls12381G1Affine};
use soroban_sdk::{Bytes, Env, U256};

/// The 96-byte uncompressed encoding of the G1 generator.
const G1_GENERATOR: [u8; 96] = [
    0x17, 0xf1, 0xd3, 0xa7, 0x31, 0x97, 0xd7, 0x94, 0x26, 0x95, 0x63, 0x8c, 0x4f, 0xa9, 0xac,
    0x0f, 0xc3, 0x68, 0x8c, 0x4f, 0x97, 0x74, 0xb9, 0x05, 0xa1, 0x4e, 0x3a, 0x3f, 0x17, 0x1b,
    0xac, 0x58, 0x6c, 0x55, 0xe8, 0x3f, 0xf9, 0x7a, 0x1a, 0xef, 0xfb, 0x3a, 0xf0, 0x0a, 0xdb,
    0x22, 0xc6, 0xbb, 0x08, 0xb3, 0xf4, 0x81, 0xe3, 0xaa, 0xa0, 0xf1, 0xa0, 0x9e, 0x30, 0xed,
    0x74, 0x1d, 0x8a, 0xe4, 0xfc, 0xf5, 0xe0, 0x95, 0xd5, 0xd0, 0x0a, 0xf6, 0x00, 0xdb, 0x18,
    0xcb, 0x2c, 0x04, 0xb3, 0xed, 0xd0, 0x3c, 0xc7, 0x44, 0xa2, 0x88, 0x8a, 0xe4, 0x0c, 0xaa,
    0x23, 0x29, 0x46, 0xc5, 0xe7, 0xe1,
];

/// Public key `sk * G` (96 bytes) and signature `sk2 * H(msg)` (192
/// bytes): a valid BLS signature of `msg` for that key when `sk2 == sk`.
fn keypair_and_signature(msg: &[u8], sk: u32, sk2: u32) -> (Vec<u8>, Vec<u8>) {
    let env = Env::default();
    env.budget().reset_unlimited();
    let bls = env.crypto().bls12_381();
    let secret = Bls12381Fr::from_u256(U256::from_u32(&env, sk));
    let generator = Bls12381G1Affine::from_array(&env, &G1_GENERATOR);
    let pubkey = bls.g1_mul(&generator, &secret);

    let hashed = bls.hash_to_g2(
        &Bytes::from_slice(&env, msg),
        &Bytes::from_slice(&env, dst_bytes().as_slice()),
    );
    let signing = Bls12381Fr::from_u256(U256::from_u32(&env, sk2));
    let signature = bls.g2_mul(&hashed, &signing);

    (pubkey.to_array().to_vec(), signature.to_array().to_vec())
}

#[test]
fn test_reveal_accepts_matching_bls_signature() {
    let mut vrf = NebulaVRF::new();
    let user = b"signer-one".to_vec();
    let seed = vec![1u8, 2, 3, 4];
    let salt = vec![5u8, 6, 7, 8];
    let commitment = compute_commitment(&seed, &salt);

    let (pubkey, signature) = keypair_and_signature(commitment.as_slice(), 5, 5);

    vrf.commit(&AllowAllGuard, &user, &commitment, &pubkey).unwrap();
    let result = vrf.reveal_secret(&Bls12381Engine, &user, &seed, &salt, &signature);
    assert_eq!(result, Ok(commitment));
}

#[test]
fn test_reveal_rejects_signature_by_other_key() {
    let mut vrf = NebulaVRF::new();
    let user = b"signer-two".to_vec();
    let seed = vec![1u8, 2, 3, 4];
    let salt = vec![5u8, 6, 7, 8];
    let commitment = compute_commitment(&seed, &salt);

    // The hash matches, the points are valid, but the signature was made
    // with a different secret than the committed public key.
    let (pubkey, signature) = keypair_and_signature(commitment.as_slice(), 5, 6);

    vrf.commit(&AllowAllGuard, &user, &commitment, &pubkey).unwrap();
    let result = vrf.reveal_secret(&Bls12381Engine, &user, &seed, &salt, &signature);
    assert_eq!(result, Err(VRFError::InvalidSignature));
}

#[test]
fn test_reveal_falls_back_to_constant_tag_when_none_stored() {
    // A store populated through the storage primitives, without a stored
    // domain tag: verification falls back to the protocol constant, so a
    // signature made under that constant still verifies.
    let mut store = nebula_vrf::storage::Store::new();
    let user = b"signer-three".to_vec();
    let seed = vec![4u8, 3, 2, 1];
    let salt = vec![8u8, 7, 6, 5];
    let commitment = compute_commitment(&seed, &salt);
    let (pubkey, signature) = keypair_and_signature(commitment.as_slice(), 7, 7);

    nebula_vrf::storage::set_commitment(&mut store, &user, &commitment);
    nebula_vrf::storage::set_pubkey(&mut store, &user, &pubkey);
    assert_eq!(nebula_vrf::storage::get_dst(&store), None);

    let result =
        nebula_vrf::vrf::reveal_secret(&store, &Bls12381Engine, &user, &seed, &salt, &signature);
    assert_eq!(result, Ok(commitment));
}

#[test]
fn test_reveal_rejects_undecodable_points_as_invalid_signature() {
    // A stored 96-byte value that is no curve point, and a 192-byte
    // signature that is none either: the real backend rejects both as an
    // invalid signature instead of failing the call.
    let mut vrf = NebulaVRF::new();
    let user = b"signer-four".to_vec();
    let seed = vec![1u8, 2, 3, 4];
    let salt = vec![5u8, 6, 7, 8];
    let commitment = compute_commitment(&seed, &salt);

    vrf.commit(&AllowAllGuard, &user, &commitment, &vec![1u8; 96]).unwrap();
    let result = vrf.reveal_secret(&Bls12381Engine, &user, &seed, &salt, &vec![2u8; 192]);
    assert_eq!(result, Err(VRFError::InvalidSignature));

    // An off-curve signature beside a genuine key is rejected the same way.
    let (pubkey, _) = keypair_and_signature(commitment.as_slice(), 5, 5);
    vrf.commit(&AllowAllGuard, &user, &commitment, &pubkey).unwrap();
    let result = vrf.reveal_secret(&Bls12381Engine, &user, &seed, &salt, &vec![2u8; 192]);
    assert_eq!(result, Err(VRFError::InvalidSignature));
}

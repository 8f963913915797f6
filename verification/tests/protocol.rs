//! End-to-end tests of the commit-reveal protocol, run with the pairing
//! check mocked out by the accept-all engine.

use nebula_vrf::auth::{AllowAllGuard, DenyAllGuard};
use nebula_vrf::bls::AcceptAllEngine;
use nebula_vrf::hashing::compute_commitment;
use nebula_vrf::{NebulaVRF, VRFError};

fn user_id() -> Vec<u8> {
    b"GAAAAAAAAAAAAAAAAAAAAAAAAAAAAAAAAAAAAAAAAAAAAAAAAAAAAWHF".to_vec()
}

fn dummy_seed_and_salt() -> (Vec<u8>, Vec<u8>, Vec<u8>) {
    let seed = vec![1u8, 2, 3, 4];
    let salt = vec![5u8, 6, 7, 8];
    let commitment = compute_commitment(&seed, &salt);
    (seed, salt, commitment)
}

#[test]
fn test_commit_and_get_commitment() {
    let mut vrf = NebulaVRF::new();
    let user = user_id();
    let commitment = vec![3u8; 32];
    let pubkey = vec![4u8; 96];

    vrf.commit(&AllowAllGuard, &user, &commitment, &pubkey).unwrap();
    let stored = vrf.get_commitment(&user).unwrap();
    assert_eq!(stored, commitment);
}

#[test]
fn test_get_commitment_and_pubkey() {
    let mut vrf = NebulaVRF::new();
    let user = user_id();
    let commitment = vec![3u8; 32];
    let pubkey = vec![4u8; 96];

    vrf.commit(&AllowAllGuard, &user, &commitment, &pubkey).unwrap();
    let stored_commitment = vrf.get_commitment(&user).unwrap();
    let stored_pubkey = vrf.get_pubkey(&user).unwrap();
    assert_eq!(stored_commitment, commitment);
    assert_eq!(stored_pubkey, pubkey);
}

#[test]
fn test_derive_random_output() {
    let context = b"draw".to_vec();
    let base_random = vec![0x11u8; 32];
    let result = NebulaVRF::derive_random(&base_random, &context);
    // Just checking that it returns something in u64 range
    assert!(result >= u64::MIN);
}

#[test]
fn test_reveal_success_with_dummy_bls() {
    let mut vrf = NebulaVRF::new();
    let user = user_id();

    // Prepare seed, salt, and corresponding commitment.
    let (seed, salt, commitment) = dummy_seed_and_salt();

    // Dummy BLS pubkey and signature (values are not on-curve; the
    // accept-all engine skips the actual pairing check).
    let pubkey = vec![1u8; 96];
    let signature = vec![2u8; 192];

    // Commit phase.
    vrf.commit(&AllowAllGuard, &user, &commitment, &pubkey).unwrap();

    // Reveal phase should succeed and return the recomputed commitment.
    let result = vrf.reveal_secret(&AcceptAllEngine, &user, &seed, &salt, &signature);
    assert_eq!(result, Ok(commitment));
}

#[test]
fn test_reveal_fails_on_commitment_mismatch() {
    let mut vrf = NebulaVRF::new();
    let user = user_id();

    let (seed, _salt, commitment) = dummy_seed_and_salt();
    let wrong_salt = vec![9u8, 9, 9, 9];
    let pubkey = vec![1u8; 96];
    let signature = vec![2u8; 192];

    vrf.commit(&AllowAllGuard, &user, &commitment, &pubkey).unwrap();

    let result = vrf.reveal_secret(&AcceptAllEngine, &user, &seed, &wrong_salt, &signature);
    assert_eq!(result, Err(VRFError::CommitmentMismatch));
}

#[test]
fn test_reveal_fails_when_no_commitment() {
    let vrf = NebulaVRF::new();
    let user = user_id();

    let (seed, salt, _commitment) = dummy_seed_and_salt();
    let signature = vec![2u8; 192];

    // No prior commit call; the reveal must report the missing commitment.
    let result = vrf.reveal_secret(&AcceptAllEngine, &user, &seed, &salt, &signature);
    assert_eq!(result, Err(VRFError::NoCommitmentFound));
}

#[test]
fn test_commitment_is_sha256_of_seed_then_salt() {
    // SHA-256 of the bytes 1..=8: the commitment of seed [1,2,3,4] with
    // salt [5,6,7,8], fixed by the hash function itself.
    let expected: Vec<u8> = vec![
        0x66, 0x84, 0x0d, 0xda, 0x15, 0x4e, 0x8a, 0x11, 0x3c, 0x31, 0xdd, 0x0a, 0xd3, 0x2f, 0x7f,
        0x3a, 0x36, 0x6a, 0x80, 0xe8, 0x13, 0x69, 0x79, 0xd8, 0xf5, 0xa1, 0x01, 0xd3, 0xd2, 0x9d,
        0x6f, 0x72,
    ];
    let (_seed, _salt, commitment) = dummy_seed_and_salt();
    assert_eq!(commitment, expected);
    // Order matters: salt-then-seed commits to something else.
    let swapped = compute_commitment(&vec![5u8, 6, 7, 8], &vec![1u8, 2, 3, 4]);
    assert_ne!(swapped, expected);
}

#[test]
fn test_derive_random_exact_value() {
    // First 8 bytes of sha256([0x11; 32] || "draw"), little-endian.
    let result = NebulaVRF::derive_random(&vec![0x11u8; 32], &b"draw".to_vec());
    assert_eq!(result, 7485307911114536045u64);
}

#[test]
fn test_derive_random_deterministic_and_context_sensitive() {
    let randomness = vec![0xabu8; 32];
    let again = NebulaVRF::derive_random(&randomness, &b"ctx-a".to_vec());
    assert_eq!(NebulaVRF::derive_random(&randomness, &b"ctx-a".to_vec()), again);
    // Changing a single byte of the context changes the output.
    assert_ne!(NebulaVRF::derive_random(&randomness, &b"ctx-b".to_vec()), again);
    // The randomness is not consumed: deriving again still works.
    assert_eq!(NebulaVRF::derive_random(&randomness, &b"ctx-a".to_vec()), again);
}

#[test]
fn test_commit_overwrites_previous_commitment() {
    let mut vrf = NebulaVRF::new();
    let user = user_id();

    vrf.commit(&AllowAllGuard, &user, &vec![3u8; 32], &vec![4u8; 96]).unwrap();
    vrf.commit(&AllowAllGuard, &user, &vec![7u8; 32], &vec![8u8; 96]).unwrap();

    assert_eq!(vrf.get_commitment(&user).unwrap(), vec![7u8; 32]);
    assert_eq!(vrf.get_pubkey(&user).unwrap(), vec![8u8; 96]);
}

#[test]
fn test_commit_rejected_by_guard_writes_nothing() {
    let mut vrf = NebulaVRF::new();
    let user = user_id();

    let result = vrf.commit(&DenyAllGuard, &user, &vec![3u8; 32], &vec![4u8; 96]);
    assert!(result.is_err());
    assert_eq!(vrf.get_commitment(&user), None);
    assert_eq!(vrf.get_pubkey(&user), None);
}

#[test]
fn test_reveal_scenario_returns_commitment_and_keeps_state() {
    let mut vrf = NebulaVRF::new();
    let user = user_id();
    let (seed, salt, commitment) = dummy_seed_and_salt();
    let pubkey = vec![1u8; 96];
    let signature = vec![2u8; 192];

    vrf.commit(&AllowAllGuard, &user, &commitment, &pubkey).unwrap();
    let revealed = vrf.reveal_secret(&AcceptAllEngine, &user, &seed, &salt, &signature).unwrap();
    assert_eq!(revealed, commitment);
    // Reveal never writes: the commitment and key are still retrievable.
    assert_eq!(vrf.get_commitment(&user), Some(commitment));
    assert_eq!(vrf.get_pubkey(&user), Some(pubkey));
}

#[test]
fn test_reveal_handles_multi_megabyte_secrets() {
    // A seed of several megabytes sits far below the host's length cap
    // on hash inputs and commits and reveals like any other.
    let mut vrf = NebulaVRF::new();
    let user = user_id();
    let seed = vec![0x5au8; 3 * 1024 * 1024];
    let salt = vec![5u8, 6, 7, 8];
    let commitment = compute_commitment(&seed, &salt);

    vrf.commit(&AllowAllGuard, &user, &commitment, &vec![1u8; 96]).unwrap();
    let result = vrf.reveal_secret(&AcceptAllEngine, &user, &seed, &salt, &vec![2u8; 192]);
    assert_eq!(result, Ok(commitment));
}

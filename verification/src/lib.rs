//! A commit-reveal verifiable random function (VRF) protocol.
//!
//! A party first commits to a secret `(seed, salt)` pair by storing the
//! 32-byte hash `sha256(seed || salt)` together with a BLS public key.
//! Later it reveals the pair together with a BLS signature over the hash;
//! the protocol recomputes the hash, checks it against the stored
//! commitment, verifies the signature by a bilinear pairing check, and
//! returns the now-public hash as trustworthy randomness. Any consumer may
//! then stretch that randomness deterministically into a 64-bit value.

use vstd::prelude::*;

pub mod auth;
pub mod bls;
pub mod bytes;
pub mod errors;
pub mod hashing;
pub mod kv;
pub mod storage;
pub mod vrf;

pub use errors::VRFError;

verus! {

/// Domain separation tag bound to the hash-to-curve step, the ASCII bytes
/// of `"NEBULA-VRF-V01-BLS12381G2"`.
///
/// Off-chain signers must use the identical tag: a signature made under a
/// different tag hashes the message to a different curve point and never
/// verifies here. The message signed is `sha256(seed || salt)`; the public
/// key lives in G1 (96 bytes) and the signature in G2 (192 bytes),
/// following the minimal-signature-size convention.
pub const DST: [u8; 25] = [
    0x4e, 0x45, 0x42, 0x55, 0x4c, 0x41, 0x2d, 0x56, 0x52, 0x46, 0x2d, 0x56, 0x30, 0x31, 0x2d,
    0x42, 0x4c, 0x53, 0x31, 0x32, 0x33, 0x38, 0x31, 0x47, 0x32,
];

/// The domain separation tag as a byte vector, for callers that pass it on.
pub fn dst_bytes() -> (r: Vec<u8>)
    ensures
        r@ == DST@,
{
    vstd::slice::slice_to_vec(DST.as_slice())
}

/// The protocol with its per-identity state: commit binds an identity to
/// a commitment hash and a BLS public key, reveal checks a disclosed
/// secret against them and returns it as randomness, and both are keyed
/// by the identity's bytes.
pub struct NebulaVRF {
    pub store: storage::Store,
}

impl View for NebulaVRF {
    type V = storage::StoreView;

    open spec fn view(&self) -> storage::StoreView {
        self.store@
    }
}

impl NebulaVRF {
    /// A protocol instance with no commitments.
    pub fn new() -> (r: Self)
        ensures
            r@.commitments == Map::<Seq<u8>, Seq<u8>>::empty(),
            r@.pubkeys == Map::<Seq<u8>, Seq<u8>>::empty(),
            r@.dst is None,
            storage::wf(r@),
    {
        NebulaVRF { store: storage::Store::new() }
    }

    /// User commits to a hash and provides their BLS public key; the
    /// guard must approve the caller as `user` before anything is
    /// written.
    pub fn commit<G: auth::AuthorizationGuard>(
        &mut self,
        guard: &G,
        user: &Vec<u8>,
        commitment: &Vec<u8>,
        pubkey: &Vec<u8>,
    ) -> (r: Result<(), auth::Unauthorized>)
        requires
            storage::wf(old(self)@),
            commitment@.len() == 32,
            pubkey@.len() == 96,
        ensures
            storage::wf(final(self)@),
            guard.approves(user@) ==> r is Ok && final(self)@ == vrf::spec_commit(
                old(self)@,
                user@,
                commitment@,
                pubkey@,
            ),
            !guard.approves(user@) ==> r is Err && final(self)@ == old(self)@,
    {
        vrf::commit(&mut self.store, guard, user, commitment, pubkey)
    }

    /// User reveals their seed, salt, and BLS signature; the protocol
    /// verifies all of it and returns the recomputed hash as randomness.
    /// The disclosed secret must fit the host's `u32` length cap on hash
    /// inputs.
    pub fn reveal_secret<E: bls::PairingEngine>(
        &self,
        engine: &E,
        user: &Vec<u8>,
        seed: &Vec<u8>,
        salt: &Vec<u8>,
        signature: &Vec<u8>,
    ) -> (r: Result<Vec<u8>, VRFError>)
        requires
            storage::wf(self@),
            seed@.len() + salt@.len() <= 0xFFFF_FFFF,
            signature@.len() == 192,
        ensures
            vrf::spec_reveal(self@, *engine, user@, seed@, salt@, signature@) == (match r {
                Ok(v) => Ok::<Seq<u8>, VRFError>(v@),
                Err(e) => Err::<Seq<u8>, VRFError>(e),
            }),
    {
        vrf::reveal_secret(&self.store, engine, user, seed, salt, signature)
    }

    /// Deterministically derives a 64-bit value from verified randomness
    /// and a caller-chosen context, which together must fit the host's
    /// `u32` length cap on hash inputs.
    pub fn derive_random(randomness: &Vec<u8>, context: &Vec<u8>) -> (r: u64)
        requires
            randomness@.len() == 32,
            context@.len() + 32 <= 0xFFFF_FFFF,
        ensures
            r == vrf::spec_derive(randomness@, context@),
    {
        vrf::derive_random(randomness, context)
    }

    /// The stored commitment for a user, if any.
    pub fn get_commitment(&self, user: &Vec<u8>) -> (r: Option<Vec<u8>>)
        ensures
            match r {
                Some(c) => self@.commitments.contains_key(user@) && c@ == self@.commitments[user@],
                None => !self@.commitments.contains_key(user@),
            },
    {
        storage::get_commitment(&self.store, user)
    }

    /// The stored public key for a user, if any.
    pub fn get_pubkey(&self, user: &Vec<u8>) -> (r: Option<Vec<u8>>)
        ensures
            match r {
                Some(p) => self@.pubkeys.contains_key(user@) && p@ == self@.pubkeys[user@],
                None => !self@.pubkeys.contains_key(user@),
            },
    {
        storage::get_pubkey(&self.store, user)
    }
}

} // verus!

//! The commit–reveal protocol: per-identity state transitions and the
//! deterministic randomness expander.
//!
//! Per identity the state machine is uncommitted, committed, revealed. A
//! commit (re-)binds the identity to a commitment hash and a public key,
//! discarding any earlier pair; a reveal reads but never writes, so a
//! value can be revealed any number of times; deriving consumes nothing.

use vstd::prelude::*;

use crate::auth::{AuthorizationGuard, Unauthorized};
use crate::bls::{verify_bls_signature, PairingEngine};
use crate::bytes::{bytes_eq, concat_bytes, le_u64_of, le_u64_from};
use crate::errors::VRFError;
use crate::hashing::{commitment_of, compute_commitment, sha256, sha256_of};
use crate::storage;
use crate::storage::{dst_in_effect, wf, Store, StoreView};
use crate::{dst_bytes, DST};

verus! {

/// The state after a commit: `user` is bound to `commitment` and
/// `pubkey`, every other identity's state is untouched, and the canonical
/// domain tag is stored.
pub open spec fn spec_commit(
    m: StoreView,
    user: Seq<u8>,
    commitment: Seq<u8>,
    pubkey: Seq<u8>,
) -> StoreView {
    StoreView {
        commitments: m.commitments.insert(user, commitment),
        pubkeys: m.pubkeys.insert(user, pubkey),
        dst: Some(DST@),
    }
}

/// The outcome a reveal is owed on state `m`: the recomputed hash when
/// the commitment matches and the engine accepts the signature, and
/// otherwise exactly the error the failed step names.
pub open spec fn spec_reveal<E: PairingEngine>(
    m: StoreView,
    engine: E,
    user: Seq<u8>,
    seed: Seq<u8>,
    salt: Seq<u8>,
    signature: Seq<u8>,
) -> Result<Seq<u8>, VRFError> {
    if !m.commitments.contains_key(user) {
        Err(VRFError::NoCommitmentFound)
    } else if m.commitments[user] != commitment_of(seed, salt) {
        Err(VRFError::CommitmentMismatch)
    } else if !m.pubkeys.contains_key(user) {
        Err(VRFError::InvalidSignature)
    } else if !engine.accepts(
        commitment_of(seed, salt),
        m.pubkeys[user],
        signature,
        dst_in_effect(m),
    ) {
        Err(VRFError::InvalidSignature)
    } else {
        Ok(commitment_of(seed, salt))
    }
}

/// The value derived from verified randomness and a caller context: the
/// first 8 bytes of `sha256(randomness || context)`, read little-endian.
pub open spec fn spec_derive(randomness: Seq<u8>, context: Seq<u8>) -> u64 {
    le_u64_of(sha256_of(randomness + context))
}

/// Binds `user` to a commitment hash and a BLS public key, if the guard
/// approves the caller as `user`; the guard is consulted before anything
/// is written, and on rejection the state is untouched.
pub fn commit<G: AuthorizationGuard>(
    store: &mut Store,
    guard: &G,
    user: &Vec<u8>,
    commitment: &Vec<u8>,
    pubkey: &Vec<u8>,
) -> (r: Result<(), Unauthorized>)
    requires
        wf(old(store)@),
        commitment@.len() == 32,
        pubkey@.len() == 96,
    ensures
        wf(final(store)@),
        guard.approves(user@) ==> r is Ok && final(store)@ == spec_commit(
            old(store)@,
            user@,
            commitment@,
            pubkey@,
        ),
        !guard.approves(user@) ==> r is Err && final(store)@ == old(store)@,
{
    if !guard.require_authorized(user) {
        return Err(Unauthorized);
    }
    storage::set_commitment(store, user, commitment);
    storage::set_pubkey(store, user, pubkey);
    let d = dst_bytes();
    storage::set_dst(store, &d);
    proof {
        assert(store@ =~= spec_commit(old(store)@, user@, commitment@, pubkey@));
    }
    Ok(())
}

/// Reveals the secret behind `user`'s commitment: recomputes
/// `sha256(seed || salt)`, requires it to equal the stored commitment,
/// verifies the signature over it with the stored public key, and returns
/// it as now-trustworthy randomness. Never writes, so a failed (or
/// successful) reveal leaves every commitment exactly as it was. The
/// disclosed secret must fit the host's `u32` length cap on hash inputs.
pub fn reveal_secret<E: PairingEngine>(
    store: &Store,
    engine: &E,
    user: &Vec<u8>,
    seed: &Vec<u8>,
    salt: &Vec<u8>,
    signature: &Vec<u8>,
) -> (r: Result<Vec<u8>, VRFError>)
    requires
        wf(store@),
        seed@.len() + salt@.len() <= 0xFFFF_FFFF,
        signature@.len() == 192,
    ensures
        spec_reveal(store@, *engine, user@, seed@, salt@, signature@) == (match r {
            Ok(v) => Ok::<Seq<u8>, VRFError>(v@),
            Err(e) => Err::<Seq<u8>, VRFError>(e),
        }),
{
    let stored = match storage::get_commitment(store, user) {
        Some(c) => c,
        None => {
            return Err(VRFError::NoCommitmentFound);
        },
    };
    let recomputed = compute_commitment(seed, salt);
    if !bytes_eq(&recomputed, &stored) {
        return Err(VRFError::CommitmentMismatch);
    }
    let pubkey = match storage::get_pubkey(store, user) {
        Some(p) => p,
        None => {
            return Err(VRFError::InvalidSignature);
        },
    };
    match verify_bls_signature(engine, store, &recomputed, &pubkey, signature) {
        Ok(()) => Ok(recomputed),
        Err(e) => Err(e),
    }
}

/// Deterministically derives a 64-bit value from 32 bytes of verified
/// randomness and an arbitrary caller context. Pure: no state is read or
/// written, and no authorization is involved; callers are responsible for
/// passing only randomness they trust. The output is the raw word, with
/// no modulo reduction, so a caller that needs a bounded range must
/// debias it itself. The context, with the 32 bytes of randomness before
/// it, must fit the host's `u32` length cap on hash inputs.
pub fn derive_random(randomness: &Vec<u8>, context: &Vec<u8>) -> (r: u64)
    requires
        randomness@.len() == 32,
        context@.len() + 32 <= 0xFFFF_FFFF,
    ensures
        r == spec_derive(randomness@, context@),
{
    let extended = concat_bytes(randomness, context);
    let hashed = sha256(&extended);
    le_u64_from(&hashed)
}

/// Law: after a commit of `commitment_of(seed, salt)` for `user`, a
/// reveal for `user` with that `(seed, salt)` and a signature succeeds
/// and returns exactly the committed hash if and only if the engine
/// accepts the signature against the committed public key, the hash as
/// message, and the protocol's domain tag; when the engine rejects, the
/// reveal fails as an invalid signature.
pub proof fn lemma_commit_then_reveal<E: PairingEngine>(
    m: StoreView,
    engine: E,
    user: Seq<u8>,
    seed: Seq<u8>,
    salt: Seq<u8>,
    pubkey: Seq<u8>,
    signature: Seq<u8>,
)
    ensures
        ({
            let c = commitment_of(seed, salt);
            let after = spec_commit(m, user, c, pubkey);
            spec_reveal(after, engine, user, seed, salt, signature) == (
            if engine.accepts(c, pubkey, signature, DST@) {
                Ok::<Seq<u8>, VRFError>(c)
            } else {
                Err::<Seq<u8>, VRFError>(VRFError::InvalidSignature)
            })
        }),
{
}

/// Law: after a commit of `commitment_of(seed, salt)`, a reveal with the
/// same seed and a different salt fails with a commitment mismatch —
/// short of a SHA-256 collision between the two concatenations, which the
/// second premise rules out.
pub proof fn lemma_reveal_wrong_salt<E: PairingEngine>(
    m: StoreView,
    engine: E,
    user: Seq<u8>,
    seed: Seq<u8>,
    salt: Seq<u8>,
    other_salt: Seq<u8>,
    pubkey: Seq<u8>,
    signature: Seq<u8>,
)
    requires
        other_salt != salt,
        commitment_of(seed, other_salt) != commitment_of(seed, salt),
    ensures
        spec_reveal(
            spec_commit(m, user, commitment_of(seed, salt), pubkey),
            engine,
            user,
            seed,
            other_salt,
            signature,
        ) == Err::<Seq<u8>, VRFError>(VRFError::CommitmentMismatch),
{
}

/// Law: a reveal for an identity with no commitment fails by reporting
/// that no commitment was found, whatever the secrets and signature.
pub proof fn lemma_reveal_without_commit<E: PairingEngine>(
    m: StoreView,
    engine: E,
    user: Seq<u8>,
    seed: Seq<u8>,
    salt: Seq<u8>,
    signature: Seq<u8>,
)
    requires
        !m.commitments.contains_key(user),
    ensures
        spec_reveal(m, engine, user, seed, salt, signature) == Err::<Seq<u8>, VRFError>(
            VRFError::NoCommitmentFound,
        ),
{
}

/// Law: deriving is a pure function — equal randomness and equal context
/// always yield equal output.
pub proof fn lemma_derive_deterministic(
    randomness1: Seq<u8>,
    context1: Seq<u8>,
    randomness2: Seq<u8>,
    context2: Seq<u8>,
)
    requires
        randomness1 == randomness2,
        context1 == context2,
    ensures
        spec_derive(randomness1, context1) == spec_derive(randomness2, context2),
{
}

/// Law: commit is overwrite-idempotent — two sequential commits for the
/// same identity leave exactly the state of the second, with only the
/// second commitment and key retrievable.
pub proof fn lemma_commit_overwrites(
    m: StoreView,
    user: Seq<u8>,
    commitment1: Seq<u8>,
    pubkey1: Seq<u8>,
    commitment2: Seq<u8>,
    pubkey2: Seq<u8>,
)
    ensures
        spec_commit(spec_commit(m, user, commitment1, pubkey1), user, commitment2, pubkey2)
            == spec_commit(m, user, commitment2, pubkey2),
{
    let lhs = spec_commit(spec_commit(m, user, commitment1, pubkey1), user, commitment2, pubkey2);
    let rhs = spec_commit(m, user, commitment2, pubkey2);
    assert(lhs.commitments =~= rhs.commitments);
    assert(lhs.pubkeys =~= rhs.pubkeys);
    assert(lhs =~= rhs);
}

/// States in which every identity holding a commitment also holds a
/// public key. Commits write the two together, so every state reachable
/// through them is paired.
pub open spec fn keys_paired(s: StoreView) -> bool {
    forall|user: Seq<u8>| #[trigger] s.commitments.contains_key(user)
        ==> s.pubkeys.contains_key(user)
}

/// Law: commit writes the commitment and the public key together, never
/// one without the other, so it preserves the pairing of the two tables.
pub proof fn lemma_commit_pairs_keys(
    m: StoreView,
    user: Seq<u8>,
    commitment: Seq<u8>,
    pubkey: Seq<u8>,
)
    requires
        keys_paired(m),
    ensures
        keys_paired(spec_commit(m, user, commitment, pubkey)),
{
    let after = spec_commit(m, user, commitment, pubkey);
    assert forall|u: Seq<u8>| #[trigger] after.commitments.contains_key(u) implies
        after.pubkeys.contains_key(u) by {
        if u != user {
            assert(m.commitments.contains_key(u));
        }
    }
}

/// Law: in a paired state, a reveal of the committed secret fails as an
/// invalid signature only because the engine rejected the signature,
/// never for want of the stored public key.
pub proof fn lemma_reveal_in_paired_state<E: PairingEngine>(
    m: StoreView,
    engine: E,
    user: Seq<u8>,
    seed: Seq<u8>,
    salt: Seq<u8>,
    signature: Seq<u8>,
)
    requires
        keys_paired(m),
        m.commitments.contains_key(user),
        m.commitments[user] == commitment_of(seed, salt),
    ensures
        ({
            let c = commitment_of(seed, salt);
            spec_reveal(m, engine, user, seed, salt, signature) == (
            if engine.accepts(c, m.pubkeys[user], signature, dst_in_effect(m)) {
                Ok::<Seq<u8>, VRFError>(c)
            } else {
                Err::<Seq<u8>, VRFError>(VRFError::InvalidSignature)
            })
        }),
{
}

} // verus!

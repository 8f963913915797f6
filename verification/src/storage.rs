//! The per-identity protocol state: a commitment table, a public-key
//! table, and the optionally stored domain separation tag.
//!
//! The durable substrate behind this state is an external concern; the
//! store here is the verified model of it, keyed by the identity's bytes.

use vstd::prelude::*;

use crate::kv::ByteMap;
use crate::DST;

verus! {

/// All state the protocol keeps: per-identity commitments (32 bytes each),
/// per-identity public keys (96 bytes each), and the domain tag written by
/// commit.
pub struct Store {
    pub commitments: ByteMap,
    pub pubkeys: ByteMap,
    pub dst: Option<Vec<u8>>,
}

/// The abstract value of a [`Store`].
#[verifier::ext_equal]
pub ghost struct StoreView {
    pub commitments: Map<Seq<u8>, Seq<u8>>,
    pub pubkeys: Map<Seq<u8>, Seq<u8>>,
    pub dst: Option<Seq<u8>>,
}

impl View for Store {
    type V = StoreView;

    open spec fn view(&self) -> StoreView {
        StoreView {
            commitments: self.commitments@,
            pubkeys: self.pubkeys@,
            dst: match self.dst {
                Some(d) => Some(d@),
                None => None,
            },
        }
    }
}

/// Well-formedness: every stored commitment is 32 bytes, every stored
/// public key is 96 bytes, and a stored domain tag is a usable
/// hash-to-curve tag (1 to 255 bytes).
pub open spec fn wf(s: StoreView) -> bool {
    &&& forall|k: Seq<u8>| s.commitments.contains_key(k) ==> (#[trigger] s.commitments[k]).len()
        == 32
    &&& forall|k: Seq<u8>| s.pubkeys.contains_key(k) ==> (#[trigger] s.pubkeys[k]).len() == 96
    &&& match s.dst {
        Some(d) => 1 <= d.len() <= 255,
        None => true,
    }
}

/// The domain tag a reveal verifies under: the stored one if present,
/// otherwise the protocol constant [`DST`].
pub open spec fn dst_in_effect(s: StoreView) -> Seq<u8> {
    match s.dst {
        Some(d) => d,
        None => DST@,
    }
}

impl Store {
    /// A store with no commitments, no public keys and no stored tag.
    pub fn new() -> (r: Self)
        ensures
            r@.commitments == Map::<Seq<u8>, Seq<u8>>::empty(),
            r@.pubkeys == Map::<Seq<u8>, Seq<u8>>::empty(),
            r@.dst is None,
            wf(r@),
    {
        Store { commitments: ByteMap::new(), pubkeys: ByteMap::new(), dst: None }
    }
}

/// Stores `commitment` as the current commitment of `user`.
pub fn set_commitment(s: &mut Store, user: &Vec<u8>, commitment: &Vec<u8>)
    requires
        commitment@.len() == 32,
    ensures
        final(s)@.commitments == old(s)@.commitments.insert(user@, commitment@),
        final(s)@.pubkeys == old(s)@.pubkeys,
        final(s)@.dst == old(s)@.dst,
        wf(old(s)@) ==> wf(final(s)@),
{
    s.commitments.set(user, commitment);
    proof {
        if wf(old(s)@) {
            assert forall|k: Seq<u8>| s@.commitments.contains_key(k) implies (
            #[trigger] s@.commitments[k]).len() == 32 by {
                if k == user@ {
                    assert(s@.commitments[k] == commitment@);
                } else {
                    assert(old(s)@.commitments.contains_key(k));
                    assert(old(s)@.commitments[k].len() == 32);
                    assert(s@.commitments[k] == old(s)@.commitments[k]);
                }
            }
            assert forall|k: Seq<u8>| s@.pubkeys.contains_key(k) implies (
            #[trigger] s@.pubkeys[k]).len() == 96 by {
                assert(old(s)@.pubkeys.contains_key(k));
                assert(old(s)@.pubkeys[k].len() == 96);
            }
            assert(wf(s@));
        }
    }
}

/// The current commitment of `user`, if one was stored.
pub fn get_commitment(s: &Store, user: &Vec<u8>) -> (r: Option<Vec<u8>>)
    ensures
        match r {
            Some(c) => s@.commitments.contains_key(user@) && c@ == s@.commitments[user@],
            None => !s@.commitments.contains_key(user@),
        },
{
    s.commitments.get(user)
}

/// Stores `pubkey` as the current public key of `user`.
pub fn set_pubkey(s: &mut Store, user: &Vec<u8>, pubkey: &Vec<u8>)
    requires
        pubkey@.len() == 96,
    ensures
        final(s)@.pubkeys == old(s)@.pubkeys.insert(user@, pubkey@),
        final(s)@.commitments == old(s)@.commitments,
        final(s)@.dst == old(s)@.dst,
        wf(old(s)@) ==> wf(final(s)@),
{
    s.pubkeys.set(user, pubkey);
    proof {
        if wf(old(s)@) {
            assert forall|k: Seq<u8>| s@.pubkeys.contains_key(k) implies (
            #[trigger] s@.pubkeys[k]).len() == 96 by {
                if k == user@ {
                    assert(s@.pubkeys[k] == pubkey@);
                } else {
                    assert(old(s)@.pubkeys.contains_key(k));
                    assert(old(s)@.pubkeys[k].len() == 96);
                    assert(s@.pubkeys[k] == old(s)@.pubkeys[k]);
                }
            }
            assert forall|k: Seq<u8>| s@.commitments.contains_key(k) implies (
            #[trigger] s@.commitments[k]).len() == 32 by {
                assert(old(s)@.commitments.contains_key(k));
                assert(old(s)@.commitments[k].len() == 32);
            }
            assert(wf(s@));
        }
    }
}

/// The current public key of `user`, if one was stored.
pub fn get_pubkey(s: &Store, user: &Vec<u8>) -> (r: Option<Vec<u8>>)
    ensures
        match r {
            Some(p) => s@.pubkeys.contains_key(user@) && p@ == s@.pubkeys[user@],
            None => !s@.pubkeys.contains_key(user@),
        },
{
    s.pubkeys.get(user)
}

/// Stores the domain separation tag.
pub fn set_dst(s: &mut Store, dst: &Vec<u8>)
    requires
        1 <= dst@.len() <= 255,
    ensures
        final(s)@.dst == Some(dst@),
        final(s)@.commitments == old(s)@.commitments,
        final(s)@.pubkeys == old(s)@.pubkeys,
        wf(old(s)@) ==> wf(final(s)@),
{
    let d = crate::bytes::copy_bytes(dst);
    s.dst = Some(d);
}

/// The stored domain separation tag, if any.
pub fn get_dst(s: &Store) -> (r: Option<Vec<u8>>)
    ensures
        match r {
            Some(d) => s@.dst == Some(d@),
            None => s@.dst is None,
        },
{
    match &s.dst {
        Some(d) => Some(crate::bytes::copy_bytes(d)),
        None => None,
    }
}

} // verus!

//! A verified association map from byte-string keys to byte-string
//! values, abstracted as a `Map<Seq<u8>, Seq<u8>>`.
//!
//! Entries are kept as a sequence with the newest binding first; a stale
//! binding for the same key is shadowed by the newer one, so lookups
//! always see the latest write, and the abstract view is exactly the map
//! obtained by inserting the entries oldest-first.

use vstd::prelude::*;

use crate::bytes::{bytes_eq, copy_bytes};

verus! {

/// A map from byte keys to byte values with verified lookup and update.
pub struct ByteMap {
    entries: Vec<(Vec<u8>, Vec<u8>)>,
}

impl ByteMap {
    /// The map denoted by `s`, whose front entry is the newest binding.
    pub closed spec fn map_of(s: Seq<(Vec<u8>, Vec<u8>)>) -> Map<Seq<u8>, Seq<u8>>
        decreases s.len(),
    {
        if s.len() == 0 {
            Map::empty()
        } else {
            Self::map_of(s.skip(1)).insert(s[0].0@, s[0].1@)
        }
    }

    /// An empty map.
    pub fn new() -> (r: Self)
        ensures
            r@ == Map::<Seq<u8>, Seq<u8>>::empty(),
    {
        ByteMap { entries: Vec::new() }
    }

    /// Updating the entry at `i` rebinds its key and leaves the rest of
    /// the map unchanged, provided no earlier entry shadows that key.
    proof fn lemma_map_of_update(s: Seq<(Vec<u8>, Vec<u8>)>, i: int, entry: (Vec<u8>, Vec<u8>))
        requires
            0 <= i < s.len(),
            entry.0@ == s[i].0@,
            forall|j: int| 0 <= j < i ==> s[j].0@ != s[i].0@,
        ensures
            Self::map_of(s.update(i, entry)) == Self::map_of(s).insert(entry.0@, entry.1@),
        decreases i,
    {
        let t = s.update(i, entry);
        if i == 0 {
            assert(t.skip(1) =~= s.skip(1));
            assert(Self::map_of(t) =~= Self::map_of(s).insert(entry.0@, entry.1@));
        } else {
            assert(t.skip(1) =~= s.skip(1).update(i - 1, entry));
            Self::lemma_map_of_update(s.skip(1), i - 1, entry);
            assert(t[0] == s[0]);
            assert(s[0].0@ != entry.0@);
            assert(Self::map_of(t) =~= Self::map_of(s).insert(entry.0@, entry.1@));
        }
    }

    /// Binds `k` to `v`. An earlier binding of `k` is overwritten in
    /// place, not appended to: no history is retained.
    pub fn set(&mut self, k: &Vec<u8>, v: &Vec<u8>)
        ensures
            final(self)@ == old(self)@.insert(k@, v@),
    {
        let mut i: usize = 0;
        while i < self.entries.len()
            invariant
                0 <= i <= self.entries@.len(),
                self.entries@ == old(self).entries@,
                forall|j: int| 0 <= j < i ==> self.entries@[j].0@ != k@,
            decreases self.entries@.len() - i,
        {
            if bytes_eq(&self.entries[i].0, k) {
                let entry = (copy_bytes(k), copy_bytes(v));
                let ghost before = self.entries@;
                let ghost gi = i as int;
                let ghost gentry = entry;
                self.entries[i] = entry;
                proof {
                    Self::lemma_map_of_update(before, gi, gentry);
                }
                return;
            }
            i += 1;
        }
        let entry = (copy_bytes(k), copy_bytes(v));
        self.entries.insert(0, entry);
        proof {
            assert(self.entries@.skip(1) =~= old(self).entries@);
        }
    }

    /// The value bound to `k`, if any.
    pub fn get(&self, k: &Vec<u8>) -> (r: Option<Vec<u8>>)
        ensures
            match r {
                Some(v) => self@.contains_key(k@) && v@ == self@[k@],
                None => !self@.contains_key(k@),
            },
    {
        let ghost full = self@;
        proof {
            assert(self.entries@.skip(0) =~= self.entries@);
        }
        let mut i: usize = 0;
        while i < self.entries.len()
            invariant
                0 <= i <= self.entries@.len(),
                full == self@,
                full.contains_key(k@) == Self::map_of(self.entries@.skip(i as int)).contains_key(
                    k@,
                ),
                full.contains_key(k@) ==> full[k@] == Self::map_of(
                    self.entries@.skip(i as int),
                )[k@],
            decreases self.entries@.len() - i,
        {
            let ghost rest = self.entries@.skip(i as int);
            proof {
                assert(rest.len() > 0);
                assert(rest.skip(1) =~= self.entries@.skip(i + 1));
                assert(rest[0] == self.entries@[i as int]);
            }
            if bytes_eq(&self.entries[i].0, k) {
                let value = copy_bytes(&self.entries[i].1);
                return Some(value);
            }
            i += 1;
        }
        proof {
            assert(self.entries@.skip(self.entries@.len() as int) =~= Seq::<(
                Vec<u8>,
                Vec<u8>,
            )>::empty());
        }
        None
    }
}

impl View for ByteMap {
    type V = Map<Seq<u8>, Seq<u8>>;

    closed spec fn view(&self) -> Map<Seq<u8>, Seq<u8>> {
        Self::map_of(self.entries@)
    }
}

} // verus!

//! The hash sidecar store.
//!
//! A single-slot key-value mapping from a tracked file's path to the digest
//! of the plaintext last observed for it.  A record is advisory, never
//! authoritative: its sole purpose is to let clean skip re-encryption when
//! the plaintext is unchanged; a missing or stale record only triggers
//! re-encryption.  Records are kept as an append-only journal where the last
//! write for a path wins, so a write is a plain overwrite of the path's slot.

use vstd::prelude::*;

use crate::digest::ContentDigest;

verus! {

/// The mapping a journal of records denotes: later records shadow earlier
/// ones for the same path.
spec fn store_map(s: Seq<(String, ContentDigest)>) -> Map<Seq<char>, Seq<u8>>
    decreases s.len(),
{
    if s.len() == 0 {
        Map::empty()
    } else {
        store_map(s.drop_last()).insert(s.last().0@, s.last().1@)
    }
}

/// The store of last-known plaintext digests, one slot per tracked file path.
pub struct SidecarStore {
    records: Vec<(String, ContentDigest)>,
}

impl View for SidecarStore {
    type V = Map<Seq<char>, Seq<u8>>;

    closed spec fn view(&self) -> Map<Seq<char>, Seq<u8>> {
        store_map(self.records@)
    }
}

impl SidecarStore {
    /// A store with no records.
    pub fn new() -> (s: SidecarStore)
        ensures
            s@ == Map::<Seq<char>, Seq<u8>>::empty(),
    {
        SidecarStore { records: Vec::new() }
    }

    /// The digest last written for `path`, if any.  Absence of a record is a
    /// normal outcome, not an error.
    pub fn read(&self, path: &String) -> (r: Option<ContentDigest>)
        ensures
            r is Some <==> self@.contains_key(path@),
            r matches Some(d) ==> d@ == self@[path@],
    {
        let mut i: usize = self.records.len();
        proof {
            assert(self.records@.take(self.records@.len() as int) =~= self.records@);
        }
        while i > 0
            invariant
                i <= self.records@.len(),
                self@ == store_map(self.records@),
                store_map(self.records@).contains_key(path@) == store_map(
                    self.records@.take(i as int),
                ).contains_key(path@),
                store_map(self.records@.take(i as int)).contains_key(path@) ==> store_map(
                    self.records@,
                )[path@] == store_map(self.records@.take(i as int))[path@],
            decreases i,
        {
            let j: usize = i - 1;
            proof {
                assert(self.records@.take(j + 1).drop_last() =~= self.records@.take(j as int));
                assert(self.records@.take(j + 1).last() == self.records@[j as int]);
            }
            if self.records[j].0 == *path {
                return Some(self.records[j].1.duplicate());
            }
            i = j;
        }
        proof {
            assert(self.records@.take(0) =~= Seq::<(String, ContentDigest)>::empty());
        }
        None
    }

    /// Records `d` as the last-known plaintext digest for `path`,
    /// overwriting any earlier record for the same path.
    pub fn write(&mut self, path: &String, d: ContentDigest)
        ensures
            final(self)@ == old(self)@.insert(path@, d@),
    {
        proof {
            let ghost s = self.records@;
            assert(s.push((*path, d)).drop_last() =~= s);
        }
        self.records.push((path.clone(), d));
    }

    /// Forgets every record the store holds; used only at teardown.
    pub fn remove_all(&mut self)
        ensures
            final(self)@ == Map::<Seq<char>, Seq<u8>>::empty(),
    {
        self.records.clear();
    }
}

/// Sidecar law: after `write(path, d)` a `read(path)` returns exactly `d`,
/// whatever was stored before; after `remove_all()` a `read` of any path
/// returns nothing.
pub proof fn lemma_sidecar_write_then_read(m: Map<Seq<char>, Seq<u8>>, path: Seq<char>, d: Seq<u8>)
    ensures
        m.insert(path, d).contains_key(path),
        m.insert(path, d)[path] == d,
        !Map::<Seq<char>, Seq<u8>>::empty().contains_key(path),
{
}

} // verus!

//! The translation table between wire-level entity ids and local handles.
//!
//! The server names every networked object by a `u64` [`NetworkEntityId`];
//! each side keeps its own local handle for the object (an engine entity, an
//! arena index). This map carries one to the other: keys unique, insertion
//! order irrelevant, last writer wins on insert.

use vstd::prelude::*;

verus! {

/// The wire-level identifier of a networked object: chosen by the server at
/// spawn, stable and never reused while the entry lives.
pub type NetworkEntityId = u64;

/// A local, engine-side object handle, opaque to the protocol.
pub type LocalHandle = u64;

/// The map a sequence of entries denotes, later entries winning.
pub open spec fn seq_to_map(s: Seq<(u64, u64)>) -> Map<u64, u64>
    decreases s.len(),
{
    if s.len() == 0 {
        Map::empty()
    } else {
        seq_to_map(s.drop_last()).insert(s.last().0, s.last().1)
    }
}

/// No key occurs twice.
pub open spec fn no_dup_keys(s: Seq<(u64, u64)>) -> bool {
    forall|i: int, j: int| 0 <= i < j < s.len() ==> s[i].0 != s[j].0
}

proof fn lemma_map_contains(s: Seq<(u64, u64)>, k: u64)
    ensures
        seq_to_map(s).contains_key(k) <==> exists|i: int| 0 <= i < s.len() && s[i].0 == k,
    decreases s.len(),
{
    if s.len() == 0 {
    } else {
        lemma_map_contains(s.drop_last(), k);
        if s.last().0 == k {
            assert(s[s.len() - 1].0 == k);
        } else {
            if seq_to_map(s).contains_key(k) {
                let i = choose|i: int| 0 <= i < s.drop_last().len() && s.drop_last()[i].0 == k;
                if seq_to_map(s.drop_last()).contains_key(k) {
                    assert(s[i].0 == k);
                }
            }
            if exists|i: int| 0 <= i < s.len() && s[i].0 == k {
                let i = choose|i: int| 0 <= i < s.len() && s[i].0 == k;
                assert(i < s.len() - 1);
                assert(s.drop_last()[i].0 == k);
            }
        }
    }
}

proof fn lemma_map_value_at(s: Seq<(u64, u64)>, i: int)
    requires
        no_dup_keys(s),
        0 <= i < s.len(),
    ensures
        seq_to_map(s).contains_key(s[i].0),
        seq_to_map(s)[s[i].0] == s[i].1,
    decreases s.len(),
{
    if i == s.len() - 1 {
    } else {
        assert(s.drop_last()[i] == s[i]);
        lemma_map_value_at(s.drop_last(), i);
        assert(s.last().0 != s[i].0);
    }
}

proof fn lemma_map_remove_at(s: Seq<(u64, u64)>, i: int)
    requires
        no_dup_keys(s),
        0 <= i < s.len(),
    ensures
        seq_to_map(s.remove(i)) == seq_to_map(s).remove(s[i].0),
    decreases s.len(),
{
    let k = s[i].0;
    if i == s.len() - 1 {
        assert(s.remove(i) =~= s.drop_last());
        lemma_map_contains(s.drop_last(), k);
        assert(!seq_to_map(s.drop_last()).contains_key(k));
        assert(seq_to_map(s.drop_last()) =~= seq_to_map(s).remove(k));
    } else {
        assert(s.remove(i).drop_last() =~= s.drop_last().remove(i));
        assert(s.remove(i).last() == s.last());
        lemma_map_remove_at(s.drop_last(), i);
        assert(s.last().0 != k);
        assert(seq_to_map(s.remove(i)) == seq_to_map(s.drop_last()).remove(k).insert(
            s.last().0,
            s.last().1,
        ));
        assert(seq_to_map(s.drop_last()).remove(k).insert(s.last().0, s.last().1)
            =~= seq_to_map(s.drop_last()).insert(s.last().0, s.last().1).remove(k));
    }
}

proof fn lemma_map_len(s: Seq<(u64, u64)>)
    requires
        no_dup_keys(s),
    ensures
        seq_to_map(s).dom().finite(),
        seq_to_map(s).dom().len() == s.len(),
    decreases s.len(),
{
    if s.len() == 0 {
        assert(seq_to_map(s).dom() =~= Set::<u64>::empty());
    } else {
        lemma_map_len(s.drop_last());
        lemma_map_contains(s.drop_last(), s.last().0);
        assert(!seq_to_map(s.drop_last()).contains_key(s.last().0));
        assert(seq_to_map(s).dom() =~= seq_to_map(s.drop_last()).dom().insert(s.last().0));
    }
}

/// The id-to-handle table.
pub struct EntityIdMap {
    entries: Vec<(u64, u64)>,
}

impl View for EntityIdMap {
    type V = Map<u64, u64>;

    closed spec fn view(&self) -> Map<u64, u64> {
        seq_to_map(self.entries@)
    }
}

impl EntityIdMap {
    /// Keys unique in the backing storage.
    pub closed spec fn wf(self) -> bool {
        no_dup_keys(self.entries@)
    }

    /// An empty map.
    pub fn new() -> (r: EntityIdMap)
        ensures
            r@ == Map::<u64, u64>::empty(),
            r.wf(),
    {
        EntityIdMap { entries: Vec::new() }
    }

    /// How many objects are mapped.
    pub fn len(&self) -> (r: usize)
        requires
            self.wf(),
        ensures
            r == self@.dom().len(),
    {
        proof {
            lemma_map_len(self.entries@);
        }
        self.entries.len()
    }

    /// The index of a key in the backing storage, if present.
    fn find(&self, id: u64) -> (r: Option<usize>)
        ensures
            match r {
                Some(i) => i < self.entries@.len() && self.entries@[i as int].0 == id,
                None => forall|j: int| 0 <= j < self.entries@.len() ==> self.entries@[j].0 != id,
            },
    {
        let mut i: usize = 0;
        let n = self.entries.len();
        while i < n
            invariant
                i <= n,
                n == self.entries@.len(),
                forall|j: int| 0 <= j < i ==> self.entries@[j].0 != id,
            decreases n - i,
        {
            if self.entries[i].0 == id {
                return Some(i);
            }
            i = i + 1;
        }
        None
    }

    /// The local handle mapped to `id`, if the object is known.
    pub fn get(&self, id: u64) -> (r: Option<u64>)
        requires
            self.wf(),
        ensures
            r == (if self@.contains_key(id) {
                Some(self@[id])
            } else {
                None::<u64>
            }),
    {
        proof {
            lemma_map_contains(self.entries@, id);
        }
        match self.find(id) {
            Some(i) => {
                proof {
                    lemma_map_value_at(self.entries@, i as int);
                }
                Some(self.entries[i].1)
            },
            None => None,
        }
    }

    /// Whether the object is known.
    pub fn contains(&self, id: u64) -> (r: bool)
        requires
            self.wf(),
        ensures
            r == self@.contains_key(id),
    {
        self.get(id).is_some()
    }

    /// Map `id` to `handle`; an existing entry for `id` is overwritten
    /// (last writer wins).
    pub fn insert(&mut self, id: u64, handle: u64)
        requires
            old(self).wf(),
        ensures
            final(self)@ == old(self)@.insert(id, handle),
            final(self).wf(),
    {
        self.remove(id);
        let ghost pre = self.entries@;
        self.entries.push((id, handle));
        proof {
            assert(self.entries@.drop_last() =~= pre);
            lemma_map_contains(pre, id);
            assert(self@ =~= old(self)@.insert(id, handle));
        }
    }

    /// Unmap `id`, returning the handle it was mapped to, if any.
    pub fn remove(&mut self, id: u64) -> (r: Option<u64>)
        requires
            old(self).wf(),
        ensures
            final(self)@ == old(self)@.remove(id),
            r == (if old(self)@.contains_key(id) {
                Some(old(self)@[id])
            } else {
                None::<u64>
            }),
            final(self).wf(),
    {
        proof {
            lemma_map_contains(self.entries@, id);
        }
        match self.find(id) {
            Some(i) => {
                proof {
                    lemma_map_value_at(self.entries@, i as int);
                    lemma_map_remove_at(self.entries@, i as int);
                }
                let entry = self.entries[i];
                self.entries.remove(i);
                Some(entry.1)
            },
            None => {
                proof {
                    assert(self@ =~= old(self)@.remove(id));
                }
                None
            },
        }
    }
}

} // verus!

//! The window manager's workspace identifiers, each mapped to the number
//! that the bar shows for that workspace.
use vstd::prelude::*;

use crate::text::str_eq;

verus! {

/// A map from a workspace identifier to its number.
pub struct WorkspaceIds {
    entries: Vec<(String, u8)>,
}

/// Whether `k` is the key of some entry.
pub open spec fn has_key(entries: Seq<(String, u8)>, k: Seq<char>) -> bool {
    exists|i: int| 0 <= i < entries.len() && #[trigger] entries[i].0@ == k
}

/// No two entries share a key.
pub open spec fn keys_distinct(entries: Seq<(String, u8)>) -> bool {
    forall|i: int, j: int|
        0 <= i < entries.len() && 0 <= j < entries.len() && i != j ==> #[trigger] entries[i].0@
            != #[trigger] entries[j].0@
}

/// The map that a list of entries with distinct keys stands for.
pub open spec fn entries_map(entries: Seq<(String, u8)>) -> Map<Seq<char>, u8> {
    Map::new(
        |k: Seq<char>| has_key(entries, k),
        |k: Seq<char>| entries[choose|i: int| 0 <= i < entries.len() && #[trigger] entries[i].0@ == k].1,
    )
}

proof fn lemma_entry_value(entries: Seq<(String, u8)>, i: int)
    requires
        keys_distinct(entries),
        0 <= i < entries.len(),
    ensures
        entries_map(entries).contains_key(entries[i].0@),
        entries_map(entries)[entries[i].0@] == entries[i].1,
{
    let k = entries[i].0@;
    assert(has_key(entries, k));
    let j = choose|j: int| 0 <= j < entries.len() && #[trigger] entries[j].0@ == k;
    assert(j == i);
}

impl View for WorkspaceIds {
    type V = Map<Seq<char>, u8>;

    closed spec fn view(&self) -> Map<Seq<char>, u8> {
        entries_map(self.entries@)
    }
}

impl WorkspaceIds {
    #[verifier::type_invariant]
    spec fn distinct(self) -> bool {
        keys_distinct(self.entries@)
    }

    /// An empty map.
    pub fn new() -> (r: WorkspaceIds)
        ensures
            r@ == Map::<Seq<char>, u8>::empty(),
    {
        let r = WorkspaceIds { entries: Vec::new() };
        assert(r@ =~= Map::<Seq<char>, u8>::empty());
        r
    }

    /// The position of the entry with key `key`.
    fn find(&self, key: &str) -> (r: Option<usize>)
        ensures
            match r {
                Some(i) => i < self.entries@.len() && self.entries@[i as int].0@ == key@,
                None => !has_key(self.entries@, key@),
            },
    {
        let mut i: usize = 0;
        while i < self.entries.len()
            invariant
                i <= self.entries@.len(),
                forall|j: int| 0 <= j < i ==> self.entries@[j].0@ != key@,
            decreases self.entries@.len() - i,
        {
            if str_eq(self.entries[i].0.as_str(), key) {
                return Some(i);
            }
            i = i + 1;
        }
        None
    }

    /// The number stored for `key`.
    pub fn get(&self, key: &str) -> (r: Option<u8>)
        ensures
            r == (if self@.contains_key(key@) { Some(self@[key@]) } else { None::<u8> }),
    {
        proof {
            use_type_invariant(self);
        }
        match self.find(key) {
            Some(i) => {
                proof {
                    lemma_entry_value(self.entries@, i as int);
                }
                Some(self.entries[i].1)
            },
            None => None,
        }
    }

    /// Stores `id` for `key`, replacing what was stored for it.
    pub fn insert(&mut self, key: String, id: u8)
        ensures
            final(self)@ == old(self)@.insert(key@, id),
    {
        proof {
            use_type_invariant(&*self);
        }
        let ghost old_entries = self.entries@;
        let found = self.find(key.as_str());
        let mut entries: Vec<(String, u8)> = Vec::new();
        std::mem::swap(&mut entries, &mut self.entries);
        assert(entries@ == old_entries);
        match found {
            Some(i) => {
                entries.set(i, (key, id));
            },
            None => {
                entries.push((key, id));
            },
        }
        let ghost new_entries = entries@;
        assert(keys_distinct(new_entries));
        assert forall|k: Seq<char>| #[trigger] has_key(new_entries, k) == (k == key@ || has_key(old_entries, k)) by {
            if has_key(old_entries, k) && k != key@ {
                let j = choose|j: int| 0 <= j < old_entries.len() && #[trigger] old_entries[j].0@ == k;
                assert(new_entries[j] == old_entries[j]);
            }
            if k == key@ {
                match found {
                    Some(i) => assert(new_entries[i as int].0@ == k),
                    None => assert(new_entries[old_entries.len() as int].0@ == k),
                }
            }
            if has_key(new_entries, k) && k != key@ {
                let j = choose|j: int| 0 <= j < new_entries.len() && #[trigger] new_entries[j].0@ == k;
                assert(old_entries[j] == new_entries[j]);
            }
        }
        assert forall|k: Seq<char>| #[trigger] has_key(new_entries, k) implies entries_map(new_entries)[k]
            == (if k == key@ { id } else { entries_map(old_entries)[k] }) by {
            let j = choose|j: int| 0 <= j < new_entries.len() && #[trigger] new_entries[j].0@ == k;
            lemma_entry_value(new_entries, j);
            if k != key@ {
                lemma_entry_value(old_entries, j);
            }
        }
        self.entries = entries;
        assert(self@ =~= old(self)@.insert(key@, id));
    }

    /// Drops what is stored for `key`.
    pub fn remove(&mut self, key: &str)
        ensures
            final(self)@ == old(self)@.remove(key@),
    {
        proof {
            use_type_invariant(&*self);
        }
        let ghost old_entries = self.entries@;
        match self.find(key) {
            Some(i) => {
                let mut entries: Vec<(String, u8)> = Vec::new();
                std::mem::swap(&mut entries, &mut self.entries);
                entries.remove(i);
                let ghost new_entries = entries@;
                assert(new_entries =~= old_entries.remove(i as int));
                assert(keys_distinct(new_entries));
                assert forall|k: Seq<char>| #[trigger] has_key(new_entries, k) == (k != key@ && has_key(old_entries, k)) by {
                    if has_key(old_entries, k) && k != key@ {
                        let j = choose|j: int| 0 <= j < old_entries.len() && #[trigger] old_entries[j].0@ == k;
                        if j < i {
                            assert(new_entries[j].0@ == k);
                        } else {
                            assert(j != i);
                            assert(new_entries[j - 1].0@ == k);
                        }
                    }
                    if has_key(new_entries, k) {
                        let j = choose|j: int| 0 <= j < new_entries.len() && #[trigger] new_entries[j].0@ == k;
                        if j < i {
                            assert(old_entries[j].0@ == k);
                        } else {
                            assert(old_entries[j + 1].0@ == k);
                        }
                    }
                }
                assert forall|k: Seq<char>| #[trigger] has_key(new_entries, k) implies entries_map(new_entries)[k]
                    == entries_map(old_entries)[k] by {
                    let j = choose|j: int| 0 <= j < new_entries.len() && #[trigger] new_entries[j].0@ == k;
                    lemma_entry_value(new_entries, j);
                    if j < i {
                        lemma_entry_value(old_entries, j);
                    } else {
                        lemma_entry_value(old_entries, j + 1);
                    }
                }
                self.entries = entries;
                assert(self@ =~= old(self)@.remove(key@));
            },
            None => {
                assert(self@ =~= old(self)@.remove(key@));
            },
        }
    }

    /// Drops every entry.
    pub fn clear(&mut self)
        ensures
            final(self)@ == Map::<Seq<char>, u8>::empty(),
    {
        self.entries = Vec::new();
        assert(self@ =~= Map::<Seq<char>, u8>::empty());
    }
}

} // verus!

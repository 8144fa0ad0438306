//! A small keyed table, for the model's per-row and per-section records.
//!
//! The model keeps a handful of maps from a row (its section and its key) or
//! a section to a value: drafts, values in flight, refusals, busy rows, and
//! the descriptors the daemon last served. Each is a table of entries in
//! which the last entry for a key is the one that counts, viewed as the map
//! those entries make.

use vstd::prelude::*;
use crate::text::str_eq;

verus! {

/// A key a table can be looked up by: compared by what it holds.
pub trait TableKey: View + Sized {
    /// Whether two keys name the same entry.
    fn same(&self, other: &Self) -> (r: bool)
        ensures
            r == (self@ == other@),
    ;
}

impl TableKey for String {
    fn same(&self, other: &Self) -> (r: bool) {
        str_eq(self.as_str(), other.as_str())
    }
}

impl TableKey for (String, String) {
    fn same(&self, other: &Self) -> (r: bool) {
        str_eq(self.0.as_str(), other.0.as_str()) && str_eq(self.1.as_str(), other.1.as_str())
    }
}

/// The map a list of entries makes, the later entry for a key winning.
pub open spec fn entries_map<K: View, V>(s: Seq<(K, V)>) -> Map<K::V, V>
    decreases s.len(),
{
    if s.len() == 0 {
        Map::empty()
    } else {
        entries_map(s.drop_last()).insert(s.last().0@, s.last().1)
    }
}

/// A map from keys to values.
pub struct Table<K, V> {
    entries: Vec<(K, V)>,
}

impl<K: View, V> View for Table<K, V> {
    type V = Map<K::V, V>;

    closed spec fn view(&self) -> Map<K::V, V> {
        entries_map(self.entries@)
    }
}

impl<K: TableKey, V> Table<K, V> {
    /// An empty table.
    pub fn new() -> (t: Self)
        ensures
            t@ == Map::<K::V, V>::empty(),
    {
        Table { entries: Vec::new() }
    }

    /// The value held for a key, where there is one.
    pub fn get(&self, key: &K) -> (r: Option<&V>)
        ensures
            match r {
                Some(v) => self@.contains_key(key@) && *v == self@[key@],
                None => !self@.contains_key(key@),
            },
    {
        let mut i: usize = self.entries.len();
        proof {
            assert(self.entries@.take(i as int) =~= self.entries@);
        }
        while i > 0
            invariant
                i <= self.entries@.len(),
                entries_map(self.entries@).contains_key(key@) == entries_map(
                    self.entries@.take(i as int),
                ).contains_key(key@),
                entries_map(self.entries@).contains_key(key@) ==> entries_map(self.entries@)[key@]
                    == entries_map(self.entries@.take(i as int))[key@],
            decreases i,
        {
            proof {
                assert(self.entries@.take(i as int).drop_last() =~= self.entries@.take(i - 1));
            }
            if self.entries[i - 1].0.same(key) {
                return Some(&self.entries[i - 1].1);
            }
            i = i - 1;
        }
        proof {
            assert(self.entries@.take(0) =~= Seq::<(K, V)>::empty());
        }
        None
    }

    /// Whether a key has a value.
    pub fn contains(&self, key: &K) -> (r: bool)
        ensures
            r == self@.contains_key(key@),
    {
        self.get(key).is_some()
    }

    /// Hold a value for a key, replacing whatever was held for it.
    pub fn insert(&mut self, key: K, value: V)
        ensures
            final(self)@ == old(self)@.insert(key@, value),
    {
        self.entries.push((key, value));
        proof {
            assert(self.entries@.drop_last() =~= old(self).entries@);
        }
    }

    /// Forget every key.
    pub fn clear(&mut self)
        ensures
            final(self)@ == Map::<K::V, V>::empty(),
    {
        self.entries.clear();
    }

    /// Forget one key, and say whether it was held.
    pub fn remove(&mut self, key: &K) -> (had: bool)
        ensures
            final(self)@ == old(self)@.remove(key@),
            had == old(self)@.contains_key(key@),
    {
        let had = self.contains(key);
        let mut old_entries: Vec<(K, V)> = Vec::new();
        std::mem::swap(&mut old_entries, &mut self.entries);
        let ghost s = old_entries@;
        let mut kept: Vec<(K, V)> = Vec::new();
        for e in it: old_entries.into_iter()
            invariant
                it.seq() == s,
                entries_map(kept@) == entries_map(s.take(it.index() as int)).remove(key@),
        {
            let ghost before = s.take(it.index() as int);
            let ghost kept_before = kept@;
            proof {
                assert(s.take(it.index() + 1).drop_last() =~= before);
            }
            if !e.0.same(key) {
                kept.push(e);
                proof {
                    assert(kept@.drop_last() =~= kept_before);
                }
            }
            proof {
                let after = s.take(it.index() + 1);
                assert(entries_map(kept@) =~= entries_map(after).remove(key@));
            }
        }
        proof {
            assert(s.take(s.len() as int) =~= s);
        }
        self.entries = kept;
        had
    }
}

/// Whether a row belongs to a section.
pub open spec fn in_section(row: (Seq<char>, Seq<char>), section: Seq<char>) -> bool {
    row.0 == section
}

impl<V> Table<(String, String), V> {
    /// Forget every row of one section, keeping every other row as it was.
    pub fn forget_section(&mut self, section: &str)
        ensures
            final(self)@ == old(self)@.restrict(
                old(self)@.dom().filter(|k: (Seq<char>, Seq<char>)| !in_section(k, section@)),
            ),
    {
        let mut old_entries: Vec<((String, String), V)> = Vec::new();
        std::mem::swap(&mut old_entries, &mut self.entries);
        let ghost s = old_entries@;
        let mut kept: Vec<((String, String), V)> = Vec::new();
        for e in it: old_entries.into_iter()
            invariant
                it.seq() == s,
                entries_map(kept@) == entries_map(s.take(it.index() as int)).restrict(
                    entries_map(s.take(it.index() as int)).dom().filter(
                        |k: (Seq<char>, Seq<char>)| !in_section(k, section@),
                    ),
                ),
        {
            let ghost before = s.take(it.index() as int);
            let ghost kept_before = kept@;
            proof {
                assert(s.take(it.index() + 1).drop_last() =~= before);
            }
            if !str_eq((e.0).0.as_str(), section) {
                kept.push(e);
                proof {
                    assert(kept@.drop_last() =~= kept_before);
                }
            }
            proof {
                let after = s.take(it.index() + 1);
                assert(entries_map(kept@) =~= entries_map(after).restrict(
                    entries_map(after).dom().filter(
                        |k: (Seq<char>, Seq<char>)| !in_section(k, section@),
                    ),
                ));
            }
        }
        proof {
            assert(s.take(s.len() as int) =~= s);
        }
        self.entries = kept;
    }
}

} // verus!

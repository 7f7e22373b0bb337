//! A small map from strings to strings, kept in the order in which the keys
//! were first inserted.

use vstd::prelude::*;
use vstd::set_lib::lemma_subset_equality;
use vstd::std_specs::cmp::PartialEqSpecImpl;
use vstd::string::*;
use crate::text::pair_views;

verus! {

/// Position of the first entry with the key `key`, or the number of entries
/// where there is none.
pub open spec fn position_of(keys: Seq<Seq<char>>, key: Seq<char>) -> int
    decreases keys.len(),
{
    if keys.len() == 0 {
        0
    } else if keys[0] == key {
        0
    } else {
        1 + position_of(keys.drop_first(), key)
    }
}

/// `position_of` finds the first entry with the key, where there is one.
pub proof fn lemma_position_of(keys: Seq<Seq<char>>, key: Seq<char>)
    ensures
        0 <= position_of(keys, key) <= keys.len(),
        position_of(keys, key) < keys.len() ==> keys[position_of(keys, key)] == key,
        forall|i: int| 0 <= i < position_of(keys, key) ==> keys[i] != key,
    decreases keys.len(),
{
    if keys.len() > 0 && keys[0] != key {
        let rest = keys.drop_first();
        lemma_position_of(rest, key);
        assert forall|i: int| 0 <= i < position_of(keys, key) implies keys[i] != key by {
            if i > 0 {
                assert(keys[i] == rest[i - 1]);
            }
        }
    }
}

/// The map that pairs of key and value make, a later pair going before an
/// earlier one with the same key.
pub open spec fn map_of_pairs(pairs: Seq<(Seq<char>, Seq<char>)>) -> Map<Seq<char>, Seq<char>>
    decreases pairs.len(),
{
    if pairs.len() == 0 {
        Map::empty()
    } else {
        map_of_pairs(pairs.drop_last()).insert(pairs.last().0, pairs.last().1)
    }
}

/// The keys of a sequence of entries.
pub open spec fn keys_of(entries: Seq<(String, String)>) -> Seq<Seq<char>> {
    entries.map_values(|e: (String, String)| e.0@)
}

/// The values of a sequence of entries.
pub open spec fn values_of(entries: Seq<(String, String)>) -> Seq<Seq<char>> {
    entries.map_values(|e: (String, String)| e.1@)
}

/// Map from strings to strings.
#[derive(Debug)]
pub struct StringMap {
    entries: Vec<(String, String)>,
}

impl StringMap {
    /// Keys of the entries, in their order.
    pub closed spec fn keys(&self) -> Seq<Seq<char>> {
        keys_of(self.entries@)
    }

    /// Values of the entries, in the order of their keys.
    pub closed spec fn values(&self) -> Seq<Seq<char>> {
        values_of(self.entries@)
    }

    #[verifier::type_invariant]
    closed spec fn keys_distinct(&self) -> bool {
        self.keys().no_duplicates()
    }

    /// A map without entries.
    pub fn new() -> (m: StringMap)
        ensures
            m@ == Map::<Seq<char>, Seq<char>>::empty(),
            m.keys() == Seq::<Seq<char>>::empty(),
    {
        let m = StringMap { entries: Vec::new() };
        assert(m.keys() =~= Seq::<Seq<char>>::empty());
        assert(m@ =~= Map::<Seq<char>, Seq<char>>::empty());
        m
    }

    /// The map that pairs of key and value make, a later pair going before
    /// an earlier one with the same key.
    pub fn from_pairs(pairs: &Vec<(String, String)>) -> (m: StringMap)
        ensures
            m@ == map_of_pairs(pair_views(pairs@)),
    {
        let mut m = StringMap::new();
        let ghost all = pair_views(pairs@);
        let mut i: usize = 0;
        assert(all.take(0) =~= Seq::<(Seq<char>, Seq<char>)>::empty());
        while i < pairs.len()
            invariant
                i <= pairs.len(),
                all == pair_views(pairs@),
                m@ == map_of_pairs(all.take(i as int)),
            decreases pairs.len() - i,
        {
            proof {
                let next = all.take(i + 1);
                assert(next.drop_last() =~= all.take(i as int));
                assert(next.last() == all[i as int]);
            }
            m.insert(pairs[i].0.clone(), pairs[i].1.clone());
            i += 1;
        }
        assert(all.take(pairs.len() as int) =~= all);
        m
    }

    /// Number of entries.
    pub fn len(&self) -> (n: usize)
        ensures
            n == self.keys().len(),
            n == self@.dom().len(),
    {
        proof {
            use_type_invariant(self);
            self.lemma_view_dom();
            self.keys().unique_seq_to_set();
        }
        self.entries.len()
    }

    /// The domain of the map is the set of its keys.
    pub proof fn lemma_view_dom(&self)
        ensures
            self@.dom() == self.keys().to_set(),
            self.keys().len() == self.values().len(),
    {
        assert(self@.dom() =~= self.keys().to_set());
    }

    /// Position of the entry with the key `key`.
    fn find(&self, key: &str) -> (at: Option<usize>)
        ensures
            at matches Some(i) ==> i < self.keys().len() && self.keys()[i as int] == key@,
            at is None ==> !self.keys().contains(key@),
    {
        let mut i: usize = 0;
        while i < self.entries.len()
            invariant
                i <= self.entries.len(),
                forall|j: int| 0 <= j < i ==> self.keys()[j] != key@,
            decreases self.entries.len() - i,
        {
            if self.entries[i].0.as_str().eq(key) {
                return Some(i);
            }
            i += 1;
        }
        None
    }

    /// The value stored under `key`.
    pub fn get(&self, key: &str) -> (value: Option<&String>)
        ensures
            value is Some <==> self@.contains_key(key@),
            value matches Some(v) ==> v@ == self@[key@],
    {
        proof {
            use_type_invariant(self);
        }
        match self.find(key) {
            Some(i) => {
                proof {
                    self.lemma_entry(i as int);
                }
                Some(&self.entries[i].1)
            },
            None => None,
        }
    }

    /// Key and value of the entry at position `i`.
    pub fn entry(&self, i: usize) -> (kv: (&String, &String))
        requires
            i < self.keys().len(),
        ensures
            kv.0@ == self.keys()[i as int],
            kv.1@ == self.values()[i as int],
            self@.contains_key(kv.0@),
            self@[kv.0@] == kv.1@,
    {
        proof {
            use_type_invariant(self);
            self.lemma_entry(i as int);
        }
        (&self.entries[i].0, &self.entries[i].1)
    }

    /// The entry at position `i` maps its key to its value.
    proof fn lemma_entry(&self, i: int)
        requires
            0 <= i < self.keys().len(),
            self.keys().no_duplicates(),
        ensures
            self@.contains_key(self.keys()[i]),
            self@[self.keys()[i]] == self.values()[i],
    {
        let key = self.keys()[i];
        lemma_position_of(self.keys(), key);
        assert(self.keys().contains(key));
    }

    /// A copy of the map.
    pub fn duplicate(&self) -> (copy: StringMap)
        ensures
            copy@ == self@,
            copy.keys() == self.keys(),
            copy.values() == self.values(),
    {
        proof {
            use_type_invariant(self);
        }
        let mut entries: Vec<(String, String)> = Vec::new();
        let mut i: usize = 0;
        while i < self.entries.len()
            invariant
                i <= self.entries.len(),
                entries@.len() == i,
                forall|j: int|
                    0 <= j < i ==> (#[trigger] entries@[j]).0@ == self.entries@[j].0@ && entries@[j].1@
                        == self.entries@[j].1@,
            decreases self.entries.len() - i,
        {
            entries.push((self.entries[i].0.clone(), self.entries[i].1.clone()));
            i += 1;
        }
        assert(keys_of(entries@) =~= self.keys());
        assert(values_of(entries@) =~= self.values());
        let copy = StringMap { entries };
        assert(copy@ =~= self@);
        copy
    }

    /// Stores `value` under `key`, in place of what was stored there.
    pub fn insert(&mut self, key: String, value: String)
        ensures
            final(self)@ == old(self)@.insert(key@, value@),
    {
        proof {
            use_type_invariant(&*self);
        }
        let ghost before = *self;
        match self.find(key.as_str()) {
            Some(i) => {
                let ghost k = key@;
                let ghost v = value@;
                let mut entries: Vec<(String, String)> = Vec::new();
                core::mem::swap(&mut entries, &mut self.entries);
                entries.set(i, (key, value));
                assert(keys_of(entries@) =~= before.keys());
                let updated = StringMap { entries };
                proof {
                    assert(updated.values() =~= before.values().update(i as int, v));
                    assert forall|q: Seq<char>| updated@.contains_key(q) implies #[trigger] updated@[q]
                        == before@.insert(k, v)[q] by {
                        lemma_position_of(before.keys(), q);
                    }
                    assert(updated@ =~= before@.insert(k, v));
                }
                *self = updated;
            },
            None => {
                let ghost k = key@;
                let ghost v = value@;
                let mut entries: Vec<(String, String)> = Vec::new();
                core::mem::swap(&mut entries, &mut self.entries);
                entries.push((key, value));
                assert(keys_of(entries@) =~= before.keys().push(k));
                let updated = StringMap { entries };
                proof {
                    assert(updated.values() =~= before.values().push(v));
                    assert forall|q: Seq<char>| updated@.contains_key(q) implies #[trigger] updated@[q]
                        == before@.insert(k, v)[q] by {
                        lemma_position_of(before.keys(), q);
                        lemma_position_of(updated.keys(), q);
                    }
                    assert forall|q: Seq<char>| before@.insert(k, v).contains_key(q) implies updated@.contains_key(q) by {
                        if q != k {
                            let at = choose|at: int| 0 <= at < before.keys().len() && before.keys()[at] == q;
                            assert(updated.keys()[at] == q);
                        } else {
                            assert(updated.keys()[before.keys().len() as int] == k);
                        }
                    }
                    assert(updated@ =~= before@.insert(k, v));
                }
                *self = updated;
            },
        }
    }
}

impl PartialEq for StringMap {
    /// Two maps are equal when they map the same keys to the same values.
    fn eq(&self, other: &StringMap) -> (equal: bool) {
        proof {
            use_type_invariant(self);
            use_type_invariant(other);
            self.lemma_view_dom();
            other.lemma_view_dom();
            self.keys().unique_seq_to_set();
            other.keys().unique_seq_to_set();
        }
        if self.entries.len() != other.entries.len() {
            return false;
        }
        let mut i: usize = 0;
        while i < self.entries.len()
            invariant
                i <= self.entries.len(),
                forall|j: int|
                    0 <= j < i ==> other@.contains_key(#[trigger] self.keys()[j]) && other@[self.keys()[j]]
                        == self.values()[j],
            decreases self.entries.len() - i,
        {
            proof {
                use_type_invariant(self);
                self.lemma_entry(i as int);
            }
            match other.get(self.entries[i].0.as_str()) {
                Some(value) => {
                    if !value.as_str().eq(self.entries[i].1.as_str()) {
                        return false;
                    }
                },
                None => {
                    return false;
                },
            }
            i += 1;
        }
        proof {
            use_type_invariant(self);
            assert forall|k: Seq<char>| self@.contains_key(k) implies other@.contains_key(k) && other@[k]
                == self@[k] by {
                let j = choose|j: int| 0 <= j < self.keys().len() && self.keys()[j] == k;
                self.lemma_entry(j);
            }
            assert(self@.dom().subset_of(other@.dom()));
            lemma_subset_equality(self@.dom(), other@.dom());
            assert(self@ =~= other@);
        }
        true
    }
}

impl PartialEqSpecImpl for StringMap {
    open spec fn obeys_eq_spec() -> bool {
        true
    }

    open spec fn eq_spec(&self, other: &StringMap) -> bool {
        self@ == other@
    }
}

impl Eq for StringMap {

}

impl Clone for StringMap {
    fn clone(&self) -> (copy: StringMap)
        ensures
            copy@ == self@,
    {
        self.duplicate()
    }
}

impl View for StringMap {
    type V = Map<Seq<char>, Seq<char>>;

    closed spec fn view(&self) -> Map<Seq<char>, Seq<char>> {
        Map::new(
            |k: Seq<char>| self.keys().contains(k),
            |k: Seq<char>| self.values()[position_of(self.keys(), k)],
        )
    }
}

} // verus!

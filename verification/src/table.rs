//! A table from keys to records, and a set of addresses.
use crate::address::Address;
use crate::address::Key;
use vstd::prelude::*;

verus! {

/// Records stored under distinct keys.
pub struct Table<K, V> {
    entries: Vec<(K, V)>,
}

/// No two entries carry the same key.
spec fn keys_distinct<K, V>(s: Seq<(K, V)>) -> bool {
    forall|i: int, j: int| 0 <= i < j < s.len() ==> (#[trigger] s[i]).0 != (#[trigger] s[j]).0
}

/// Some entry carries the key.
spec fn has_key<K, V>(s: Seq<(K, V)>, k: K) -> bool {
    exists|i: int| 0 <= i < s.len() && (#[trigger] s[i]).0 == k
}

/// The position of the entry that carries the key.
spec fn position<K, V>(s: Seq<(K, V)>, k: K) -> int {
    choose|i: int| 0 <= i < s.len() && (#[trigger] s[i]).0 == k
}

impl<K, V> View for Table<K, V> {
    type V = Map<K, V>;

    closed spec fn view(&self) -> Map<K, V> {
        Map::new(
            |k: K| has_key(self.entries@, k),
            |k: K| self.entries@[position(self.entries@, k)].1,
        )
    }
}

impl<K, V> Table<K, V> {
    #[verifier::type_invariant]
    spec fn distinct(self) -> bool {
        keys_distinct(self.entries@)
    }
}

proof fn lemma_entry<K, V>(t: Table<K, V>, i: int)
    requires
        keys_distinct(t.entries@),
        0 <= i < t.entries@.len(),
    ensures
        t@.contains_key(t.entries@[i].0),
        t@[t.entries@[i].0] == t.entries@[i].1,
{
    let k = t.entries@[i].0;
    assert(has_key(t.entries@, k));
    let p = position(t.entries@, k);
    assert(0 <= p < t.entries@.len() && t.entries@[p].0 == k);
    assert(p == i);
}

impl<K: Key, V> Table<K, V> {
    /// A table without records.
    pub fn new() -> (r: Table<K, V>)
        ensures
            r@ == Map::<K, V>::empty(),
    {
        let r = Table { entries: Vec::new() };
        assert(r@ =~= Map::<K, V>::empty());
        r
    }

    fn find(&self, key: &K) -> (r: Option<usize>)
        ensures
            r matches Some(i) ==> i < self.entries@.len() && self.entries@[i as int].0 == *key,
            r is None ==> !has_key(self.entries@, *key),
            keys_distinct(self.entries@),
    {
        proof {
            use_type_invariant(&*self);
        }
        let mut i: usize = 0;
        while i < self.entries.len()
            invariant
                i <= self.entries@.len(),
                forall|j: int| 0 <= j < i ==> (#[trigger] self.entries@[j]).0 != *key,
                keys_distinct(self.entries@),
            decreases self.entries@.len() - i,
        {
            if self.entries[i].0.same(key) {
                return Some(i);
            }
            i = i + 1;
        }
        None
    }

    /// Whether a record is stored under the key.
    pub fn contains(&self, key: &K) -> (r: bool)
        ensures
            r == self@.contains_key(*key),
    {
        match self.find(key) {
            Some(i) => {
                proof {
                    lemma_entry(*self, i as int);
                }
                true
            },
            None => false,
        }
    }

    /// The record stored under the key.
    pub fn get(&self, key: &K) -> (r: Option<&V>)
        ensures
            match r {
                Some(v) => self@.contains_key(*key) && *v == self@[*key],
                None => !self@.contains_key(*key),
            },
    {
        match self.find(key) {
            Some(i) => {
                proof {
                    lemma_entry(*self, i as int);
                }
                Some(&self.entries[i].1)
            },
            None => None,
        }
    }

    /// The keys and their records, each key once.
    pub fn entries(&self) -> (r: &Vec<(K, V)>)
        ensures
            forall|i: int|
                0 <= i < r@.len() ==> self@.contains_key((#[trigger] r@[i]).0) && self@[r@[i].0]
                    == r@[i].1,
            forall|k: K| #[trigger]
                self@.contains_key(k) ==> exists|i: int|
                    0 <= i < r@.len() && (#[trigger] r@[i]).0 == k,
            forall|i: int, j: int|
                0 <= i < j < r@.len() ==> (#[trigger] r@[i]).0 != (#[trigger] r@[j]).0,
    {
        proof {
            use_type_invariant(self);
            assert forall|i: int| 0 <= i < self.entries@.len() implies self@.contains_key(
                (#[trigger] self.entries@[i]).0,
            ) && self@[self.entries@[i].0] == self.entries@[i].1 by {
                lemma_entry(*self, i);
            }
        }
        &self.entries
    }

    /// Takes the record stored under the key out of the table.
    pub fn take(&mut self, key: &K) -> (r: Option<V>)
        ensures
            match r {
                Some(v) => old(self)@.contains_key(*key) && v == old(self)@[*key],
                None => !old(self)@.contains_key(*key),
            },
            final(self)@ == old(self)@.remove(*key),
    {
        let found = self.find(key);
        match found {
            Some(i) => {
                let ghost before = *self;
                let mut entries: Vec<(K, V)> = Vec::new();
                std::mem::swap(&mut entries, &mut self.entries);
                let entry = entries.remove(i);
                assert(entries@ == before.entries@.remove(i as int));
                assert(keys_distinct(entries@)) by {
                    assert forall|a: int, b: int| 0 <= a < b < entries@.len() implies (
                    #[trigger] entries@[a]).0 != (#[trigger] entries@[b]).0 by {
                        let a2: int = if a < i { a } else { a + 1 };
                        let b2: int = if b < i { b } else { b + 1 };
                        assert(before.entries@[a2].0 != before.entries@[b2].0);
                    }
                }
                self.entries = entries;
                proof {
                    lemma_entry(before, i as int);
                    let k0 = *key;
                    assert forall|k: K|
                        #![trigger self@.contains_key(k)]
                        self@.contains_key(k) == before@.remove(k0).contains_key(k) && (
                        self@.contains_key(k) ==> self@[k] == before@.remove(k0)[k]) by {
                        if has_key(self.entries@, k) {
                            let p = position(self.entries@, k);
                            let q: int = if p < i { p } else { p + 1 };
                            assert(before.entries@[q] == self.entries@[p]);
                            assert(before.entries@[q].0 != before.entries@[i as int].0);
                            lemma_entry(before, q);
                            lemma_entry(*self, p);
                        }
                        if has_key(before.entries@, k) && k != k0 {
                            let q = position(before.entries@, k);
                            let p: int = if q < i { q } else { q - 1 };
                            assert(before.entries@[q] == self.entries@[p]);
                            lemma_entry(before, q);
                            lemma_entry(*self, p);
                        }
                    }
                    assert(self@ =~= before@.remove(k0));
                }
                Some(entry.1)
            },
            None => {
                assert(self@.remove(*key) =~= self@);
                None
            },
        }
    }

    /// Stores the record under the key, in place of what was there.
    pub fn set(&mut self, key: K, value: V)
        ensures
            final(self)@ == old(self)@.insert(key, value),
    {
        let ghost at_entry = self@;
        let _ = self.take(&key);
        proof {
            use_type_invariant(&*self);
        }
        let ghost before = *self;
        let mut entries: Vec<(K, V)> = Vec::new();
        std::mem::swap(&mut entries, &mut self.entries);
        entries.push((key, value));
        let ghost last: int = before.entries@.len() as int;
        assert(!has_key(before.entries@, key)) by {
            assert(!before@.contains_key(key));
        }
        assert(keys_distinct(entries@)) by {
            assert forall|a: int, b: int| 0 <= a < b < entries@.len() implies (
            #[trigger] entries@[a]).0 != (#[trigger] entries@[b]).0 by {
                if b == last {
                    assert(before.entries@[a].0 != key);
                } else {
                    assert(before.entries@[a].0 != before.entries@[b].0);
                }
            }
        }
        self.entries = entries;
        proof {
            lemma_entry(*self, last);
            assert forall|k: K|
                #![trigger self@.contains_key(k)]
                self@.contains_key(k) == at_entry.insert(key, value).contains_key(k) && (
                self@.contains_key(k) ==> self@[k] == at_entry.insert(key, value)[k]) by {
                assert(before@.contains_key(k) == (k != key && at_entry.contains_key(k)));
                if has_key(self.entries@, k) && k != key {
                    let p = position(self.entries@, k);
                    assert(p != last);
                    assert(before.entries@[p] == self.entries@[p]);
                    lemma_entry(before, p);
                    lemma_entry(*self, p);
                }
                if has_key(before.entries@, k) {
                    let p = position(before.entries@, k);
                    assert(before.entries@[p] == self.entries@[p]);
                    lemma_entry(before, p);
                    lemma_entry(*self, p);
                }
            }
            assert(self@ =~= at_entry.insert(key, value));
        }
    }

    /// Removes the record stored under the key.
    pub fn remove(&mut self, key: &K)
        ensures
            final(self)@ == old(self)@.remove(*key),
    {
        let _ = self.take(key);
    }
}

/// A set of addresses.
pub struct AddressSet {
    members: Table<Address, ()>,
}

impl View for AddressSet {
    type V = Set<Address>;

    closed spec fn view(&self) -> Set<Address> {
        self.members@.dom()
    }
}

impl AddressSet {
    /// The set without members.
    pub fn new() -> (r: AddressSet)
        ensures
            r@ == Set::<Address>::empty(),
    {
        let r = AddressSet { members: Table::new() };
        assert(r@ =~= Set::<Address>::empty());
        r
    }

    /// Whether the address is a member.
    pub fn contains(&self, who: &Address) -> (r: bool)
        ensures
            r == self@.contains(*who),
    {
        self.members.contains(who)
    }

    /// Makes the address a member.
    pub fn insert(&mut self, who: Address)
        ensures
            final(self)@ == old(self)@.insert(who),
    {
        self.members.set(who, ());
        assert(self@ =~= old(self)@.insert(who));
    }

    /// Ends the address's membership.
    pub fn remove(&mut self, who: &Address)
        ensures
            final(self)@ == old(self)@.remove(*who),
    {
        self.members.remove(who);
        assert(self@ =~= old(self)@.remove(*who));
    }
}

} // verus!

//! A finite map keyed by address, with a mathematical map as its view.

use crate::address::Address;
use vstd::prelude::*;

verus! {

/// A finite map from addresses to values, kept as a list in which no address occurs twice.
pub struct AddressMap<V> {
    entries: Vec<(Address, V)>,
}

spec fn key_at<V>(entries: Seq<(Address, V)>, key: Address, i: int) -> bool {
    0 <= i < entries.len() && entries[i].0 == key
}

impl<V> AddressMap<V> {
    #[verifier::type_invariant]
    spec fn distinct(self) -> bool {
        forall|i: int, j: int|
            0 <= i < j < self.entries@.len() ==> self.entries@[i].0 != self.entries@[j].0
    }

    /// The map that the list stands for.
    pub closed spec fn view(&self) -> Map<Address, V> {
        Map::new(
            |k: Address| exists|i: int| key_at(self.entries@, k, i),
            |k: Address| self.entries@[choose|i: int| key_at(self.entries@, k, i)].1,
        )
    }

}

impl<V: Copy> AddressMap<V> {
    /// The empty map.
    pub fn new() -> (m: Self)
        ensures
            m@ == Map::<Address, V>::empty(),
    {
        let m = AddressMap { entries: Vec::new() };
        proof {
            assert(m@ =~= Map::<Address, V>::empty());
        }
        m
    }

    fn position(&self, key: &Address) -> (r: Option<usize>)
        ensures
            match r {
                Some(i) => key_at(self.entries@, *key, i as int),
                None => forall|i: int| !key_at(self.entries@, *key, i),
            },
    {
        let mut i: usize = 0;
        while i < self.entries.len()
            invariant
                i <= self.entries@.len(),
                forall|j: int| 0 <= j < i ==> self.entries@[j].0 != *key,
            decreases self.entries@.len() - i,
        {
            if self.entries[i].0 == *key {
                return Some(i);
            }
            i = i + 1;
        }
        None
    }

    /// The value stored under `key`, if any.
    pub fn get(&self, key: &Address) -> (r: Option<V>)
        ensures
            r == (if self@.contains_key(*key) {
                Some(self@[*key])
            } else {
                None
            }),
    {
        proof {
            use_type_invariant(self);
        }
        match self.position(key) {
            Some(i) => {
                assert(key_at(self.entries@, *key, i as int));
                Some(self.entries[i].1)
            },
            None => None,
        }
    }

    /// Whether anything is stored under `key`.
    pub fn contains(&self, key: &Address) -> (r: bool)
        ensures
            r == self@.contains_key(*key),
    {
        match self.position(key) {
            Some(i) => {
                assert(key_at(self.entries@, *key, i as int));
                true
            },
            None => false,
        }
    }

    /// Stores `value` under `key`, replacing what was there.
    pub fn insert(&mut self, key: Address, value: V)
        ensures
            final(self)@ == old(self)@.insert(key, value),
    {
        proof {
            use_type_invariant(&*self);
        }
        let found = self.position(&key);
        let mut entries: Vec<(Address, V)> = Vec::new();
        std::mem::swap(&mut entries, &mut self.entries);
        let ghost before = entries@;
        match found {
            Some(i) => {
                entries.set(i, (key, value));
            },
            None => {
                entries.push((key, value));
            },
        }
        let ghost after = entries@;
        proof {
            assert forall|i: int, j: int| 0 <= i < j < after.len() implies after[i].0
                != after[j].0 by {
                match found {
                    Some(p) => {
                        assert(key_at(before, key, p as int));
                        assert(after[i].0 == before[i].0);
                        assert(after[j].0 == before[j].0);
                    },
                    None => {
                        assert(!key_at(before, key, i));
                        if j < before.len() {
                            assert(after[j].0 == before[j].0);
                        }
                    },
                }
            }
        }
        self.entries = entries;
        proof {
            assert forall|k: Address| #[trigger]
                final(self)@.contains_key(k) == old(self)@.insert(key, value).contains_key(k) by {
                if exists|i: int| key_at(after, k, i) {
                    let i = choose|i: int| key_at(after, k, i);
                    if k != key {
                        assert(key_at(before, k, i));
                    }
                }
                if k == key {
                    match found {
                        Some(i) => assert(key_at(after, k, i as int)),
                        None => assert(key_at(after, k, before.len() as int)),
                    }
                } else if exists|i: int| key_at(before, k, i) {
                    let i = choose|i: int| key_at(before, k, i);
                    assert(key_at(after, k, i));
                }
            }
            assert forall|k: Address| #[trigger]
                final(self)@.contains_key(k) implies final(self)@[k] == old(self)@.insert(
                key,
                value,
            )[k] by {
                let i = choose|i: int| key_at(after, k, i);
                assert(key_at(after, k, i));
                if k != key {
                    assert(key_at(before, k, i));
                    let j = choose|j: int| key_at(before, k, j);
                    assert(key_at(before, k, j));
                    assert(i == j);
                    assert(after[i] == before[i]);
                } else {
                    let p = match found {
                        Some(p) => p as int,
                        None => before.len() as int,
                    };
                    assert(key_at(after, k, p));
                    assert(i == p);
                }
            }
            assert(final(self)@ =~= old(self)@.insert(key, value));
        }
    }

    /// Removes what is stored under `key`, if anything.
    pub fn remove(&mut self, key: &Address)
        ensures
            final(self)@ == old(self)@.remove(*key),
    {
        proof {
            use_type_invariant(&*self);
        }
        let found = self.position(key);
        let mut entries: Vec<(Address, V)> = Vec::new();
        std::mem::swap(&mut entries, &mut self.entries);
        let ghost before = entries@;
        match found {
            Some(i) => {
                entries.remove(i);
            },
            None => {},
        }
        let ghost after = entries@;
        self.entries = entries;
        proof {
            assert forall|k: Address| #[trigger]
                final(self)@.contains_key(k) == old(self)@.remove(*key).contains_key(k) by {
                match found {
                    Some(p) => {
                        if exists|i: int| key_at(after, k, i) {
                            let i = choose|i: int| key_at(after, k, i);
                            if i < p {
                                assert(key_at(before, k, i));
                            } else {
                                assert(key_at(before, k, i + 1));
                            }
                        }
                        if k != *key && exists|i: int| key_at(before, k, i) {
                            let i = choose|i: int| key_at(before, k, i);
                            if i < p {
                                assert(key_at(after, k, i));
                            } else {
                                assert(key_at(after, k, i - 1));
                            }
                        }
                    },
                    None => {},
                }
            }
            assert forall|k: Address| #[trigger]
                final(self)@.contains_key(k) implies final(self)@[k] == old(self)@.remove(
                *key,
            )[k] by {
                let i = choose|i: int| key_at(after, k, i);
                let j = choose|j: int| key_at(before, k, j);
                match found {
                    Some(p) => {
                        if i < p {
                            assert(key_at(before, k, i));
                        } else {
                            assert(key_at(before, k, i + 1));
                        }
                    },
                    None => {},
                }
            }
            assert(final(self)@ =~= old(self)@.remove(*key));
        }
    }

    /// A copy that holds the same map.
    pub fn snapshot(&self) -> (c: Self)
        ensures
            c@ == self@,
    {
        proof {
            use_type_invariant(self);
        }
        let mut entries: Vec<(Address, V)> = Vec::new();
        let mut i: usize = 0;
        while i < self.entries.len()
            invariant
                i <= self.entries@.len(),
                entries@ == self.entries@.subrange(0, i as int),
            decreases self.entries@.len() - i,
        {
            entries.push(self.entries[i]);
            proof {
                assert(entries@ =~= self.entries@.subrange(0, i + 1));
            }
            i = i + 1;
        }
        proof {
            assert(entries@ =~= self.entries@);
        }
        let c = AddressMap { entries };
        proof {
            assert(c@ =~= self@);
        }
        c
    }
}

} // verus!

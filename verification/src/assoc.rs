//! A string-keyed association list with a `Map` view.
//!
//! Both the key index and the in-memory record store are maps from string
//! keys to values; this module provides the one verified implementation they
//! share. Keys are kept unique, so the list denotes exactly the finite map
//! given by [`assoc_map`].

use vstd::prelude::*;

verus! {

/// The map denoted by a sequence of key-value entries; a later entry for the
/// same key wins.
pub open spec fn assoc_map<V: View>(entries: Seq<(String, V)>) -> Map<Seq<char>, V::V>
    decreases entries.len(),
{
    if entries.len() == 0 {
        Map::empty()
    } else {
        assoc_map(entries.drop_last()).insert(entries.last().0@, entries.last().1@)
    }
}

/// No two entries share a key.
pub open spec fn unique_keys<V>(entries: Seq<(String, V)>) -> bool {
    forall|i: int, j: int|
        0 <= i < j < entries.len() ==> entries[i].0@ != entries[j].0@
}

proof fn lemma_unique_drop_last<V>(entries: Seq<(String, V)>)
    requires
        unique_keys(entries),
        entries.len() > 0,
    ensures
        unique_keys(entries.drop_last()),
{
    assert forall|i: int, j: int|
        0 <= i < j < entries.drop_last().len() implies entries.drop_last()[i].0@
        != entries.drop_last()[j].0@ by {
        assert(entries[i].0@ != entries[j].0@);
    }
}

/// A key is in the denoted map exactly when some entry carries it.
proof fn lemma_assoc_map_contains<V: View>(entries: Seq<(String, V)>, k: Seq<char>)
    ensures
        assoc_map(entries).contains_key(k) <==> (exists|i: int|
            0 <= i < entries.len() && entries[i].0@ == k),
    decreases entries.len(),
{
    if entries.len() > 0 {
        lemma_assoc_map_contains(entries.drop_last(), k);
        if entries.last().0@ == k {
            assert(entries[entries.len() - 1].0@ == k);
        } else {
            if exists|i: int| 0 <= i < entries.len() && entries[i].0@ == k {
                let i = choose|i: int| 0 <= i < entries.len() && entries[i].0@ == k;
                assert(entries.drop_last()[i].0@ == k);
            }
            if exists|i: int| 0 <= i < entries.drop_last().len() && entries.drop_last()[i].0@
                == k {
                let i = choose|i: int|
                    0 <= i < entries.drop_last().len() && entries.drop_last()[i].0@ == k;
                assert(entries[i].0@ == k);
            }
        }
    }
}

/// With unique keys, the entry at index `i` gives the value of its key.
proof fn lemma_assoc_map_get<V: View>(entries: Seq<(String, V)>, i: int)
    requires
        unique_keys(entries),
        0 <= i < entries.len(),
    ensures
        assoc_map(entries).contains_key(entries[i].0@),
        assoc_map(entries)[entries[i].0@] == entries[i].1@,
    decreases entries.len(),
{
    if i < entries.len() - 1 {
        lemma_unique_drop_last(entries);
        lemma_assoc_map_get(entries.drop_last(), i);
        assert(entries.drop_last()[i] == entries[i]);
        assert(entries[i].0@ != entries.last().0@);
    }
}

/// Removing the entry at index `i` removes exactly its key from the map.
proof fn lemma_assoc_map_remove<V: View>(entries: Seq<(String, V)>, i: int)
    requires
        unique_keys(entries),
        0 <= i < entries.len(),
    ensures
        unique_keys(entries.remove(i)),
        assoc_map(entries.remove(i)) == assoc_map(entries).remove(entries[i].0@),
    decreases entries.len(),
{
    assert forall|a: int, b: int|
        0 <= a < b < entries.remove(i).len() implies entries.remove(i)[a].0@
        != entries.remove(i)[b].0@ by {
        let a0 = if a < i { a } else { a + 1 };
        let b0 = if b < i { b } else { b + 1 };
        assert(entries.remove(i)[a] == entries[a0]);
        assert(entries.remove(i)[b] == entries[b0]);
        assert(entries[a0].0@ != entries[b0].0@);
    }
    if i == entries.len() - 1 {
        assert(entries.remove(i) =~= entries.drop_last());
        lemma_unique_drop_last(entries);
        lemma_assoc_map_contains(entries.drop_last(), entries[i].0@);
        assert forall|j: int| 0 <= j < entries.drop_last().len() implies entries.drop_last()[j].0@
            != entries[i].0@ by {
            assert(entries[j].0@ != entries[i].0@);
        }
        assert(!assoc_map(entries.drop_last()).contains_key(entries[i].0@));
        assert(assoc_map(entries.drop_last()) =~= assoc_map(entries).remove(entries[i].0@));
    } else {
        lemma_unique_drop_last(entries);
        lemma_assoc_map_remove(entries.drop_last(), i);
        assert(entries.remove(i).drop_last() =~= entries.drop_last().remove(i));
        assert(entries.remove(i).last() == entries.last());
        assert(entries.drop_last()[i] == entries[i]);
        assert(entries[i].0@ != entries.last().0@);
        assert(assoc_map(entries.remove(i)) == assoc_map(entries.drop_last().remove(i)).insert(
            entries.last().0@,
            entries.last().1@,
        ));
        assert(assoc_map(entries).remove(entries[i].0@) =~= assoc_map(entries.drop_last()).remove(
            entries[i].0@,
        ).insert(entries.last().0@, entries.last().1@));
    }
}

/// With unique keys, the denoted map has one element per entry.
proof fn lemma_assoc_map_len<V: View>(entries: Seq<(String, V)>)
    requires
        unique_keys(entries),
    ensures
        assoc_map(entries).dom().finite(),
        assoc_map(entries).dom().len() == entries.len(),
    decreases entries.len(),
{
    if entries.len() > 0 {
        lemma_unique_drop_last(entries);
        lemma_assoc_map_len(entries.drop_last());
        lemma_assoc_map_contains(entries.drop_last(), entries.last().0@);
        assert forall|j: int| 0 <= j < entries.drop_last().len() implies entries.drop_last()[j].0@
            != entries.last().0@ by {
            assert(entries[j].0@ != entries.last().0@);
        }
        assert(!assoc_map(entries.drop_last()).contains_key(entries.last().0@));
    }
}

/// A list of key-value entries with pairwise-distinct keys.
pub struct AssocList<V> {
    entries: Vec<(String, V)>,
}

impl<V: View> View for AssocList<V> {
    type V = Map<Seq<char>, V::V>;

    closed spec fn view(&self) -> Map<Seq<char>, V::V> {
        assoc_map(self.entries@)
    }
}

impl<V> AssocList<V> {
    #[verifier::type_invariant]
    spec fn inv(self) -> bool {
        unique_keys(self.entries@)
    }
}

impl<V: View> AssocList<V> {
    pub fn new() -> (r: Self)
        ensures
            r@ == Map::<Seq<char>, V::V>::empty(),
    {
        AssocList { entries: Vec::new() }
    }

    /// The index of the entry carrying `key`, if any.
    fn index_of(&self, key: &str) -> (r: Option<usize>)
        ensures
            match r {
                Some(i) => i < self.entries@.len() && self.entries@[i as int].0@ == key@,
                None => forall|j: int|
                    0 <= j < self.entries@.len() ==> self.entries@[j].0@ != key@,
            },
    {
        let owned: String = key.to_owned();
        let n = self.entries.len();
        let mut i: usize = 0;
        while i < n
            invariant
                i <= n,
                n == self.entries@.len(),
                owned@ == key@,
                forall|j: int| 0 <= j < i ==> self.entries@[j].0@ != key@,
            decreases n - i,
        {
            if self.entries[i].0 == owned {
                return Some(i);
            }
            i = i + 1;
        }
        None
    }

    pub fn get(&self, key: &str) -> (r: Option<&V>)
        ensures
            match r {
                Some(v) => self@.contains_key(key@) && v@ == self@[key@],
                None => !self@.contains_key(key@),
            },
    {
        proof {
            use_type_invariant(&*self);
        }
        match self.index_of(key) {
            Some(i) => {
                proof {
                    lemma_assoc_map_get(self.entries@, i as int);
                }
                Some(&self.entries[i].1)
            },
            None => {
                proof {
                    lemma_assoc_map_contains(self.entries@, key@);
                }
                None
            },
        }
    }

    pub fn remove(&mut self, key: &str) -> (r: Option<V>)
        ensures
            final(self)@ == old(self)@.remove(key@),
            match r {
                Some(v) => old(self)@.contains_key(key@) && v@ == old(self)@[key@],
                None => !old(self)@.contains_key(key@),
            },
    {
        proof {
            use_type_invariant(&*self);
        }
        let idx = self.index_of(key);
        let mut entries: Vec<(String, V)> = Vec::new();
        std::mem::swap(&mut entries, &mut self.entries);
        match idx {
            Some(i) => {
                proof {
                    lemma_assoc_map_get(entries@, i as int);
                    lemma_assoc_map_remove(entries@, i as int);
                }
                let pair = entries.remove(i);
                self.entries = entries;
                Some(pair.1)
            },
            None => {
                proof {
                    lemma_assoc_map_contains(entries@, key@);
                    assert(assoc_map(entries@) =~= assoc_map(entries@).remove(key@));
                }
                self.entries = entries;
                None
            },
        }
    }

    pub fn insert(&mut self, key: &str, value: V)
        ensures
            final(self)@ == old(self)@.insert(key@, value@),
    {
        self.remove(key);
        proof {
            use_type_invariant(&*self);
        }
        let mut entries: Vec<(String, V)> = Vec::new();
        std::mem::swap(&mut entries, &mut self.entries);
        let ghost pre = entries@;
        entries.push((key.to_owned(), value));
        proof {
            lemma_assoc_map_contains(pre, key@);
            assert(forall|j: int| 0 <= j < pre.len() ==> pre[j].0@ != key@);
            assert(entries@.drop_last() =~= pre);
            assert(assoc_map(entries@) == assoc_map(pre).insert(key@, value@));
            assert(old(self)@.remove(key@).insert(key@, value@) =~= old(self)@.insert(
                key@,
                value@,
            ));
        }
        self.entries = entries;
    }

    pub fn len(&self) -> (n: usize)
        ensures
            n == self@.dom().len(),
            self@.dom().finite(),
    {
        proof {
            use_type_invariant(&*self);
            lemma_assoc_map_len(self.entries@);
        }
        self.entries.len()
    }

    /// The entries as plain pairs, one per key of the map.
    pub fn pairs(&self) -> (r: &Vec<(String, V)>)
        ensures
            r@.len() == self@.dom().len(),
            forall|i: int|
                0 <= i < r@.len() ==> #[trigger] self@.contains_key(r@[i].0@) && self@[r@[i].0@]
                    == r@[i].1@,
    {
        proof {
            use_type_invariant(&*self);
            lemma_assoc_map_len(self.entries@);
            assert forall|i: int| 0 <= i < self.entries@.len() implies #[trigger] self@.contains_key(
                self.entries@[i].0@,
            ) && self@[self.entries@[i].0@] == self.entries@[i].1@ by {
                lemma_assoc_map_get(self.entries@, i);
            }
        }
        &self.entries
    }
}

impl AssocList<String> {
    /// A copy of the list denoting the same map.
    pub fn duplicate(&self) -> (r: Self)
        ensures
            r@ == self@,
    {
        proof {
            use_type_invariant(&*self);
        }
        let n = self.entries.len();
        let mut entries: Vec<(String, String)> = Vec::new();
        let mut i: usize = 0;
        while i < n
            invariant
                i <= n,
                n == self.entries@.len(),
                entries@ =~= self.entries@.subrange(0, i as int),
            decreases n - i,
        {
            let pair = &self.entries[i];
            entries.push((pair.0.clone(), pair.1.clone()));
            proof {
                assert(entries@ =~= self.entries@.subrange(0, i + 1));
            }
            i = i + 1;
        }
        proof {
            assert(entries@ =~= self.entries@);
        }
        AssocList { entries }
    }
}

} // verus!

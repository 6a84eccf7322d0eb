//! The key index: one aggregate mapping from a composite key to a user uuid.
//!
//! The composite key is the deterministic concatenation `hash ++ pub_key`;
//! writer and reader must compose it identically for lookups to hit.

use vstd::prelude::*;
use vstd::string::StringExecFns;
use crate::assoc::AssocList;

verus! {

/// The composite index key for a record: its hash followed by its public key.
pub open spec fn composite_key(hash: Seq<char>, pub_key: Seq<char>) -> Seq<char> {
    hash + pub_key
}

/// For one public key, distinct hashes compose distinct composite keys.
pub proof fn lemma_composite_key_hash_injective(h1: Seq<char>, h2: Seq<char>, p: Seq<char>)
    requires
        composite_key(h1, p) == composite_key(h2, p),
    ensures
        h1 == h2,
{
    assert((h1 + p).len() == h1.len() + p.len());
    assert((h2 + p).len() == h2.len() + p.len());
    assert forall|i: int| 0 <= i < h1.len() implies h1[i] == h2[i] by {
        assert((h1 + p)[i] == h1[i]);
        assert((h2 + p)[i] == h2[i]);
    }
    assert(h1 =~= h2);
}

/// The index from composite keys (`hash ++ pub_key`) to user uuids.
pub struct PubKeys {
    pub_keys: AssocList<String>,
}

impl View for PubKeys {
    type V = Map<Seq<char>, Seq<char>>;

    closed spec fn view(&self) -> Map<Seq<char>, Seq<char>> {
        self.pub_keys@
    }
}

impl Clone for PubKeys {
    fn clone(&self) -> (res: Self)
        ensures
            res@ == self@,
    {
        PubKeys { pub_keys: self.pub_keys.duplicate() }
    }
}

impl PubKeys {
    /// An empty index.
    pub fn default() -> (r: Self)
        ensures
            r@ == Map::<Seq<char>, Seq<char>>::empty(),
    {
        PubKeys { pub_keys: AssocList::new() }
    }

    /// Composes the index key for `(hash, pub_key)`.
    pub fn key(hash: &str, pub_key: &str) -> (r: String)
        ensures
            r@ == composite_key(hash@, pub_key@),
    {
        let mut s: String = hash.to_owned();
        s.append(pub_key);
        s
    }

    /// Maps `key` to `user_uuid`, overwriting any previous mapping.
    pub fn add_user_uuid(&mut self, user_uuid: &str, key: &str) -> (ret: &mut Self)
        ensures
            (*ret)@ == old(self)@.insert(key@, user_uuid@),
            *final(self) == *final(ret),
    {
        self.pub_keys.insert(key, user_uuid.to_owned());
        self
    }

    /// The uuid mapped by `key`, if any.
    pub fn get_user_uuid(&self, key: &str) -> (r: Option<&String>)
        ensures
            match r {
                Some(uuid) => self@.contains_key(key@) && uuid@ == self@[key@],
                None => !self@.contains_key(key@),
            },
    {
        self.pub_keys.get(key)
    }

    /// Unmaps `key`, returning the uuid it mapped, if any.
    pub fn remove_key(&mut self, key: &str) -> (r: Option<String>)
        ensures
            final(self)@ == old(self)@.remove(key@),
            match r {
                Some(uuid) => old(self)@.contains_key(key@) && uuid@ == old(self)@[key@],
                None => !old(self)@.contains_key(key@),
            },
    {
        self.pub_keys.remove(key)
    }

    /// How many composite keys are mapped.
    pub fn num_keys(&self) -> (n: usize)
        ensures
            n == self@.dom().len(),
            self@.dom().finite(),
    {
        self.pub_keys.len()
    }

    /// The index as plain pairs, one per mapped composite key.
    pub fn pairs(&self) -> (r: &Vec<(String, String)>)
        ensures
            r@.len() == self@.dom().len(),
            forall|i: int|
                0 <= i < r@.len() ==> #[trigger] self@.contains_key(r@[i].0@) && self@[r@[i].0@]
                    == r@[i].1@,
    {
        self.pub_keys.pairs()
    }
}

} // verus!

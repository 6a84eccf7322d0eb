//! The user repository and index persistence, over the record store.
//!
//! User records live under the reserved namespace `user:<uuid>`; the
//! aggregate key index lives under the single fixed key `keys`. Every read
//! goes to the store; the index is loaded whole, modified, and saved back
//! whole.

use vstd::prelude::*;
use vstd::string::StringExecFns;
use crate::pub_keys::PubKeys;
use crate::storage_client::{MemoryStorageClient, StorageError, StorageValue, StorageValueView};
use crate::user::{User, UserView};

verus! {

/// The store key of the user record with the given uuid.
pub open spec fn spec_user_key(uuid: Seq<char>) -> Seq<char> {
    "user:"@ + uuid
}

/// The store key of the aggregate key index.
pub open spec fn spec_keys_key() -> Seq<char> {
    "keys"@
}

proof fn lemma_user_key_injective(a: Seq<char>, b: Seq<char>)
    requires
        spec_user_key(a) == spec_user_key(b),
    ensures
        a == b,
{
    reveal_strlit("user:");
    assert(a =~= spec_user_key(a).skip(5));
    assert(b =~= spec_user_key(b).skip(5));
}

proof fn lemma_user_key_not_keys_key(u: Seq<char>)
    ensures
        spec_user_key(u) != spec_keys_key(),
{
    reveal_strlit("user:");
    reveal_strlit("keys");
    assert(spec_user_key(u).len() == 5 + u.len());
}

/// The repository of user records and of the aggregate key index.
pub struct UserCLient {
    client: MemoryStorageClient,
}

impl UserCLient {
    /// Every stored value sits under its proper key: the index under `keys`,
    /// and each user record under `user:<uuid>` for its own uuid.
    #[verifier::type_invariant]
    spec fn inv(self) -> bool {
        forall|k: Seq<char>| #[trigger]
            self.client@.contains_key(k) ==> match self.client@[k] {
                StorageValueView::Keys(_) => k == spec_keys_key(),
                StorageValueView::User(u) => k == spec_user_key(u.uuid),
            }
    }

    /// The user records in the store, keyed by uuid.
    pub closed spec fn users(&self) -> Map<Seq<char>, UserView> {
        Map::new(
            |u: Seq<char>|
                self.client@.contains_key(spec_user_key(u)) && self.client@[spec_user_key(
                    u,
                )] is User,
            |u: Seq<char>| self.client@[spec_user_key(u)]->User_0,
        )
    }

    /// The aggregate key index in the store; absent or mis-shaped data
    /// denotes the empty index.
    pub closed spec fn keys(&self) -> Map<Seq<char>, Seq<char>> {
        if self.client@.contains_key(spec_keys_key()) && self.client@[spec_keys_key()] is Keys {
            self.client@[spec_keys_key()]->Keys_0
        } else {
            Map::empty()
        }
    }

    /// A repository over an empty store.
    pub fn new() -> (r: Self)
        ensures
            r.users() == Map::<Seq<char>, UserView>::empty(),
            r.keys() == Map::<Seq<char>, Seq<char>>::empty(),
    {
        let r = UserCLient { client: MemoryStorageClient::new() };
        proof {
            assert(r.users() =~= Map::<Seq<char>, UserView>::empty());
        }
        r
    }

    fn user_key(uuid: &str) -> (r: String)
        ensures
            r@ == spec_user_key(uuid@),
    {
        let mut s: String = "user:".to_owned();
        s.append(uuid);
        s
    }

    /// The record stored for `uuid`; absent on a miss or on mis-shaped data.
    /// A stored record always carries the uuid it is keyed by.
    pub fn get_user(&self, uuid: &str) -> (r: Option<User>)
        ensures
            match r {
                Some(u) => self.users().contains_key(uuid@) && u@ == self.users()[uuid@]
                    && u@.uuid == uuid@,
                None => !self.users().contains_key(uuid@),
            },
    {
        proof {
            use_type_invariant(&*self);
            if self.client@.contains_key(spec_user_key(uuid@)) && self.client@[spec_user_key(
                uuid@,
            )] is User {
                lemma_user_key_injective(
                    self.client@[spec_user_key(uuid@)]->User_0.uuid,
                    uuid@,
                );
            }
        }
        let key = Self::user_key(uuid);
        match self.client.get(key.as_str()) {
            Some(value) => match value {
                StorageValue::User(u) => Some(u.clone()),
                StorageValue::Keys(_) => None,
            },
            None => None,
        }
    }

    /// Writes the record `(uuid, pub_key, hash)` under `user:<uuid>`,
    /// overwriting any record there, and returns the stored record. The
    /// index is not touched; that is the caller's responsibility.
    pub fn put_user(&mut self, uuid: &str, pub_key: &str, hash: &str) -> (r: Result<
        User,
        StorageError,
    >)
        ensures
            r matches Ok(u) && u@ == (UserView { uuid: uuid@, pub_key: pub_key@, hash: hash@ }),
            final(self).users() == old(self).users().insert(
                uuid@,
                UserView { uuid: uuid@, pub_key: pub_key@, hash: hash@ },
            ),
            final(self).keys() == old(self).keys(),
    {
        proof {
            use_type_invariant(&*self);
        }
        let user = User::new(Some(uuid.to_owned()), pub_key.to_owned(), hash.to_owned());
        let stored = user.clone();
        let key = Self::user_key(uuid);
        let mut client = MemoryStorageClient::new();
        std::mem::swap(&mut client, &mut self.client);
        let ghost pre = *old(self);
        match client.set(key.as_str(), StorageValue::User(user)) {
            Ok(_) => {},
            Err(_) => {},
        }
        proof {
            assert forall|k: Seq<char>| #[trigger] client@.contains_key(k) implies match client@[k] {
                StorageValueView::Keys(_) => k == spec_keys_key(),
                StorageValueView::User(u) => k == spec_user_key(u.uuid),
            } by {
                if k != spec_user_key(uuid@) {
                    assert(pre.client@.contains_key(k));
                }
            }
        }
        self.client = client;
        proof {
            assert forall|u: Seq<char>| u != uuid@ implies #[trigger] spec_user_key(u)
                != spec_user_key(uuid@) by {
                if spec_user_key(u) == spec_user_key(uuid@) {
                    lemma_user_key_injective(u, uuid@);
                }
            }
            assert(self.users() =~= pre.users().insert(
                uuid@,
                UserView { uuid: uuid@, pub_key: pub_key@, hash: hash@ },
            ));
            lemma_user_key_not_keys_key(uuid@);
        }
        Ok(stored)
    }

    /// Removes the record stored for `uuid`; true exactly when one existed.
    /// The index is not touched.
    pub fn delete_user(&mut self, uuid: &str) -> (r: bool)
        ensures
            r == old(self).users().contains_key(uuid@),
            final(self).users() == old(self).users().remove(uuid@),
            final(self).keys() == old(self).keys(),
    {
        proof {
            use_type_invariant(&*self);
        }
        let key = Self::user_key(uuid);
        let mut client = MemoryStorageClient::new();
        std::mem::swap(&mut client, &mut self.client);
        let ghost pre = *old(self);
        let r = client.delete(key.as_str());
        proof {
            if pre.client@.contains_key(spec_user_key(uuid@)) {
                assert(pre.client@[spec_user_key(uuid@)] is User) by {
                    if pre.client@[spec_user_key(uuid@)] is Keys {
                        lemma_user_key_not_keys_key(uuid@);
                    }
                }
            }
            assert forall|k: Seq<char>| #[trigger] client@.contains_key(k) implies match client@[k] {
                StorageValueView::Keys(_) => k == spec_keys_key(),
                StorageValueView::User(u) => k == spec_user_key(u.uuid),
            } by {
                assert(pre.client@.contains_key(k));
            }
        }
        self.client = client;
        proof {
            assert forall|u: Seq<char>| u != uuid@ implies #[trigger] spec_user_key(u)
                != spec_user_key(uuid@) by {
                if spec_user_key(u) == spec_user_key(uuid@) {
                    lemma_user_key_injective(u, uuid@);
                }
            }
            assert(self.users() =~= pre.users().remove(uuid@));
            lemma_user_key_not_keys_key(uuid@);
        }
        r
    }

    /// Loads the aggregate key index; an absent or mis-shaped aggregate
    /// record denotes the empty index, never an error.
    pub fn get_keys(&self) -> (r: Result<PubKeys, StorageError>)
        ensures
            r matches Ok(keys) && keys@ == self.keys(),
    {
        match self.client.get("keys") {
            Some(value) => match value {
                StorageValue::Keys(keys) => Ok(keys.clone()),
                StorageValue::User(_) => Ok(PubKeys::default()),
            },
            None => Ok(PubKeys::default()),
        }
    }

    /// Saves `keys` as the whole aggregate key index.
    pub fn save_pub_keys(&mut self, keys: PubKeys) -> (r: Result<(), StorageError>)
        ensures
            r is Ok,
            final(self).keys() == keys@,
            final(self).users() == old(self).users(),
    {
        proof {
            use_type_invariant(&*self);
        }
        let mut client = MemoryStorageClient::new();
        std::mem::swap(&mut client, &mut self.client);
        let ghost pre = *old(self);
        let ghost keys_view = keys@;
        match client.set("keys", StorageValue::Keys(keys)) {
            Ok(_) => {},
            Err(_) => {},
        }
        proof {
            assert forall|k: Seq<char>| #[trigger] client@.contains_key(k) implies match client@[k] {
                StorageValueView::Keys(_) => k == spec_keys_key(),
                StorageValueView::User(u) => k == spec_user_key(u.uuid),
            } by {
                if k != spec_keys_key() {
                    assert(pre.client@.contains_key(k));
                }
            }
        }
        self.client = client;
        proof {
            assert forall|u: Seq<char>| true implies #[trigger] spec_user_key(u)
                != spec_keys_key() by {
                lemma_user_key_not_keys_key(u);
            }
            assert(self.users() =~= pre.users());
        }
        Ok(())
    }

    /// Maps `key` to `user_uuid` in the index and saves it back.
    pub fn update_keys(&mut self, key: &str, user_uuid: &str) -> (r: Result<(), StorageError>)
        ensures
            r is Ok,
            final(self).keys() == old(self).keys().insert(key@, user_uuid@),
            final(self).users() == old(self).users(),
    {
        match self.get_keys() {
            Ok(mut pub_keys) => {
                pub_keys.add_user_uuid(user_uuid, key);
                self.save_pub_keys(pub_keys)
            },
            Err(e) => Err(e),
        }
    }

    /// Unmaps `key` in the index and saves it back.
    pub fn remove_key(&mut self, key: &str) -> (r: Result<(), StorageError>)
        ensures
            r is Ok,
            final(self).keys() == old(self).keys().remove(key@),
            final(self).users() == old(self).users(),
    {
        match self.get_keys() {
            Ok(mut pub_keys) => {
                pub_keys.remove_key(key);
                self.save_pub_keys(pub_keys)
            },
            Err(e) => Err(e),
        }
    }

    /// The uuid the index maps `key` to, if any.
    pub fn get_user_uuid(&self, key: &str) -> (r: Option<String>)
        ensures
            match r {
                Some(uuid) => self.keys().contains_key(key@) && uuid@ == self.keys()[key@],
                None => !self.keys().contains_key(key@),
            },
    {
        match self.get_keys() {
            Ok(pub_keys) => match pub_keys.get_user_uuid(key) {
                Some(uuid) => Some(uuid.clone()),
                None => None,
            },
            Err(_) => None,
        }
    }
}

} // verus!

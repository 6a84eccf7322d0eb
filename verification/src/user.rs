//! The user record: the durable identity of a registered client.

use vstd::prelude::*;
use crate::auth::{parse_pub_key, pub_key_well_formed, ParsedPubKey};

verus! {

/// Spec-level image of a [`User`]: the three fields as character sequences.
pub ghost struct UserView {
    pub uuid: Seq<char>,
    pub pub_key: Seq<char>,
    pub hash: Seq<char>,
}

/// A stored user record. `uuid` is server-generated and stable for the life
/// of the record, `pub_key` is fixed at creation, and `hash` is the single
/// mutable, client-supplied field.
pub struct User {
    pub uuid: String,
    pub pub_key: String,
    pub hash: String,
}

impl View for User {
    type V = UserView;

    open spec fn view(&self) -> UserView {
        UserView { uuid: self.uuid@, pub_key: self.pub_key@, hash: self.hash@ }
    }
}

impl Clone for User {
    fn clone(&self) -> (res: Self)
        ensures
            res@ == self@,
    {
        User { uuid: self.uuid.clone(), pub_key: self.pub_key.clone(), hash: self.hash.clone() }
    }
}

impl User {
    /// Builds a record from the given fields; a missing uuid becomes the
    /// empty string.
    pub fn new(uuid: Option<String>, pub_key: String, hash: String) -> (r: Self)
        ensures
            r@.pub_key == pub_key@,
            r@.hash == hash@,
            uuid matches Some(u) ==> r@.uuid == u@,
            uuid is None ==> r@.uuid == Seq::<char>::empty(),
    {
        match uuid {
            Some(uuid) => Self { uuid, pub_key, hash },
            None => Self { uuid: String::new(), pub_key, hash },
        }
    }

    /// The record's public key, parsed from its stored encoding; absent
    /// exactly when the stored text does not parse as a key.
    pub fn pub_key(&self) -> (r: Option<ParsedPubKey>)
        ensures
            r is Some <==> pub_key_well_formed(self.pub_key@),
            r matches Some(k) ==> k.text_view() == self.pub_key@,
    {
        parse_pub_key(self.pub_key.as_str())
    }
}

} // verus!

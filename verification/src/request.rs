//! The request bodies of the mutating operations.

use vstd::prelude::*;

verus! {

/// Spec-level image of a [`CreateUserRequest`].
pub ghost struct CreateUserRequestView {
    pub pub_key: Seq<char>,
    pub hash: Seq<char>,
    pub timestamp: Seq<char>,
    pub signature: Seq<char>,
}

/// A request to register a public key together with a content hash.
#[derive(Debug)]
pub struct CreateUserRequest {
    pub pub_key: String,
    pub hash: String,
    pub timestamp: String,
    pub signature: String,
}

impl View for CreateUserRequest {
    type V = CreateUserRequestView;

    open spec fn view(&self) -> CreateUserRequestView {
        CreateUserRequestView {
            pub_key: self.pub_key@,
            hash: self.hash@,
            timestamp: self.timestamp@,
            signature: self.signature@,
        }
    }
}

/// Spec-level image of an [`UpdateHashRequest`].
pub ghost struct UpdateHashRequestView {
    pub user_uuid: Seq<char>,
    pub timestamp: Seq<char>,
    pub hash: Seq<char>,
    pub new_hash: Seq<char>,
    pub signature: Seq<char>,
}

/// A request to rotate a record's hash.
#[derive(Debug)]
pub struct UpdateHashRequest {
    pub user_uuid: String,
    pub timestamp: String,
    pub hash: String,
    pub new_hash: String,
    pub signature: String,
}

impl View for UpdateHashRequest {
    type V = UpdateHashRequestView;

    open spec fn view(&self) -> UpdateHashRequestView {
        UpdateHashRequestView {
            user_uuid: self.user_uuid@,
            timestamp: self.timestamp@,
            hash: self.hash@,
            new_hash: self.new_hash@,
            signature: self.signature@,
        }
    }
}

/// Spec-level image of a [`DeleteUserRequest`].
pub ghost struct DeleteUserRequestView {
    pub timestamp: Seq<char>,
    pub user_uuid: Seq<char>,
    pub hash: Seq<char>,
    pub signature: Seq<char>,
}

/// A request to destroy a record.
#[derive(Debug)]
pub struct DeleteUserRequest {
    pub timestamp: String,
    pub user_uuid: String,
    pub hash: String,
    pub signature: String,
}

impl View for DeleteUserRequest {
    type V = DeleteUserRequestView;

    open spec fn view(&self) -> DeleteUserRequestView {
        DeleteUserRequestView {
            timestamp: self.timestamp@,
            user_uuid: self.user_uuid@,
            hash: self.hash@,
            signature: self.signature@,
        }
    }
}

} // verus!

//! The operation surface: create, get, update-hash, and delete, each gated
//! by a per-request signature over its operation-specific message.
//!
//! Every handler's contract is stated against a spec-level transition
//! (`create_op`, `get_op`, `update_op`, `delete_op`) over the service state:
//! the map of user records and the aggregate key index. Signature
//! verification always completes before any store mutation is attempted.

use vstd::prelude::*;
use crate::auth::{
    generate_uuid, new_sessionless, parse_pub_key, parse_signature, pub_key_well_formed,
    signature_matches, signature_well_formed, verify_signature,
};
use crate::messages::{
    compose_create_message, compose_delete_message, compose_get_message, compose_update_message,
    create_message, delete_message, get_message, update_message,
};
use crate::pub_keys::{composite_key, PubKeys};
use crate::query::{QueryParams, QueryParamsView};
use crate::request::{
    CreateUserRequest, CreateUserRequestView, DeleteUserRequest, DeleteUserRequestView,
    UpdateHashRequest, UpdateHashRequestView,
};
use crate::response::{
    spec_auth_error, spec_not_acceptable, spec_not_found, spec_user_success, Response,
    ResponseView,
};
use crate::user::UserView;
use crate::user_client::UserCLient;

verus! {

/// The service state: the user records by uuid, and the key index.
pub ghost struct StateV {
    pub users: Map<Seq<char>, UserView>,
    pub keys: Map<Seq<char>, Seq<char>>,
}

/// The state a repository holds.
pub open spec fn client_state(c: UserCLient) -> StateV {
    StateV { users: c.users(), keys: c.keys() }
}

/// Whether a create request authenticates: the claimed key parses, the
/// signature parses, and the signature covers the create message under the
/// claimed key (trust on first use).
pub open spec fn create_auth_ok(r: CreateUserRequestView) -> bool {
    &&& pub_key_well_formed(r.pub_key)
    &&& signature_well_formed(r.signature)
    &&& signature_matches(create_message(r.timestamp, r.pub_key, r.hash), r.pub_key, r.signature)
}

/// What a create request does: reject without authentication; answer with
/// the existing uuid when the composite key is already indexed; otherwise
/// store a fresh record and index it.
pub open spec fn create_op(s: StateV, r: CreateUserRequestView, fresh_uuid: Seq<char>) -> (
    StateV,
    ResponseView,
) {
    if !create_auth_ok(r) {
        (s, spec_auth_error())
    } else {
        let ck = composite_key(r.hash, r.pub_key);
        if s.keys.contains_key(ck) {
            (s, spec_user_success(s.keys[ck]))
        } else {
            (
                StateV {
                    users: s.users.insert(
                        fresh_uuid,
                        UserView { uuid: fresh_uuid, pub_key: r.pub_key, hash: r.hash },
                    ),
                    keys: s.keys.insert(ck, fresh_uuid),
                },
                spec_user_success(fresh_uuid),
            )
        }
    }
}

/// The create transition, as a relation over a server-chosen fresh uuid.
pub open spec fn create_result(
    pre: StateV,
    r: CreateUserRequestView,
    fresh_uuid: Seq<char>,
    post: StateV,
    resp: ResponseView,
) -> bool {
    create_op(pre, r, fresh_uuid) == (post, resp)
}

/// What a get request answers: not-found for an unknown uuid; an
/// authentication failure when the stored key does not parse, the signature
/// does not parse, or the signature does not cover the get message under the
/// stored key; the uuid when the supplied hash matches the stored one; and
/// not-acceptable otherwise. The state is never changed.
pub open spec fn get_op(s: StateV, uuid: Seq<char>, q: QueryParamsView) -> ResponseView {
    if !s.users.contains_key(uuid) {
        spec_not_found()
    } else {
        let u = s.users[uuid];
        if !pub_key_well_formed(u.pub_key) {
            spec_auth_error()
        } else if !signature_well_formed(q.signature) {
            spec_auth_error()
        } else if !signature_matches(get_message(q.timestamp, uuid, q.hash), u.pub_key, q.signature) {
            spec_auth_error()
        } else if u.hash == q.hash {
            spec_user_success(u.uuid)
        } else {
            spec_not_acceptable()
        }
    }
}

/// What an update-hash request does: reject a malformed signature before
/// touching the store; not-found for an unknown uuid; reject when the stored
/// key does not parse or the signature does not cover the update message;
/// otherwise rewrite the record with the new hash under the same uuid, unmap
/// the composite key of the claimed old hash, and map the new composite key.
pub open spec fn update_op(s: StateV, r: UpdateHashRequestView) -> (StateV, ResponseView) {
    if !signature_well_formed(r.signature) {
        (s, spec_auth_error())
    } else if !s.users.contains_key(r.user_uuid) {
        (s, spec_not_found())
    } else {
        let u = s.users[r.user_uuid];
        if !pub_key_well_formed(u.pub_key) {
            (s, spec_auth_error())
        } else if !signature_matches(
            update_message(r.timestamp, r.user_uuid, r.hash, r.new_hash),
            u.pub_key,
            r.signature,
        ) {
            (s, spec_auth_error())
        } else {
            (
                StateV {
                    users: s.users.insert(
                        r.user_uuid,
                        UserView { uuid: r.user_uuid, pub_key: u.pub_key, hash: r.new_hash },
                    ),
                    keys: s.keys.remove(composite_key(r.hash, u.pub_key)).insert(
                        composite_key(r.new_hash, u.pub_key),
                        r.user_uuid,
                    ),
                },
                spec_user_success(r.user_uuid),
            )
        }
    }
}

/// What a delete request does: reject a malformed signature before touching
/// the store; not-found for an unknown uuid; reject when the stored key does
/// not parse or the signature does not cover the delete message; otherwise
/// remove the record and unmap the composite key of the claimed hash.
pub open spec fn delete_op(s: StateV, r: DeleteUserRequestView) -> (StateV, ResponseView) {
    if !signature_well_formed(r.signature) {
        (s, spec_auth_error())
    } else if !s.users.contains_key(r.user_uuid) {
        (s, spec_not_found())
    } else {
        let u = s.users[r.user_uuid];
        if !pub_key_well_formed(u.pub_key) {
            (s, spec_auth_error())
        } else if !signature_matches(
            delete_message(r.timestamp, r.user_uuid, r.hash),
            u.pub_key,
            r.signature,
        ) {
            (s, spec_auth_error())
        } else {
            (
                StateV {
                    users: s.users.remove(r.user_uuid),
                    keys: s.keys.remove(composite_key(r.hash, u.pub_key)),
                },
                ResponseView::Success { code: 202 },
            )
        }
    }
}

/// Creates a new user when the composite key is unknown, and returns the
/// indexed uuid unchanged when it is already mapped.
/// The signed message is `timestamp ++ pub_key ++ hash`, verified against
/// the claimed key.
pub fn create_user_handler(client: &mut UserCLient, body: &CreateUserRequest) -> (r: Response)
    ensures
        exists|fresh_uuid: Seq<char>| #[trigger] create_result(
            client_state(*old(client)),
            body@,
            fresh_uuid,
            client_state(*final(client)),
            r@,
        ),
{
    let message = compose_create_message(
        body.timestamp.as_str(),
        body.pub_key.as_str(),
        body.hash.as_str(),
    );
    let pub_key = match parse_pub_key(body.pub_key.as_str()) {
        Some(k) => k,
        None => {
            proof {
                assert(create_result(
                    client_state(*old(client)),
                    body@,
                    Seq::<char>::empty(),
                    client_state(*client),
                    spec_auth_error(),
                ));
            }
            return Response::auth_error();
        },
    };
    let signature = match parse_signature(body.signature.as_str()) {
        Some(s) => s,
        None => {
            proof {
                assert(create_result(
                    client_state(*old(client)),
                    body@,
                    Seq::<char>::empty(),
                    client_state(*client),
                    spec_auth_error(),
                ));
            }
            return Response::auth_error();
        },
    };
    let sessionless = new_sessionless();
    if !verify_signature(&sessionless, message.as_str(), &pub_key, &signature) {
        proof {
            assert(create_result(
                client_state(*old(client)),
                body@,
                Seq::<char>::empty(),
                client_state(*client),
                spec_auth_error(),
            ));
        }
        return Response::auth_error();
    }
    let ck = PubKeys::key(body.hash.as_str(), body.pub_key.as_str());
    match client.get_user_uuid(ck.as_str()) {
        Some(user_uuid) => {
            let resp = Response::user_success(user_uuid);
            proof {
                assert(create_result(
                    client_state(*old(client)),
                    body@,
                    Seq::<char>::empty(),
                    client_state(*client),
                    resp@,
                ));
            }
            resp
        },
        None => {
            let fresh_uuid = generate_uuid();
            match client.put_user(fresh_uuid.as_str(), body.pub_key.as_str(), body.hash.as_str()) {
                Ok(user) => match client.update_keys(ck.as_str(), user.uuid.as_str()) {
                    Ok(_) => {
                        let resp = Response::user_success(user.uuid);
                        proof {
                            assert(create_result(
                                client_state(*old(client)),
                                body@,
                                fresh_uuid@,
                                client_state(*client),
                                resp@,
                            ));
                        }
                        resp
                    },
                    Err(_) => Response::server_error("Failed to update keys".to_owned()),
                },
                Err(_) => Response::server_error("Failed to put user".to_owned()),
            }
        },
    }
}

/// Reports whether the supplied hash is the stored one for `uuid`, gated by
/// a signature over `timestamp ++ uuid ++ hash` under the record's stored
/// key. Read-only.
pub fn get_user_handler(client: &UserCLient, uuid: &str, query: &QueryParams) -> (r: Response)
    ensures
        r@ == get_op(client_state(*client), uuid@, query@),
{
    let message = compose_get_message(query.timestamp.as_str(), uuid, query.hash.as_str());
    match client.get_user(uuid) {
        Some(found_user) => {
            let pub_key = match parse_pub_key(found_user.pub_key.as_str()) {
                Some(k) => k,
                None => {
                    return Response::auth_error();
                },
            };
            let signature = match parse_signature(query.signature.as_str()) {
                Some(s) => s,
                None => {
                    return Response::auth_error();
                },
            };
            let sessionless = new_sessionless();
            if !verify_signature(&sessionless, message.as_str(), &pub_key, &signature) {
                return Response::auth_error();
            }
            if found_user.hash == query.hash {
                Response::user_success(found_user.uuid)
            } else {
                Response::not_acceptable()
            }
        },
        None => Response::not_found(),
    }
}

/// Rotates a record's hash in place, keeping its uuid, and swaps the index
/// entry of the claimed old hash for the new one. The signed message is
/// `timestamp ++ uuid ++ hash ++ new_hash`, verified against the stored key.
pub fn update_hash_handler(client: &mut UserCLient, body: &UpdateHashRequest) -> (r: Response)
    ensures
        client_state(*final(client)) == update_op(client_state(*old(client)), body@).0,
        r@ == update_op(client_state(*old(client)), body@).1,
{
    let message = compose_update_message(
        body.timestamp.as_str(),
        body.user_uuid.as_str(),
        body.hash.as_str(),
        body.new_hash.as_str(),
    );
    let signature = match parse_signature(body.signature.as_str()) {
        Some(s) => s,
        None => {
            return Response::auth_error();
        },
    };
    let found_user = match client.get_user(body.user_uuid.as_str()) {
        Some(user) => user,
        None => {
            return Response::not_found();
        },
    };
    let pub_key = match found_user.pub_key() {
        Some(k) => k,
        None => {
            return Response::auth_error();
        },
    };
    let sessionless = new_sessionless();
    if !verify_signature(&sessionless, message.as_str(), &pub_key, &signature) {
        return Response::auth_error();
    }
    match client.put_user(
        found_user.uuid.as_str(),
        found_user.pub_key.as_str(),
        body.new_hash.as_str(),
    ) {
        Ok(new_user) => {
            let old_key = PubKeys::key(body.hash.as_str(), found_user.pub_key.as_str());
            match client.remove_key(old_key.as_str()) {
                Ok(_) => {
                    let new_key = PubKeys::key(body.new_hash.as_str(), found_user.pub_key.as_str());
                    match client.update_keys(new_key.as_str(), new_user.uuid.as_str()) {
                        Ok(_) => Response::user_success(new_user.uuid),
                        Err(_) => Response::server_error("Failed to update keys".to_owned()),
                    }
                },
                Err(_) => Response::server_error("Failed to delete old key".to_owned()),
            }
        },
        Err(_) => Response::server_error("Failed to update hash".to_owned()),
    }
}

/// Destroys a record and unmaps the composite key of the claimed hash. The
/// signed message is `timestamp ++ uuid ++ hash`, verified against the
/// stored key.
pub fn delete_user_handler(client: &mut UserCLient, body: &DeleteUserRequest) -> (r: Response)
    ensures
        client_state(*final(client)) == delete_op(client_state(*old(client)), body@).0,
        r@ == delete_op(client_state(*old(client)), body@).1,
{
    let message = compose_delete_message(
        body.timestamp.as_str(),
        body.user_uuid.as_str(),
        body.hash.as_str(),
    );
    let signature = match parse_signature(body.signature.as_str()) {
        Some(s) => s,
        None => {
            return Response::auth_error();
        },
    };
    let found_user = match client.get_user(body.user_uuid.as_str()) {
        Some(user) => user,
        None => {
            return Response::not_found();
        },
    };
    let pub_key = match found_user.pub_key() {
        Some(k) => k,
        None => {
            return Response::auth_error();
        },
    };
    let sessionless = new_sessionless();
    if !verify_signature(&sessionless, message.as_str(), &pub_key, &signature) {
        return Response::auth_error();
    }
    let key = PubKeys::key(body.hash.as_str(), found_user.pub_key.as_str());
    if client.delete_user(found_user.uuid.as_str()) {
        match client.remove_key(key.as_str()) {
            Ok(_) => Response::success(202),
            Err(_) => Response::server_error("Failed to delete key".to_owned()),
        }
    } else {
        Response::server_error("Failed to delete user".to_owned())
    }
}

} // verus!

//! The service-level laws: what the operation transitions guarantee across
//! calls — idempotent creation, the create/get round trip, and the index
//! staying consistent with the records across rotation and deletion.

use vstd::prelude::*;
use crate::auth::{pub_key_well_formed, signature_matches, signature_well_formed};
use crate::handlers::{
    client_state, create_auth_ok, create_op, delete_op, get_op, update_op, StateV,
};
use crate::messages::{delete_message, get_message, update_message};
use crate::pub_keys::{composite_key, lemma_composite_key_hash_injective};
use crate::query::QueryParamsView;
use crate::request::{CreateUserRequestView, DeleteUserRequestView, UpdateHashRequestView};
use crate::response::{spec_auth_error, spec_user_success, ResponseView};

verus! {

/// Idempotent create: two authenticated create requests carrying the same
/// public key and hash return the same uuid, the second one changes
/// nothing, and the index maps their composite key to exactly that uuid.
pub proof fn lemma_create_idempotent(
    s: StateV,
    r1: CreateUserRequestView,
    r2: CreateUserRequestView,
    u1: Seq<char>,
    u2: Seq<char>,
)
    requires
        r1.pub_key == r2.pub_key,
        r1.hash == r2.hash,
        create_auth_ok(r1),
        create_auth_ok(r2),
    ensures
        ({
            let (s1, p1) = create_op(s, r1, u1);
            let (s2, p2) = create_op(s1, r2, u2);
            &&& s2 == s1
            &&& p2 == p1
            &&& (p1 matches ResponseView::User { user_uuid } && s1.keys.contains_key(
                composite_key(r1.hash, r1.pub_key),
            ) && s1.keys[composite_key(r1.hash, r1.pub_key)] == user_uuid)
        }),
{
}

/// Round trip: an authenticated create of a not-yet-indexed `(pub_key,
/// hash)` answers with the fresh uuid, and a get for that uuid carrying the
/// same hash and a signature that verifies for the get message under that
/// key answers with the same uuid.
pub proof fn lemma_create_then_get(
    s: StateV,
    r: CreateUserRequestView,
    u: Seq<char>,
    q: QueryParamsView,
)
    requires
        create_auth_ok(r),
        !s.keys.contains_key(composite_key(r.hash, r.pub_key)),
        q.hash == r.hash,
        signature_well_formed(q.signature),
        signature_matches(get_message(q.timestamp, u, q.hash), r.pub_key, q.signature),
    ensures
        ({
            let (s1, p1) = create_op(s, r, u);
            &&& p1 == spec_user_success(u)
            &&& get_op(s1, u, q) == spec_user_success(u)
        }),
{
}

/// Index consistency after rotation: an authenticated update from one hash
/// to a different one leaves the old composite key unmapped and maps the
/// new composite key to the record's uuid.
pub proof fn lemma_update_rotates_index(s: StateV, r: UpdateHashRequestView)
    requires
        signature_well_formed(r.signature),
        s.users.contains_key(r.user_uuid),
        pub_key_well_formed(s.users[r.user_uuid].pub_key),
        signature_matches(
            update_message(r.timestamp, r.user_uuid, r.hash, r.new_hash),
            s.users[r.user_uuid].pub_key,
            r.signature,
        ),
        r.hash != r.new_hash,
    ensures
        ({
            let p = s.users[r.user_uuid].pub_key;
            let s1 = update_op(s, r).0;
            &&& update_op(s, r).1 == spec_user_success(r.user_uuid)
            &&& !s1.keys.contains_key(composite_key(r.hash, p))
            &&& s1.keys.contains_key(composite_key(r.new_hash, p))
            &&& s1.keys[composite_key(r.new_hash, p)] == r.user_uuid
            &&& s1.users.contains_key(r.user_uuid)
            &&& s1.users[r.user_uuid].hash == r.new_hash
            &&& s1.users[r.user_uuid].pub_key == p
        }),
{
    let p = s.users[r.user_uuid].pub_key;
    if composite_key(r.hash, p) == composite_key(r.new_hash, p) {
        lemma_composite_key_hash_injective(r.hash, r.new_hash, p);
    }
}

/// Index consistency after deletion: an authenticated delete removes the
/// record and leaves the composite key of the claimed hash unmapped.
pub proof fn lemma_delete_clears_record_and_index(s: StateV, r: DeleteUserRequestView)
    requires
        signature_well_formed(r.signature),
        s.users.contains_key(r.user_uuid),
        pub_key_well_formed(s.users[r.user_uuid].pub_key),
        signature_matches(
            delete_message(r.timestamp, r.user_uuid, r.hash),
            s.users[r.user_uuid].pub_key,
            r.signature,
        ),
    ensures
        ({
            let s1 = delete_op(s, r).0;
            &&& delete_op(s, r).1 == (ResponseView::Success { code: 202 })
            &&& !s1.users.contains_key(r.user_uuid)
            &&& !s1.keys.contains_key(composite_key(r.hash, s.users[r.user_uuid].pub_key))
        }),
{
}

/// Cross-key isolation, as far as it is the service's doing: every
/// operation that targets an existing record verifies the request signature
/// against the record's stored key, and rejects the request with an
/// authentication error whenever that signature does not verify under that
/// key — whatever the other fields carry. That a signature produced with a
/// different key does not verify under the stored one is the signature
/// scheme's guarantee, outside this library.
pub proof fn lemma_operations_verify_against_stored_key(
    s: StateV,
    uuid: Seq<char>,
    q: QueryParamsView,
    ur: UpdateHashRequestView,
    dr: DeleteUserRequestView,
)
    requires
        s.users.contains_key(uuid),
        ur.user_uuid == uuid,
        dr.user_uuid == uuid,
    ensures
        !signature_matches(get_message(q.timestamp, uuid, q.hash), s.users[uuid].pub_key, q.signature)
            ==> get_op(s, uuid, q) == spec_auth_error(),
        !signature_matches(
            update_message(ur.timestamp, uuid, ur.hash, ur.new_hash),
            s.users[uuid].pub_key,
            ur.signature,
        ) ==> update_op(s, ur) == (s, spec_auth_error()),
        !signature_matches(
            delete_message(dr.timestamp, uuid, dr.hash),
            s.users[uuid].pub_key,
            dr.signature,
        ) ==> delete_op(s, dr) == (s, spec_auth_error()),
{
}

} // verus!

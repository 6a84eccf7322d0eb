//! The signed message of each operation: the exact, ordered concatenation of
//! the request fields that the client signs and the server reconstructs.

use vstd::prelude::*;
use vstd::string::StringExecFns;

verus! {

/// The message signed for a create request.
pub open spec fn create_message(timestamp: Seq<char>, pub_key: Seq<char>, hash: Seq<char>) -> Seq<
    char,
> {
    timestamp + pub_key + hash
}

/// The message signed for a get request.
pub open spec fn get_message(timestamp: Seq<char>, user_uuid: Seq<char>, hash: Seq<char>) -> Seq<
    char,
> {
    timestamp + user_uuid + hash
}

/// The message signed for an update-hash request.
pub open spec fn update_message(
    timestamp: Seq<char>,
    user_uuid: Seq<char>,
    hash: Seq<char>,
    new_hash: Seq<char>,
) -> Seq<char> {
    timestamp + user_uuid + hash + new_hash
}

/// The message signed for a delete request.
pub open spec fn delete_message(timestamp: Seq<char>, user_uuid: Seq<char>, hash: Seq<char>) -> Seq<
    char,
> {
    timestamp + user_uuid + hash
}

pub fn compose_create_message(timestamp: &str, pub_key: &str, hash: &str) -> (r: String)
    ensures
        r@ == create_message(timestamp@, pub_key@, hash@),
{
    let mut m: String = timestamp.to_owned();
    m.append(pub_key);
    m.append(hash);
    m
}

pub fn compose_get_message(timestamp: &str, user_uuid: &str, hash: &str) -> (r: String)
    ensures
        r@ == get_message(timestamp@, user_uuid@, hash@),
{
    let mut m: String = timestamp.to_owned();
    m.append(user_uuid);
    m.append(hash);
    m
}

pub fn compose_update_message(timestamp: &str, user_uuid: &str, hash: &str, new_hash: &str) -> (r:
    String)
    ensures
        r@ == update_message(timestamp@, user_uuid@, hash@, new_hash@),
{
    let mut m: String = timestamp.to_owned();
    m.append(user_uuid);
    m.append(hash);
    m.append(new_hash);
    m
}

pub fn compose_delete_message(timestamp: &str, user_uuid: &str, hash: &str) -> (r: String)
    ensures
        r@ == delete_message(timestamp@, user_uuid@, hash@),
{
    let mut m: String = timestamp.to_owned();
    m.append(user_uuid);
    m.append(hash);
    m
}

/// Two equal concatenations with equally long left parts have equal parts.
proof fn lemma_concat_cancel(a: Seq<char>, b: Seq<char>, c: Seq<char>, d: Seq<char>)
    requires
        a + b == c + d,
        a.len() == c.len(),
    ensures
        a == c,
        b == d,
{
    assert forall|i: int| 0 <= i < a.len() implies a[i] == c[i] by {
        assert((a + b)[i] == a[i]);
        assert((c + d)[i] == c[i]);
    }
    assert(a =~= c);
    assert((a + b).len() == a.len() + b.len());
    assert((c + d).len() == c.len() + d.len());
    assert(b.len() == d.len());
    assert forall|i: int| 0 <= i < b.len() implies b[i] == d[i] by {
        assert((a + b)[a.len() + i] == b[i]);
        assert((c + d)[c.len() + i] == d[i]);
    }
    assert(b =~= d);
}

/// Three-part messages pin each field: if two compositions agree and agree on
/// two of the three fields, they agree on the third. So altering a single
/// field of a signed three-part message, leaving the others as they were,
/// changes the message that must be signed.
pub proof fn lemma_three_part_message_sensitivity(
    t1: Seq<char>,
    u1: Seq<char>,
    h1: Seq<char>,
    t2: Seq<char>,
    u2: Seq<char>,
    h2: Seq<char>,
)
    requires
        t1 + u1 + h1 == t2 + u2 + h2,
    ensures
        t1 == t2 && u1 == u2 ==> h1 == h2,
        t1 == t2 && h1 == h2 ==> u1 == u2,
        u1 == u2 && h1 == h2 ==> t1 == t2,
{
    if t1 == t2 && u1 == u2 {
        lemma_concat_cancel(t1 + u1, h1, t2 + u2, h2);
    }
    if t1 == t2 && h1 == h2 {
        assert((t1 + u1 + h1).len() == t1.len() + u1.len() + h1.len());
        assert((t2 + u2 + h2).len() == t2.len() + u2.len() + h2.len());
        lemma_concat_cancel(t1 + u1, h1, t2 + u2, h2);
        lemma_concat_cancel(t1, u1, t2, u2);
    }
    if u1 == u2 && h1 == h2 {
        assert((t1 + u1 + h1).len() == t1.len() + u1.len() + h1.len());
        assert((t2 + u2 + h2).len() == t2.len() + u2.len() + h2.len());
        lemma_concat_cancel(t1 + u1, h1, t2 + u2, h2);
        lemma_concat_cancel(t1, u1, t2, u2);
    }
}

/// Four-part messages pin each field in the same way.
pub proof fn lemma_four_part_message_sensitivity(
    t1: Seq<char>,
    u1: Seq<char>,
    h1: Seq<char>,
    n1: Seq<char>,
    t2: Seq<char>,
    u2: Seq<char>,
    h2: Seq<char>,
    n2: Seq<char>,
)
    requires
        t1 + u1 + h1 + n1 == t2 + u2 + h2 + n2,
    ensures
        t1 == t2 && u1 == u2 && h1 == h2 ==> n1 == n2,
        t1 == t2 && u1 == u2 && n1 == n2 ==> h1 == h2,
        t1 == t2 && h1 == h2 && n1 == n2 ==> u1 == u2,
        u1 == u2 && h1 == h2 && n1 == n2 ==> t1 == t2,
{
    if t1 == t2 && u1 == u2 && h1 == h2 {
        lemma_concat_cancel(t1 + u1 + h1, n1, t2 + u2 + h2, n2);
    }
    if t1 == t2 && u1 == u2 && n1 == n2 {
        assert((t1 + u1 + h1 + n1).len() == t1.len() + u1.len() + h1.len() + n1.len());
        assert((t2 + u2 + h2 + n2).len() == t2.len() + u2.len() + h2.len() + n2.len());
        lemma_concat_cancel(t1 + u1 + h1, n1, t2 + u2 + h2, n2);
        lemma_concat_cancel(t1 + u1, h1, t2 + u2, h2);
    }
    if t1 == t2 && h1 == h2 && n1 == n2 {
        assert((t1 + u1 + h1 + n1).len() == t1.len() + u1.len() + h1.len() + n1.len());
        assert((t2 + u2 + h2 + n2).len() == t2.len() + u2.len() + h2.len() + n2.len());
        lemma_concat_cancel(t1 + u1 + h1, n1, t2 + u2 + h2, n2);
        lemma_concat_cancel(t1 + u1, h1, t2 + u2, h2);
        lemma_concat_cancel(t1, u1, t2, u2);
    }
    if u1 == u2 && h1 == h2 && n1 == n2 {
        assert((t1 + u1 + h1 + n1).len() == t1.len() + u1.len() + h1.len() + n1.len());
        assert((t2 + u2 + h2 + n2).len() == t2.len() + u2.len() + h2.len() + n2.len());
        lemma_concat_cancel(t1 + u1 + h1, n1, t2 + u2 + h2, n2);
        lemma_concat_cancel(t1 + u1, h1, t2 + u2, h2);
        lemma_concat_cancel(t1, u1, t2, u2);
    }
}

} // verus!

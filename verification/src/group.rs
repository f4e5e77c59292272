//! The per-session delivery-group identity.
//!
//! Each session subscribes under a fresh, session-private group identity, so
//! the broker treats every session as an independent receiver and delivers
//! it the full message stream from subscription time forward, rather than a
//! load-balanced share of it.

use vstd::prelude::*;
use crate::bytes::append_bytes;

verus! {

/// The fixed prefix of every delivery-group identity: the bytes of "chat-".
pub open spec fn group_prefix() -> Seq<u8> {
    seq![99u8, 104u8, 97u8, 116u8, 45u8]
}

/// The delivery-group identity built from a session token.
pub open spec fn group_id_of(token: Seq<u8>) -> Seq<u8> {
    group_prefix() + token
}

/// Relies on uuid::Uuid::new_v4 and the Display form of uuid::Uuid: a fresh
/// random version-4 identifier, rendered in its hyphenated text form, which
/// is always 36 bytes long.  The value is drawn at random, so nothing more
/// is assumed of it.
#[verifier::external_body]
fn fresh_token() -> (r: Vec<u8>)
    ensures
        r@.len() == 36,
{
    uuid::Uuid::new_v4().to_string().into_bytes()
}

/// A fresh delivery-group identity for one session: the prefix "chat-"
/// followed by a newly drawn 36-byte session token.
pub fn fresh_group_id() -> (r: Vec<u8>)
    ensures
        r@.len() == 41,
        r@.subrange(0, 5) == group_prefix(),
        r@ == group_id_of(r@.subrange(5, 41)),
{
    let token = fresh_token();
    let mut v: Vec<u8> = Vec::new();
    v.push(99u8);
    v.push(104u8);
    v.push(97u8);
    v.push(116u8);
    v.push(45u8);
    proof {
        assert(v@ =~= group_prefix());
    }
    append_bytes(&mut v, &token);
    proof {
        assert(v@.subrange(5, 41) =~= token@);
        assert(v@ =~= group_id_of(v@.subrange(5, 41)));
    }
    v
}

/// Distinct session tokens give distinct delivery-group identities: the
/// prefix is fixed, so the group identity is injective in the token.  Two
/// sessions whose tokens differ therefore subscribe under different delivery
/// groups, and the broker owes each of them the full message stream.
pub proof fn lemma_group_id_injective(t1: Seq<u8>, t2: Seq<u8>)
    requires
        t1 != t2,
    ensures
        group_id_of(t1) != group_id_of(t2),
{
    if group_id_of(t1) == group_id_of(t2) {
        assert(group_id_of(t1).len() == 5 + t1.len());
        assert(group_id_of(t2).len() == 5 + t2.len());
        assert(t1.len() == t2.len());
        assert(group_id_of(t1).subrange(5, group_id_of(t1).len() as int) =~= t1);
        assert(group_id_of(t2).subrange(5, group_id_of(t2).len() as int) =~= t2);
        assert(t1 =~= t2);
    }
}

} // verus!

//! The thread/conversation resolver: given two usernames, the shared
//! conversation id, created lazily on first contact.
//!
//! Resolution scans both users' membership rows for an id present in
//! both row sets. When several ids are shared — possible after
//! unsynchronized first contacts — the lowest shared id is picked, an
//! arbitrary but deterministic choice. When none is shared, a fresh id
//! one past the largest id in the whole table (or `1` on an empty
//! table) is allocated and two membership rows are written, one per
//! participant. The read-then-write sequence is not atomic; two first
//! contacts of one pair run side by side can still end up with two
//! ids. That weakness is kept as a known one, not silently fixed.

use vstd::prelude::*;

use crate::rows::{
    lemma_max_member_id_bounds, lemma_member_ids_of_contains, max_member_id, member_ids_of,
    MemberV,
};
use crate::store::{members_ok, Store};

verus! {

/// Whether `i` is a conversation id shared by `a` and `b`: the
/// membership table holds a row `(i, a)` and a row `(i, b)`.
pub open spec fn is_shared(members: Seq<MemberV>, a: Seq<char>, b: Seq<char>, i: u64) -> bool {
    members.contains((MemberV { id: i, user: a })) && members.contains((MemberV { id: i, user: b }))
}

/// Whether `a` and `b` share any conversation id.
pub open spec fn has_shared(members: Seq<MemberV>, a: Seq<char>, b: Seq<char>) -> bool {
    exists|i: u64| is_shared(members, a, b, i)
}

/// The lowest conversation id shared by `a` and `b`; meaningful only
/// when [`has_shared`] holds.
pub open spec fn least_shared(members: Seq<MemberV>, a: Seq<char>, b: Seq<char>) -> u64 {
    choose|i: u64|
        is_shared(members, a, b, i) && (forall|j: u64| is_shared(members, a, b, j) ==> i <= j)
}

/// The id resolution returns: the lowest shared id when one exists,
/// else the freshly allocated one.
pub open spec fn resolved_id(members: Seq<MemberV>, a: Seq<char>, b: Seq<char>) -> u64 {
    if has_shared(members, a, b) {
        least_shared(members, a, b)
    } else {
        ((max_member_id(members) + 1) as u64)
    }
}

/// The membership table after resolution: unchanged when an id was
/// shared, else extended by one row per participant under the fresh
/// id.
pub open spec fn members_after_resolve(members: Seq<MemberV>, a: Seq<char>, b: Seq<char>) -> Seq<
    MemberV,
> {
    if has_shared(members, a, b) {
        members
    } else {
        members.push((MemberV { id: resolved_id(members, a, b), user: a })).push(
            (MemberV { id: resolved_id(members, a, b), user: b }),
        )
    }
}

/// Among the shared ids of `a` and `b` there is a lowest one.
proof fn lemma_least_exists(members: Seq<MemberV>, a: Seq<char>, b: Seq<char>, w: u64)
    requires
        is_shared(members, a, b, w),
    ensures
        exists|i: u64|
            is_shared(members, a, b, i) && (forall|j: u64| is_shared(members, a, b, j) ==> i <= j),
    decreases w,
{
    if forall|j: u64| is_shared(members, a, b, j) ==> w <= j {
        assert(is_shared(members, a, b, w) && (forall|j: u64|
            is_shared(members, a, b, j) ==> w <= j));
    } else {
        let j = choose|j: u64| is_shared(members, a, b, j) && !(w <= j);
        lemma_least_exists(members, a, b, j);
    }
}

/// An id that is shared and bounds every shared id from below is what
/// [`least_shared`] denotes.
proof fn lemma_least_shared_is(members: Seq<MemberV>, a: Seq<char>, b: Seq<char>, i0: u64)
    requires
        is_shared(members, a, b, i0),
        forall|j: u64| is_shared(members, a, b, j) ==> i0 <= j,
    ensures
        least_shared(members, a, b) == i0,
{
    lemma_least_exists(members, a, b, i0);
    let l = least_shared(members, a, b);
    assert(is_shared(members, a, b, l) && (forall|j: u64| is_shared(members, a, b, j) ==> l <= j));
    assert(l <= i0);
    assert(i0 <= l);
}

/// Whether `ids` holds `x`.
fn contains_id(ids: &Vec<u64>, x: u64) -> (r: bool)
    ensures
        r == ids@.contains(x),
{
    let mut i: usize = 0;
    while i < ids.len()
        invariant
            i <= ids.len(),
            forall|k: int| 0 <= k < i ==> ids@[k] != x,
        decreases ids.len() - i,
    {
        if ids[i] == x {
            return true;
        }
        i = i + 1;
    }
    false
}

/// Returns the conversation id shared by `a` and `b`, allocating it on
/// first contact.
///
/// When the two users already share an id, the lowest shared one is
/// returned and the store is left untouched. Otherwise one past the
/// largest id in the membership table — `1` on a fresh store — is
/// allocated, one membership row per participant is written, and the
/// new id is returned.
pub fn resolve_conversation(store: &mut Store, a: &String, b: &String) -> (cid: u64)
    requires
        old(store).wf(),
        max_member_id(old(store)@.members) < u64::MAX,
    ensures
        final(store).wf(),
        cid == resolved_id(old(store)@.members, a@, b@),
        cid >= 1,
        final(store)@.members == members_after_resolve(old(store)@.members, a@, b@),
        final(store)@.users == old(store)@.users,
        final(store)@.messages == old(store)@.messages,
        final(store)@.replies == old(store)@.replies,
        final(store)@.direct_messages == old(store)@.direct_messages,
        final(store)@.clock == old(store)@.clock,
{
    let ghost m = store@.members;
    let a_ids = store.list_conversation_members(a);
    let b_ids = store.list_conversation_members(b);
    proof {
        assert forall|k: int| 0 <= k < a_ids@.len() implies a_ids@[k] >= 1 by {
            assert(member_ids_of(m, a@).contains(a_ids@[k]));
            lemma_member_ids_of_contains(m, a@, a_ids@[k]);
            let t = choose|t: int|
                0 <= t < m.len() && m[t] == (MemberV { id: a_ids@[k], user: a@ });
            assert(m[t].id >= 1);
        }
    }
    let mut best: u64 = 0;
    let mut i: usize = 0;
    while i < a_ids.len()
        invariant
            i <= a_ids.len(),
            a_ids@ == member_ids_of(m, a@),
            b_ids@ == member_ids_of(m, b@),
            forall|k: int| 0 <= k < a_ids@.len() ==> #[trigger] a_ids@[k] >= 1,
            best == 0 ==> forall|k: int| 0 <= k < i ==> !b_ids@.contains(#[trigger] a_ids@[k]),
            best != 0 ==> a_ids@.contains(best) && b_ids@.contains(best) && (forall|k: int|
                0 <= k < i && b_ids@.contains(#[trigger] a_ids@[k]) ==> best <= a_ids@[k]),
        decreases a_ids.len() - i,
    {
        let x = a_ids[i];
        if contains_id(&b_ids, x) {
            if best == 0 || x < best {
                best = x;
            }
        }
        i = i + 1;
    }
    if best != 0 {
        proof {
            lemma_member_ids_of_contains(m, a@, best);
            lemma_member_ids_of_contains(m, b@, best);
            assert(is_shared(m, a@, b@, best));
            assert forall|j: u64| is_shared(m, a@, b@, j) implies best <= j by {
                lemma_member_ids_of_contains(m, a@, j);
                lemma_member_ids_of_contains(m, b@, j);
                assert(a_ids@.contains(j));
                let k = choose|k: int| 0 <= k < a_ids@.len() && a_ids@[k] == j;
                assert(b_ids@.contains(a_ids@[k]));
            }
            lemma_least_shared_is(m, a@, b@, best);
            assert(has_shared(m, a@, b@));
        }
        best
    } else {
        proof {
            assert forall|j: u64| !is_shared(m, a@, b@, j) by {
                if is_shared(m, a@, b@, j) {
                    lemma_member_ids_of_contains(m, a@, j);
                    lemma_member_ids_of_contains(m, b@, j);
                    assert(a_ids@.contains(j));
                    let k = choose|k: int| 0 <= k < a_ids@.len() && a_ids@[k] == j;
                    assert(!b_ids@.contains(a_ids@[k]));
                }
            }
            assert(!has_shared(m, a@, b@));
        }
        let n = store.max_conversation_id();
        let cid = n + 1;
        store.insert_conversation_member(cid, a.clone());
        store.insert_conversation_member(cid, b.clone());
        proof {
            assert(store@.members =~= members_after_resolve(m, a@, b@));
        }
        cid
    }
}

/// Law: resolution is idempotent once an id is allocated. Resolving
/// the pair `(a, b)` against the table that a first resolution leaves
/// behind denotes the same id as the first resolution did.
pub proof fn lemma_resolve_idempotent(members: Seq<MemberV>, a: Seq<char>, b: Seq<char>)
    requires
        members_ok(members),
        max_member_id(members) < u64::MAX,
    ensures
        resolved_id(members_after_resolve(members, a, b), a, b) == resolved_id(members, a, b),
{
    if has_shared(members, a, b) {
    } else {
        let n = max_member_id(members);
        let fresh = (n + 1) as u64;
        let grown = members_after_resolve(members, a, b);
        assert(grown == members.push((MemberV { id: fresh, user: a })).push(
            (MemberV { id: fresh, user: b }),
        ));
        let la = members.len() as int;
        assert(grown[la] == (MemberV { id: fresh, user: a }));
        assert(grown[la + 1] == (MemberV { id: fresh, user: b }));
        assert(grown.contains((MemberV { id: fresh, user: a })));
        assert(grown.contains((MemberV { id: fresh, user: b })));
        assert(is_shared(grown, a, b, fresh));
        lemma_max_member_id_bounds(members);
        assert forall|j: u64| is_shared(grown, a, b, j) implies fresh <= j by {
            let k1 = choose|k: int| 0 <= k < grown.len() && grown[k] == (MemberV { id: j, user: a });
            let k2 = choose|k: int| 0 <= k < grown.len() && grown[k] == (MemberV { id: j, user: b });
            if k1 < la && k2 < la {
                assert(members[k1] == (MemberV { id: j, user: a }));
                assert(members[k2] == (MemberV { id: j, user: b }));
                assert(members.contains((MemberV { id: j, user: a })));
                assert(members.contains((MemberV { id: j, user: b })));
                assert(is_shared(members, a, b, j));
                assert(false);
            } else if k1 >= la {
                assert(grown[k1].id == fresh);
            } else {
                assert(grown[k2].id == fresh);
            }
        }
        lemma_least_shared_is(grown, a, b, fresh);
        assert(has_shared(grown, a, b));
        assert(resolved_id(grown, a, b) == fresh);
    }
}

/// Law: resolution does not depend on the order of the pair. The id
/// denoted for `(a, b)` is the id denoted for `(b, a)` over any
/// membership table.
pub proof fn lemma_resolve_symmetric(members: Seq<MemberV>, a: Seq<char>, b: Seq<char>)
    ensures
        resolved_id(members, a, b) == resolved_id(members, b, a),
{
    assert forall|i: u64| is_shared(members, a, b, i) <==> is_shared(members, b, a, i) by {
    }
    if has_shared(members, a, b) {
        let w = choose|i: u64| is_shared(members, a, b, i);
        assert(is_shared(members, b, a, w));
        assert(has_shared(members, b, a));
        lemma_least_exists(members, a, b, w);
        let l = least_shared(members, a, b);
        assert(is_shared(members, a, b, l) && (forall|j: u64|
            is_shared(members, a, b, j) ==> l <= j));
        assert forall|j: u64| is_shared(members, b, a, j) implies l <= j by {
            assert(is_shared(members, a, b, j));
        }
        lemma_least_shared_is(members, b, a, l);
    } else {
        if has_shared(members, b, a) {
            let w = choose|i: u64| is_shared(members, b, a, i);
            assert(is_shared(members, a, b, w));
            assert(false);
        }
    }
}

} // verus!

//! The protocol's laws, stated and proved over the same spec functions that
//! the handlers' contracts use.

use vstd::prelude::*;
use crate::canvas::{remove_all, CanvasModel};
use crate::codec;
use crate::point::Point;
use crate::protocol::{member_added, member_removed, point_appended, RemoteResponse, State};

verus! {

/// Removal strips every occurrence: `u` never survives `remove_all`.
pub proof fn lemma_remove_all_strips(users: Seq<Seq<char>>, u: Seq<char>)
    ensures
        !remove_all(users, u).contains(u),
    decreases users.len(),
{
    if users.len() > 0 {
        lemma_remove_all_strips(users.drop_last(), u);
        let out = remove_all(users, u);
        let rest = remove_all(users.drop_last(), u);
        if users.last() != u {
            assert forall|i: int| 0 <= i < out.len() implies out[i] != u by {
                if i < rest.len() {
                    assert(out[i] == rest[i]);
                    assert(rest[i] != u) by {
                        assert(!rest.contains(u));
                    }
                }
            }
        }
        if out.contains(u) {
            let i = choose|i: int| 0 <= i < out.len() && out[i] == u;
        }
    }
}

/// Removing an id that is no member changes nothing.
pub proof fn lemma_remove_all_absent(users: Seq<Seq<char>>, u: Seq<char>)
    requires
        !users.contains(u),
    ensures
        remove_all(users, u) == users,
    decreases users.len(),
{
    if users.len() == 0 {
        assert(remove_all(users, u) =~= users);
    } else {
        assert(users.last() == users[users.len() - 1]);
        assert(users.last() != u);
        assert forall|i: int| 0 <= i < users.drop_last().len() implies users.drop_last()[i]
            != u by {
            assert(users.drop_last()[i] == users[i]);
        }
        if users.drop_last().contains(u) {
            let i = choose|i: int|
                0 <= i < users.drop_last().len() && users.drop_last()[i] == u;
        }
        lemma_remove_all_absent(users.drop_last(), u);
        assert(remove_all(users, u) =~= users.drop_last().push(users.last()));
        assert(users.drop_last().push(users.last()) =~= users);
    }
}

/// Appending `u` and then removing `u` is the same as removing `u` alone.
pub proof fn lemma_remove_all_push(users: Seq<Seq<char>>, u: Seq<char>)
    ensures
        remove_all(users.push(u), u) == remove_all(users, u),
{
    assert(users.push(u).len() == users.len() + 1);
    assert(users.push(u).last() == u);
    assert(users.push(u).drop_last() =~= users);
}

/// Membership law: in every reachable state of a node, the store holds a
/// canvas keyed by the node's own id. `State::new` establishes `wf` and
/// every handler ensures it again, so this holds along any run.
pub proof fn lemma_own_canvas_present(s: State)
    requires
        s.wf(),
    ensures
        s.canvases@.dom().contains(s.our@),
{
}

/// Idempotence of removal on one canvas: the second removal of the same
/// user changes nothing.
pub proof fn lemma_remove_user_idempotent(c: CanvasModel, u: Seq<char>)
    ensures
        c.without_user(u).without_user(u) == c.without_user(u),
{
    lemma_remove_all_strips(c.users, u);
    lemma_remove_all_absent(remove_all(c.users, u), u);
}

/// Idempotence of the `RemoveUser` transition on the store: handling the
/// same removal twice leaves exactly the state after the first.
pub proof fn lemma_remove_member_idempotent(
    m: Map<Seq<char>, CanvasModel>,
    id: Seq<char>,
    u: Seq<char>,
)
    requires
        m.dom().contains(id),
    ensures
        member_removed(member_removed(m, id, u), id, u) == member_removed(m, id, u),
{
    lemma_remove_user_idempotent(m[id], u);
    assert(member_removed(member_removed(m, id, u), id, u) =~= member_removed(m, id, u));
}

/// Ordering law: when an owner's draws `p1` then `p2` reach a follower
/// copy, the copy's log is the old log with `p1` and then `p2` appended —
/// so `p1` stands at a strictly smaller index than `p2`.
pub proof fn lemma_draw_order(
    m: Map<Seq<char>, CanvasModel>,
    id: Seq<char>,
    p1: Point,
    p2: Point,
)
    requires
        m.dom().contains(id),
    ensures
        point_appended(point_appended(m, id, p1), id, p2)[id].points == m[id].points.push(
            p1,
        ).push(p2),
        point_appended(point_appended(m, id, p1), id, p2)[id].points[m[id].points.len() as int]
            == p1,
        point_appended(point_appended(m, id, p1), id, p2)[id].points[m[id].points.len() as int
            + 1] == p2,
{
}

/// Round trip on one canvas: inviting a user who is no member and then
/// removing that user restores the membership exactly.
pub proof fn lemma_invite_then_remove_restores(c: CanvasModel, u: Seq<char>)
    requires
        !c.has_user(u),
    ensures
        c.with_user(u).without_user(u) == c,
{
    lemma_remove_all_push(c.users, u);
    lemma_remove_all_absent(c.users, u);
}

/// Round trip on the owner's store: the `AddUser` transition followed by
/// the `RemoveUser` transition for a user who was no member restores the
/// store exactly.
pub proof fn lemma_add_then_remove_member(
    m: Map<Seq<char>, CanvasModel>,
    id: Seq<char>,
    u: Seq<char>,
)
    requires
        m.dom().contains(id),
        !m[id].has_user(u),
    ensures
        member_removed(member_added(m, id, u), id, u) == m,
{
    lemma_invite_then_remove_restores(m[id], u);
    assert(member_removed(member_added(m, id, u), id, u) =~= m);
}

/// Round trip on the invited user's store: accepting the invite stores a
/// follower copy keyed by the owner, and the later eviction deletes exactly
/// that copy, restoring the store the user had before.
pub proof fn lemma_follower_copy_roundtrip(
    m: Map<Seq<char>, CanvasModel>,
    owner: Seq<char>,
    c: CanvasModel,
)
    requires
        !m.dom().contains(owner),
    ensures
        m.insert(owner, c).remove(owner) == m,
{
    assert(m.insert(owner, c).remove(owner) =~= m);
}

/// A response survives the wire: its canonical encoding decodes back to it.
pub proof fn lemma_response_codec_roundtrip(r: RemoteResponse)
    ensures
        codec::response_decoded(codec::response_encoded(r)) == Some(r),
{
    let bytes = codec::response_encoded(r);
    assert(bytes.len() == 1);
    match r {
        RemoteResponse::InviteAccepted => {
            assert(bytes[0] == 1u8);
        },
        RemoteResponse::InviteRejected => {
            assert(bytes[0] == 0u8);
        },
    }
}

/// The decoder is strict: only the canonical encoding of a response
/// decodes to it.
pub proof fn lemma_response_decode_exact(bytes: Seq<u8>, r: RemoteResponse)
    requires
        codec::response_decoded(bytes) == Some(r),
    ensures
        bytes == codec::response_encoded(r),
{
    assert(bytes.len() == 1);
    assert(bytes =~= codec::response_encoded(r));
}

} // verus!

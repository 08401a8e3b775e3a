use crate::queue::QueueId;
use crate::registry::{departed, joined, no_empty_session, RegistryState, SessionKey};
use crate::role::Role;
use crate::session::{kept, other_than, SessionState};
use vstd::prelude::*;

verus! {

/// One arrival or departure at the registry.
pub enum Movement {
    Join { id: SessionKey, role: Role, queue: QueueId },
    Leave { id: SessionKey, role: Role, queue: QueueId },
}

/// The registry after one movement.
pub open spec fn moved(state: RegistryState, movement: Movement) -> RegistryState {
    match movement {
        Movement::Join { id, role, queue } => joined(state, id, role, queue),
        Movement::Leave { id, role, queue } => departed(state, id, role, queue),
    }
}

/// The registry after a run of movements, first to last.
pub open spec fn moved_all(state: RegistryState, movements: Seq<Movement>) -> RegistryState
    decreases movements.len(),
{
    if movements.len() == 0 {
        state
    } else {
        moved(moved_all(state, movements.drop_last()), movements.last())
    }
}

proof fn lemma_filter_keeps_all(members: Seq<QueueId>, wanted: spec_fn(QueueId) -> bool)
    requires
        forall|i: int| 0 <= i < members.len() ==> wanted(members[i]),
    ensures
        members.filter(wanted) == members,
    decreases members.len(),
{
    reveal(Seq::filter);
    if members.len() > 0 {
        lemma_filter_keeps_all(members.drop_last(), wanted);
        assert(members.drop_last().push(members.last()) =~= members);
    }
}

/// A join leaves no session without members.
pub proof fn lemma_join_leaves_no_empty_session(
    state: RegistryState,
    id: SessionKey,
    role: Role,
    queue: QueueId,
)
    requires
        no_empty_session(state),
    ensures
        no_empty_session(joined(state, id, role, queue)),
{
    let after = joined(state, id, role, queue);
    assert forall|k: SessionKey| after.contains_key(k) implies !(#[trigger] after[k]).is_empty() by {
        if k == id {
            if role == Role::Voyager {
                assert(after[k].voyagers.len() > 0);
            }
        } else {
            assert(after[k] == state[k]);
        }
    }
}

/// A leave leaves no session without members: the session that it empties
/// is deleted at once.
pub proof fn lemma_leave_leaves_no_empty_session(
    state: RegistryState,
    id: SessionKey,
    role: Role,
    queue: QueueId,
)
    requires
        no_empty_session(state),
    ensures
        no_empty_session(departed(state, id, role, queue)),
{
    let after = departed(state, id, role, queue);
    assert forall|k: SessionKey| after.contains_key(k) implies !(#[trigger] after[k]).is_empty() by {
        if k != id {
            assert(after[k] == state[k]);
        }
    }
}

/// Whatever connections join and leave, and in whatever order, the
/// registry never holds a session that has neither a Horizon nor a Voyager.
pub proof fn lemma_no_session_is_ever_empty(movements: Seq<Movement>)
    ensures
        no_empty_session(moved_all(Map::<SessionKey, SessionState>::empty(), movements)),
    decreases movements.len(),
{
    if movements.len() > 0 {
        lemma_no_session_is_ever_empty(movements.drop_last());
        let before = moved_all(Map::<SessionKey, SessionState>::empty(), movements.drop_last());
        match movements.last() {
            Movement::Join { id, role, queue } => {
                lemma_join_leaves_no_empty_session(before, id, role, queue);
            },
            Movement::Leave { id, role, queue } => {
                lemma_leave_leaves_no_empty_session(before, id, role, queue);
            },
        }
    }
}

/// A Horizon that joins is the session's one Horizon, whoever was before
/// it, and the Voyagers stay as they were.
pub proof fn lemma_horizon_is_replaced(state: RegistryState, id: SessionKey, queue: QueueId)
    ensures
        joined(state, id, Role::Horizon, queue).contains_key(id),
        joined(state, id, Role::Horizon, queue)[id].horizon == Some(queue),
        state.contains_key(id) ==> joined(state, id, Role::Horizon, queue)[id].voyagers
            == state[id].voyagers,
{
}

/// A Horizon that was displaced and then leaves changes nothing: its
/// successor stays attached.
pub proof fn lemma_late_leave_spares_successor(
    state: RegistryState,
    id: SessionKey,
    first: QueueId,
    second: QueueId,
)
    requires
        first != second,
    ensures
        departed(
            joined(joined(state, id, Role::Horizon, first), id, Role::Horizon, second),
            id,
            Role::Horizon,
            first,
        ) == joined(joined(state, id, Role::Horizon, first), id, Role::Horizon, second),
{
    let both = joined(joined(state, id, Role::Horizon, first), id, Role::Horizon, second);
    assert(both[id].without_member(Role::Horizon, first) == both[id]);
    assert(both.insert(id, both[id]) =~= both);
}

/// To leave twice is to leave once.
pub proof fn lemma_leave_is_idempotent(
    state: RegistryState,
    id: SessionKey,
    role: Role,
    queue: QueueId,
)
    ensures
        departed(departed(state, id, role, queue), id, role, queue) == departed(
            state,
            id,
            role,
            queue,
        ),
{
    let once = departed(state, id, role, queue);
    if once.contains_key(id) {
        let session = state[id].without_member(role, queue);
        assert(once[id] == session);
        let others = other_than(queue);
        if role == Role::Voyager {
            assert forall|i: int| 0 <= i < session.voyagers.len() implies others(
                session.voyagers[i],
            ) by {
                state[id].voyagers.lemma_filter_pred(others, i);
            }
            lemma_filter_keeps_all(session.voyagers, others);
        }
        assert(session.without_member(role, queue) == session);
        assert(once.insert(id, session) =~= once);
    }
}

/// A Voyager that has left is no longer among those to whom a Horizon's
/// frame is offered.
pub proof fn lemma_voyager_that_left_is_not_served(
    state: RegistryState,
    id: SessionKey,
    queue: QueueId,
)
    ensures
        departed(state, id, Role::Voyager, queue).contains_key(id) ==> !departed(
            state,
            id,
            Role::Voyager,
            queue,
        )[id].voyagers.contains(queue),
{
    let after = departed(state, id, Role::Voyager, queue);
    if after.contains_key(id) {
        let others = other_than(queue);
        let rest = after[id].voyagers;
        assert(rest == state[id].voyagers.filter(others));
        assert forall|i: int| 0 <= i < rest.len() implies rest[i] != queue by {
            state[id].voyagers.lemma_filter_pred(others, i);
        }
    }
}

/// After a frame was fanned out, the Voyagers that took it are all still
/// attached, none is attached that did not take it, and had all taken it,
/// the Voyagers would be as they were.
pub proof fn lemma_fan_out_keeps_the_living(members: Seq<QueueId>, taken: Seq<bool>)
    requires
        members.len() <= taken.len(),
    ensures
        kept(members, taken).len() <= members.len(),
        forall|i: int|
            0 <= i < members.len() && taken[i] ==> kept(members, taken).contains(
                #[trigger] members[i],
            ),
        forall|j: int|
            0 <= j < kept(members, taken).len() ==> exists|i: int|
                0 <= i < members.len() && taken[i] && members[i] == #[trigger] kept(
                    members,
                    taken,
                )[j],
        (forall|i: int| 0 <= i < members.len() ==> taken[i]) ==> kept(members, taken) == members,
    decreases members.len(),
{
    if members.len() > 0 {
        let n = members.len() as int;
        let front = members.drop_last();
        lemma_fan_out_keeps_the_living(front, taken);
        let all = kept(members, taken);
        let some = kept(front, taken);
        assert forall|i: int| 0 <= i < n && taken[i] implies all.contains(
            #[trigger] members[i],
        ) by {
            if i < n - 1 {
                assert(front[i] == members[i]);
                assert(some.contains(front[i]));
                let j = choose|j: int| 0 <= j < some.len() && some[j] == front[i];
                assert(all[j] == members[i]);
            } else {
                assert(all[all.len() - 1] == members[i]);
            }
        }
        assert forall|j: int| 0 <= j < all.len() implies exists|i: int|
            0 <= i < n && taken[i] && members[i] == #[trigger] all[j] by {
            if j < some.len() {
                let i = choose|i: int| 0 <= i < front.len() && taken[i] && front[i] == some[j];
                assert(0 <= i < n && taken[i] && members[i] == all[j]);
            } else {
                assert(0 <= n - 1 < n && taken[n - 1] && members[n - 1] == all[j]);
            }
        }
        if forall|i: int| 0 <= i < n ==> taken[i] {
            assert(front.push(members.last()) =~= members);
        }
    }
}

/// A session that was closed is not found afterwards.
pub proof fn lemma_closed_session_is_not_found(state: RegistryState, id: SessionKey)
    ensures
        !state.remove(id).contains_key(id),
        forall|other: SessionKey|
            other != id ==> (state.remove(id).contains_key(other) <==> state.contains_key(other)),
{
}

} // verus!

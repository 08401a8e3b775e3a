use crate::frame::Frame;
use crate::queue::OutboundQueue;
use crate::role::Role;
use crate::router::{may_route_as, route, routed_session, Routed};
use crate::session::{Session, SessionState};
use crate::session_id::{generate_session_id, is_session_id};
use vstd::prelude::*;

verus! {

/// A session id as the contracts see it.
pub type SessionKey = Seq<char>;

/// What the registry is to the contracts: the live sessions by id.
pub type RegistryState = Map<SessionKey, SessionState>;

/// One line of the admin listing.
#[derive(Clone, Debug, PartialEq, Eq)]
pub struct SessionStatus {
    pub session: String,
    pub horizon_connected: bool,
    pub voyager_count: usize,
}

/// The registry after `queue` joined session `id` as `role`: the session is
/// created if it was not there.
pub open spec fn joined(state: RegistryState, id: SessionKey, role: Role, queue: int)
    -> RegistryState {
    let session = if state.contains_key(id) {
        state[id]
    } else {
        SessionState::empty()
    };
    state.insert(id, session.with_member(role, queue))
}

/// The registry after `queue` left session `id` as `role`: a session that
/// is left without members is deleted; an unknown id changes nothing.
pub open spec fn departed(state: RegistryState, id: SessionKey, role: Role, queue: int)
    -> RegistryState {
    if !state.contains_key(id) {
        state
    } else if state[id].without_member(role, queue).is_empty() {
        state.remove(id)
    } else {
        state.insert(id, state[id].without_member(role, queue))
    }
}

/// What a connection learns when it has joined.
#[derive(Debug, PartialEq, Eq)]
pub struct Joined {
    /// The session it is in: the one it asked for, or the one assigned.
    pub session_id: String,
    /// Whether it took the place of a Horizon that was still attached.
    pub displaced: bool,
}

/// No session of `state` is without members. Joins and leaves keep it so.
/// Routing does not: it may drop the last member of a session, which then
/// stays until the next leave deletes it.
pub open spec fn no_empty_session(state: RegistryState) -> bool {
    forall|id: SessionKey| state.contains_key(id) ==> !(#[trigger] state[id]).is_empty()
}

/// `ids` without `id`, the others in their order.
pub open spec fn without_id(ids: Seq<SessionKey>, id: SessionKey) -> Seq<SessionKey> {
    ids.filter(|k: SessionKey| k != id)
}

struct Entry {
    id: String,
    session: Session,
}

spec fn entry_ids(entries: Seq<Entry>) -> Seq<SessionKey> {
    Seq::new(entries.len(), |i: int| entries[i].id@)
}

spec fn entry_map(entries: Seq<Entry>) -> RegistryState {
    Map::new(
        |id: SessionKey| entry_ids(entries).contains(id),
        |id: SessionKey| entries[entry_ids(entries).index_of(id)].session@,
    )
}

proof fn lemma_entry_at(entries: Seq<Entry>, i: int)
    requires
        entry_ids(entries).no_duplicates(),
        0 <= i < entries.len(),
    ensures
        entry_map(entries).contains_key(entries[i].id@),
        entry_map(entries)[entries[i].id@] == entries[i].session@,
        entry_ids(entries).index_of(entries[i].id@) == i,
{
    let ids = entry_ids(entries);
    assert(ids[i] == entries[i].id@);
    assert(ids.contains(entries[i].id@));
    let j = ids.index_of(entries[i].id@);
    assert(0 <= j < ids.len() && ids[j] == ids[i]);
}

proof fn lemma_entry_pushed(entries: Seq<Entry>, entry: Entry)
    requires
        entry_ids(entries).no_duplicates(),
        !entry_ids(entries).contains(entry.id@),
    ensures
        entry_ids(entries.push(entry)) == entry_ids(entries).push(entry.id@),
        entry_ids(entries.push(entry)).no_duplicates(),
        entry_map(entries.push(entry)) == entry_map(entries).insert(entry.id@, entry.session@),
{
    let after = entries.push(entry);
    let ids = entry_ids(entries);
    assert(entry_ids(after) =~= ids.push(entry.id@));
    assert forall|i: int, j: int|
        0 <= i < after.len() && 0 <= j < after.len() && i != j implies entry_ids(after)[i]
        != entry_ids(after)[j] by {
        if i < entries.len() {
            assert(ids[i] == entry_ids(after)[i]);
        }
        if j < entries.len() {
            assert(ids[j] == entry_ids(after)[j]);
        }
    }
    assert forall|id: SessionKey|
        entry_map(after).contains_key(id) <==> #[trigger] entry_map(entries).insert(
            entry.id@,
            entry.session@,
        ).contains_key(id) by {
        if entry_ids(after).contains(id) {
            let i = choose|i: int| 0 <= i < after.len() && entry_ids(after)[i] == id;
            if i < entries.len() {
                assert(ids[i] == id);
            }
        }
        if ids.contains(id) {
            let i = choose|i: int| 0 <= i < ids.len() && ids[i] == id;
            assert(entry_ids(after)[i] == id);
        }
        if id == entry.id@ {
            assert(entry_ids(after)[entries.len() as int] == id);
        }
    }
    assert forall|id: SessionKey| entry_map(after).contains_key(id) implies entry_map(after)[id]
        == #[trigger] entry_map(entries).insert(entry.id@, entry.session@)[id] by {
        let i = choose|i: int| 0 <= i < after.len() && entry_ids(after)[i] == id;
        lemma_entry_at(after, i);
        if i < entries.len() {
            assert(after[i] == entries[i]);
            lemma_entry_at(entries, i);
        }
    }
    assert(entry_map(after) =~= entry_map(entries).insert(entry.id@, entry.session@));
}

proof fn lemma_entry_replaced(entries: Seq<Entry>, i: int, entry: Entry)
    requires
        entry_ids(entries).no_duplicates(),
        0 <= i < entries.len(),
        entry.id@ == entries[i].id@,
    ensures
        entry_ids(entries.update(i, entry)) == entry_ids(entries),
        entry_map(entries.update(i, entry)) == entry_map(entries).insert(
            entry.id@,
            entry.session@,
        ),
{
    let after = entries.update(i, entry);
    assert(entry_ids(after) =~= entry_ids(entries));
    lemma_entry_at(entries, i);
    assert forall|id: SessionKey| entry_map(after).contains_key(id) implies entry_map(after)[id]
        == #[trigger] entry_map(entries).insert(entry.id@, entry.session@)[id] by {
        let j = choose|j: int| 0 <= j < after.len() && entry_ids(after)[j] == id;
        lemma_entry_at(after, j);
        lemma_entry_at(entries, j);
    }
    assert(entry_map(after) =~= entry_map(entries).insert(entry.id@, entry.session@));
}

proof fn lemma_without_absent(ids: Seq<SessionKey>, id: SessionKey)
    requires
        !ids.contains(id),
    ensures
        without_id(ids, id) == ids,
    decreases ids.len(),
{
    reveal(Seq::filter);
    if ids.len() > 0 {
        let front = ids.drop_last();
        assert(ids[ids.len() - 1] != id);
        assert forall|i: int| 0 <= i < front.len() implies front[i] != id by {
            assert(front[i] == ids[i]);
        }
        lemma_without_absent(front, id);
        assert(front.push(ids.last()) =~= ids);
    }
}

proof fn lemma_without_at(ids: Seq<SessionKey>, i: int)
    requires
        ids.no_duplicates(),
        0 <= i < ids.len(),
    ensures
        without_id(ids, ids[i]) == ids.remove(i),
    decreases ids.len(),
{
    reveal(Seq::filter);
    let id = ids[i];
    let front = ids.drop_last();
    if i == ids.len() - 1 {
        assert forall|j: int| 0 <= j < front.len() implies front[j] != id by {
            assert(front[j] == ids[j]);
        }
        assert(!front.contains(id));
        lemma_without_absent(front, id);
        assert(ids.remove(i) =~= front);
    } else {
        assert(front[i] == id);
        lemma_without_at(front, i);
        assert(ids.last() != id);
        assert(front.remove(i).push(ids.last()) =~= ids.remove(i));
    }
}

proof fn lemma_entry_removed(entries: Seq<Entry>, i: int)
    requires
        entry_ids(entries).no_duplicates(),
        0 <= i < entries.len(),
    ensures
        entry_ids(entries.remove(i)) == without_id(entry_ids(entries), entries[i].id@),
        entry_ids(entries.remove(i)).no_duplicates(),
        entry_map(entries.remove(i)) == entry_map(entries).remove(entries[i].id@),
{
    let after = entries.remove(i);
    let ids = entry_ids(entries);
    assert(entry_ids(after) =~= ids.remove(i));
    lemma_without_at(ids, i);
    assert forall|a: int, b: int|
        0 <= a < after.len() && 0 <= b < after.len() && a != b implies entry_ids(after)[a]
        != entry_ids(after)[b] by {
        let a0 = if a < i { a } else { a + 1 };
        let b0 = if b < i { b } else { b + 1 };
        assert(entry_ids(after)[a] == ids[a0]);
        assert(entry_ids(after)[b] == ids[b0]);
    }
    assert forall|id: SessionKey|
        entry_map(after).contains_key(id) <==> #[trigger] entry_map(entries).remove(
            entries[i].id@,
        ).contains_key(id) by {
        if entry_ids(after).contains(id) {
            let a = choose|a: int| 0 <= a < after.len() && entry_ids(after)[a] == id;
            let a0 = if a < i { a } else { a + 1 };
            assert(ids[a0] == id);
            assert(ids[i] == entries[i].id@);
        }
        if ids.contains(id) && id != entries[i].id@ {
            let a0 = choose|a0: int| 0 <= a0 < ids.len() && ids[a0] == id;
            let a = if a0 < i { a0 } else { a0 - 1 };
            assert(entry_ids(after)[a] == id);
        }
    }
    assert forall|id: SessionKey| entry_map(after).contains_key(id) implies entry_map(after)[id]
        == #[trigger] entry_map(entries).remove(entries[i].id@)[id] by {
        let a = choose|a: int| 0 <= a < after.len() && entry_ids(after)[a] == id;
        let a0 = if a < i { a } else { a + 1 };
        lemma_entry_at(after, a);
        assert(after[a] == entries[a0]);
        lemma_entry_at(entries, a0);
    }
    assert(entry_map(after) =~= entry_map(entries).remove(entries[i].id@));
}

fn position(entries: &Vec<Entry>, session_id: &str) -> (at: Option<usize>)
    ensures
        match at {
            Some(i) => i < entries@.len() && entries@[i as int].id@ == session_id@,
            None => !entry_ids(entries@).contains(session_id@),
        },
{
    let wanted = session_id.to_owned();
    let mut i: usize = 0;
    while i < entries.len()
        invariant
            0 <= i <= entries@.len(),
            wanted@ == session_id@,
            forall|j: int| 0 <= j < i ==> entries@[j].id@ != session_id@,
        decreases entries@.len() - i,
    {
        if entries[i].id == wanted {
            return Some(i);
        }
        i = i + 1;
    }
    assert forall|j: int| 0 <= j < entry_ids(entries@).len() implies entry_ids(entries@)[j]
        != session_id@ by {
        assert(entry_ids(entries@)[j] == entries@[j].id@);
    }
    None
}

fn status_of(entry: &Entry) -> (status: SessionStatus)
    ensures
        status.session@ == entry.id@,
        status.horizon_connected == (entry.session@.horizon is Some),
        status.voyager_count == entry.session@.voyagers.len(),
{
    SessionStatus {
        session: entry.id.clone(),
        horizon_connected: entry.session.horizon_connected(),
        voyager_count: entry.session.voyager_count(),
    }
}

fn enter_entries(entries: &mut Vec<Entry>, session_id: String, role: Role, queue: OutboundQueue)
    -> (displaced: bool)
    requires
        entry_ids(old(entries)@).no_duplicates(),
    ensures
        entry_ids(final(entries)@).no_duplicates(),
        entry_map(final(entries)@) == joined(entry_map(old(entries)@), session_id@, role, queue@),
        displaced == (role == Role::Horizon && entry_map(old(entries)@).contains_key(session_id@)
            && entry_map(old(entries)@)[session_id@].horizon is Some),
        entry_ids(final(entries)@) == if entry_map(old(entries)@).contains_key(session_id@) {
            entry_ids(old(entries)@)
        } else {
            entry_ids(old(entries)@).push(session_id@)
        },
{
    match position(entries, session_id.as_str()) {
        Some(i) => {
            proof {
                lemma_entry_at(entries@, i as int);
            }
            let displaced = entries[i].session.attach(role, queue);
            proof {
                assert(entries@ =~= old(entries)@.update(i as int, entries@[i as int]));
                lemma_entry_replaced(old(entries)@, i as int, entries@[i as int]);
            }
            displaced
        },
        None => {
            let mut session = Session::new();
            session.attach(role, queue);
            let entry = Entry { id: session_id, session };
            proof {
                lemma_entry_pushed(entries@, entry);
            }
            entries.push(entry);
            false
        },
    }
}

fn leave_entries(entries: &mut Vec<Entry>, session_id: &str, role: Role, queue: &OutboundQueue)
    requires
        entry_ids(old(entries)@).no_duplicates(),
    ensures
        entry_ids(final(entries)@).no_duplicates(),
        entry_map(final(entries)@) == departed(
            entry_map(old(entries)@),
            session_id@,
            role,
            queue@,
        ),
        entry_ids(final(entries)@) == if entry_map(final(entries)@).contains_key(session_id@) {
            entry_ids(old(entries)@)
        } else {
            without_id(entry_ids(old(entries)@), session_id@)
        },
{
    match position(entries, session_id) {
        Some(i) => {
            proof {
                lemma_entry_at(entries@, i as int);
            }
            entries[i].session.detach(role, queue);
            proof {
                assert(entries@ =~= old(entries)@.update(i as int, entries@[i as int]));
                lemma_entry_replaced(old(entries)@, i as int, entries@[i as int]);
            }
            if entries[i].session.is_empty() {
                proof {
                    lemma_entry_removed(entries@, i as int);
                }
                entries.remove(i);
                assert(entry_map(entries@) =~= entry_map(old(entries)@).remove(session_id@));
            }
        },
        None => {
            proof {
                lemma_without_absent(entry_ids(entries@), session_id@);
            }
        },
    }
}

fn route_entries(
    entries: &mut Vec<Entry>,
    role: Role,
    session_id: &str,
    frame: Frame,
    origin: Option<&OutboundQueue>,
) -> (outcome: Routed)
    requires
        entry_ids(old(entries)@).no_duplicates(),
    ensures
        entry_ids(final(entries)@) == entry_ids(old(entries)@),
        if entry_map(old(entries)@).contains_key(session_id@) {
            &&& may_route_as(
                entry_map(old(entries)@)[session_id@],
                role,
                frame,
                origin is Some,
                outcome,
            )
            &&& entry_map(final(entries)@) == entry_map(old(entries)@).insert(
                session_id@,
                routed_session(entry_map(old(entries)@)[session_id@], outcome),
            )
        } else {
            &&& outcome is NoSession
            &&& entry_map(final(entries)@) == entry_map(old(entries)@)
        },
{
    match position(entries, session_id) {
        Some(i) => {
            proof {
                lemma_entry_at(entries@, i as int);
            }
            let outcome = route(&mut entries[i].session, role, frame, origin);
            proof {
                assert(entries@ =~= old(entries)@.update(i as int, entries@[i as int]));
                lemma_entry_replaced(old(entries)@, i as int, entries@[i as int]);
            }
            outcome
        },
        None => Routed::NoSession,
    }
}

fn close_entries(entries: &mut Vec<Entry>, session_id: &str) -> (closed: bool)
    requires
        entry_ids(old(entries)@).no_duplicates(),
    ensures
        entry_ids(final(entries)@).no_duplicates(),
        closed == entry_map(old(entries)@).contains_key(session_id@),
        entry_map(final(entries)@) == entry_map(old(entries)@).remove(session_id@),
        entry_ids(final(entries)@) == without_id(entry_ids(old(entries)@), session_id@),
        !closed ==> final(entries)@ == old(entries)@,
{
    match position(entries, session_id) {
        Some(i) => {
            proof {
                lemma_entry_at(entries@, i as int);
                lemma_entry_removed(entries@, i as int);
            }
            let entry = entries.remove(i);
            entry.session.signal_close();
            true
        },
        None => {
            proof {
                lemma_without_absent(entry_ids(entries@), session_id@);
            }
            assert(entry_map(entries@) =~= entry_map(old(entries)@).remove(session_id@));
            false
        },
    }
}

/// The process-wide table of live sessions. Every operation takes the
/// registry as a whole, so none can see another half done; a caller that
/// shares one between tasks puts it behind a lock.
///
/// The sessions are held in the order of their creation and found by
/// their id in a search from the front. Ids are strings, and of a hash map
/// with string keys vstd specifies neither a walk over the entries nor a
/// change of a value in place, both of which the registry needs.
pub struct Registry {
    entries: Vec<Entry>,
}

impl View for Registry {
    type V = RegistryState;

    closed spec fn view(&self) -> RegistryState {
        entry_map(self.entries@)
    }
}

impl Registry {
    /// The ids of the live sessions, oldest session first.
    pub closed spec fn ids(&self) -> Seq<SessionKey> {
        entry_ids(self.entries@)
    }

    #[verifier::type_invariant]
    spec fn distinct_ids(&self) -> bool {
        entry_ids(self.entries@).no_duplicates()
    }

    /// The listing order names exactly the live sessions.
    pub proof fn lemma_ids_are_the_sessions(&self)
        ensures
            forall|id: SessionKey| self.ids().contains(id) <==> self@.contains_key(id),
    {
    }

    /// A registry without sessions.
    pub fn new() -> (registry: Registry)
        ensures
            registry@ == Map::<SessionKey, SessionState>::empty(),
            registry.ids() == Seq::<SessionKey>::empty(),
    {
        let entries: Vec<Entry> = Vec::new();
        assert(entry_ids(entries@) =~= Seq::empty());
        assert(entry_map(entries@) =~= Map::empty());
        Registry { entries }
    }

    /// Hands the entries out for a change and leaves none behind; the
    /// caller puts them back.
    fn take_entries(&mut self) -> (entries: Vec<Entry>)
        ensures
            entries == old(self).entries,
            entry_ids(entries@).no_duplicates(),
    {
        proof {
            use_type_invariant(&*self);
        }
        let mut entries: Vec<Entry> = Vec::new();
        assert(entry_ids(entries@) =~= Seq::empty());
        std::mem::swap(&mut self.entries, &mut entries);
        entries
    }

    /// Whether `session_id` names a live session.
    pub fn contains(&self, session_id: &str) -> (live: bool)
        ensures
            live == self@.contains_key(session_id@),
    {
        match position(&self.entries, session_id) {
            Some(i) => {
                assert(self.ids()[i as int] == session_id@);
                true
            },
            None => false,
        }
    }

    /// The status of one session, if it is live.
    pub fn get(&self, session_id: &str) -> (status: Option<SessionStatus>)
        ensures
            match status {
                Some(s) => {
                    &&& self@.contains_key(session_id@)
                    &&& s.session@ == session_id@
                    &&& s.horizon_connected == (self@[session_id@].horizon is Some)
                    &&& s.voyager_count == self@[session_id@].voyagers.len()
                },
                None => !self@.contains_key(session_id@),
            },
    {
        proof {
            use_type_invariant(self);
        }
        match position(&self.entries, session_id) {
            Some(i) => {
                proof {
                    lemma_entry_at(self.entries@, i as int);
                }
                Some(status_of(&self.entries[i]))
            },
            None => None,
        }
    }

    /// The status of every live session, oldest session first.
    pub fn snapshot(&self) -> (listing: Vec<SessionStatus>)
        ensures
            self.ids().no_duplicates(),
            listing@.len() == self.ids().len(),
            forall|i: int|
                #![trigger listing@[i]]
                0 <= i < listing@.len() ==> {
                    &&& listing@[i].session@ == self.ids()[i]
                    &&& self@.contains_key(self.ids()[i])
                    &&& listing@[i].horizon_connected == (self@[self.ids()[i]].horizon is Some)
                    &&& listing@[i].voyager_count == self@[self.ids()[i]].voyagers.len()
                },
    {
        proof {
            use_type_invariant(self);
        }
        let mut listing: Vec<SessionStatus> = Vec::new();
        let mut i: usize = 0;
        while i < self.entries.len()
            invariant
                0 <= i <= self.entries@.len(),
                entry_ids(self.entries@).no_duplicates(),
                listing@.len() == i,
                forall|j: int|
                    #![trigger listing@[j]]
                    0 <= j < i ==> {
                        &&& listing@[j].session@ == self.ids()[j]
                        &&& self@.contains_key(self.ids()[j])
                        &&& listing@[j].horizon_connected == (self@[self.ids()[j]].horizon is Some)
                        &&& listing@[j].voyager_count == self@[self.ids()[j]].voyagers.len()
                    },
            decreases self.entries@.len() - i,
        {
            proof {
                lemma_entry_at(self.entries@, i as int);
            }
            listing.push(status_of(&self.entries[i]));
            i = i + 1;
        }
        listing
    }

    /// Attaches `queue` as `role` to the session `session_id`, which is
    /// created if it is not live, and says whether a Horizon was displaced.
    fn enter(&mut self, session_id: String, role: Role, queue: OutboundQueue) -> (displaced:
        bool)
        ensures
            final(self)@ == joined(old(self)@, session_id@, role, queue@),
            displaced == (role == Role::Horizon && old(self)@.contains_key(session_id@) && old(
                self,
            )@[session_id@].horizon is Some),
            final(self).ids() == if old(self)@.contains_key(session_id@) {
                old(self).ids()
            } else {
                old(self).ids().push(session_id@)
            },
    {
        let mut entries = self.take_entries();
        let displaced = enter_entries(&mut entries, session_id, role, queue);
        self.entries = entries;
        displaced
    }

    /// Attaches a connection to a session. With a `session_id` it joins
    /// that session, which is created if it is not live. Without one, which
    /// only a Horizon may do, it joins a new session under a generated id,
    /// the first of `max_draws` candidates that is free. `None` means that
    /// every candidate was taken; the registry is then as it was.
    pub fn join(
        &mut self,
        session_id: Option<String>,
        role: Role,
        queue: OutboundQueue,
        max_draws: usize,
    ) -> (joined: Option<Joined>)
        requires
            role == Role::Voyager ==> session_id is Some,
        ensures
            session_id matches Some(asked) ==> joined matches Some(j) && j.session_id@ == asked@,
            session_id is None && max_draws > 0 && old(self)@.dom() =~= Set::<SessionKey>::empty()
                ==> joined is Some,
            match joined {
                Some(j) => {
                    &&& session_id is None ==> is_session_id(j.session_id@) && !old(
                        self,
                    )@.contains_key(j.session_id@)
                    &&& final(self)@ == self::joined(old(self)@, j.session_id@, role, queue@)
                    &&& j.displaced == (role == Role::Horizon && old(self)@.contains_key(
                        j.session_id@,
                    ) && old(self)@[j.session_id@].horizon is Some)
                    &&& final(self).ids() == if old(self)@.contains_key(j.session_id@) {
                        old(self).ids()
                    } else {
                        old(self).ids().push(j.session_id@)
                    }
                },
                None => final(self)@ == old(self)@ && final(self).ids() == old(self).ids(),
            },
    {
        let resolved = match session_id {
            Some(asked) => Some(asked),
            None => generate_session_id(self, max_draws),
        };
        match resolved {
            Some(id) => {
                let displaced = self.enter(id.clone(), role, queue);
                Some(Joined { session_id: id, displaced })
            },
            None => None,
        }
    }

    /// Routes one inbound frame of a connection that plays `role` in the
    /// session `session_id`, as `route` says. A frame for a session that is
    /// no longer live is dropped. Routing deletes no session.
    pub fn route_message(
        &mut self,
        role: Role,
        session_id: &str,
        frame: Frame,
        origin: Option<&OutboundQueue>,
    ) -> (outcome: Routed)
        ensures
            final(self).ids() == old(self).ids(),
            if old(self)@.contains_key(session_id@) {
                &&& may_route_as(old(self)@[session_id@], role, frame, origin is Some, outcome)
                &&& final(self)@ == old(self)@.insert(
                    session_id@,
                    routed_session(old(self)@[session_id@], outcome),
                )
            } else {
                &&& outcome is NoSession
                &&& final(self)@ == old(self)@
            },
    {
        let mut entries = self.take_entries();
        let outcome = route_entries(&mut entries, role, session_id, frame, origin);
        self.entries = entries;
        outcome
    }

    /// Detaches `queue` from the session `session_id`, where it was attached
    /// as `role`, and deletes the session if nobody is left in it. A Horizon
    /// that has been displaced leaves its successor attached. An id that is
    /// not live changes nothing, so leaving twice is leaving once.
    pub fn leave(&mut self, session_id: &str, role: Role, queue: &OutboundQueue)
        ensures
            final(self)@ == departed(old(self)@, session_id@, role, queue@),
            final(self).ids() == if final(self)@.contains_key(session_id@) {
                old(self).ids()
            } else {
                without_id(old(self).ids(), session_id@)
            },
    {
        let mut entries = self.take_entries();
        leave_entries(&mut entries, session_id, role, queue);
        self.entries = entries;
    }

    /// Offers the close signal to every member of the session `session_id`
    /// and deletes the session. `false`: no such session was live.
    pub fn close(&mut self, session_id: &str) -> (closed: bool)
        ensures
            closed == old(self)@.contains_key(session_id@),
            final(self)@ == old(self)@.remove(session_id@),
            final(self).ids() == without_id(old(self).ids(), session_id@),
            !closed ==> final(self)@ == old(self)@ && final(self).ids() == old(self).ids(),
    {
        let mut entries = self.take_entries();
        let closed = close_entries(&mut entries, session_id);
        self.entries = entries;
        closed
    }
}

} // verus!

use crate::frame::Frame;
use crate::queue::{queue_ids, OutboundQueue, QueueId};
use crate::role::Role;
use vstd::prelude::*;

verus! {

/// What a session is to the contracts: who its Horizon is, if any, and its
/// Voyagers in the order in which they joined.
pub struct SessionState {
    pub horizon: Option<QueueId>,
    pub voyagers: Seq<QueueId>,
}

/// The members that stay after each was offered a frame: `taken` holds one
/// flag for each member, in their order, and a member stays unless its
/// flag says that it did not take the frame.
pub open spec fn kept(members: Seq<QueueId>, taken: Seq<bool>) -> Seq<QueueId>
    decreases members.len(),
{
    if members.len() == 0 {
        members
    } else if members.len() <= taken.len() && !taken[members.len() - 1] {
        kept(members.drop_last(), taken)
    } else {
        kept(members.drop_last(), taken).push(members.last())
    }
}

/// The test that every queue but `queue` passes.
pub open spec fn other_than(queue: QueueId) -> spec_fn(QueueId) -> bool {
    |v: QueueId| v != queue
}

impl SessionState {
    /// The session that nobody has joined.
    pub open spec fn empty() -> SessionState {
        SessionState { horizon: None, voyagers: Seq::empty() }
    }

    /// No Horizon and no Voyager: such a session is due for deletion.
    pub open spec fn is_empty(self) -> bool {
        self.horizon is None && self.voyagers.len() == 0
    }

    /// After `queue` joins as `role`. A Horizon displaces the one before
    /// it; a Voyager joins behind the others.
    pub open spec fn with_member(self, role: Role, queue: QueueId) -> SessionState {
        match role {
            Role::Horizon => SessionState { horizon: Some(queue), voyagers: self.voyagers },
            Role::Voyager => SessionState {
                horizon: self.horizon,
                voyagers: self.voyagers.push(queue),
            },
        }
    }

    /// After `queue` leaves as `role`. A Horizon that has been displaced
    /// leaves its successor in place.
    pub open spec fn without_member(self, role: Role, queue: QueueId) -> SessionState {
        match role {
            Role::Horizon => if self.horizon == Some(queue) {
                SessionState { horizon: None, voyagers: self.voyagers }
            } else {
                self
            },
            Role::Voyager => SessionState {
                horizon: self.horizon,
                voyagers: self.voyagers.filter(other_than(queue)),
            },
        }
    }

    /// After a frame of the Horizon went out and `taken` says which
    /// Voyagers took it.
    pub open spec fn after_fan_out(self, taken: Seq<bool>) -> SessionState {
        SessionState { horizon: self.horizon, voyagers: kept(self.voyagers, taken) }
    }

    /// After the Horizon was found to be gone.
    pub open spec fn without_horizon(self) -> SessionState {
        SessionState { horizon: None, voyagers: self.voyagers }
    }
}

/// A registry entry: at most one Horizon queue and the Voyager queues in
/// joining order. It holds capabilities to send, not the connections.
pub struct Session {
    pub horizon: Option<OutboundQueue>,
    pub voyagers: Vec<OutboundQueue>,
}

impl View for Session {
    type V = SessionState;

    open spec fn view(&self) -> SessionState {
        SessionState {
            horizon: match self.horizon {
                Some(queue) => Some(queue@),
                None => None,
            },
            voyagers: queue_ids(self.voyagers@),
        }
    }
}

impl Session {
    /// A session without members.
    pub fn new() -> (session: Session)
        ensures
            session@ == SessionState::empty(),
    {
        let session = Session { horizon: None, voyagers: Vec::new() };
        assert(queue_ids(session.voyagers@) =~= Seq::empty());
        session
    }

    /// Whether nobody is attached.
    pub fn is_empty(&self) -> (b: bool)
        ensures
            b == self@.is_empty(),
    {
        self.horizon.is_none() && self.voyagers.len() == 0
    }

    /// Whether a Horizon is attached.
    pub fn horizon_connected(&self) -> (b: bool)
        ensures
            b == (self@.horizon is Some),
    {
        self.horizon.is_some()
    }

    /// How many Voyagers are attached.
    pub fn voyager_count(&self) -> (n: usize)
        ensures
            n == self@.voyagers.len(),
    {
        self.voyagers.len()
    }

    /// Attaches `queue` as `role` and says whether a Horizon was displaced.
    pub fn attach(&mut self, role: Role, queue: OutboundQueue) -> (displaced: bool)
        ensures
            final(self)@ == old(self)@.with_member(role, queue@),
            displaced == (role == Role::Horizon && old(self)@.horizon is Some),
    {
        match role {
            Role::Horizon => {
                let displaced = self.horizon.is_some();
                self.horizon = Some(queue);
                displaced
            },
            Role::Voyager => {
                self.voyagers.push(queue);
                assert(queue_ids(self.voyagers@) =~= queue_ids(old(self).voyagers@).push(queue@));
                false
            },
        }
    }

    /// Detaches `queue` from its place as `role`. A Horizon is cleared only
    /// while it is still the one attached; as a Voyager every handle of the
    /// same queue goes.
    pub fn detach(&mut self, role: Role, queue: &OutboundQueue)
        ensures
            final(self)@ == old(self)@.without_member(role, queue@),
    {
        match role {
            Role::Horizon => {
                let current = match &self.horizon {
                    Some(horizon) => horizon.is_same(queue),
                    None => false,
                };
                if current {
                    self.horizon = None;
                }
            },
            Role::Voyager => {
                let ghost before = queue_ids(self.voyagers@);
                let ghost others = other_than(queue@);
                let ghost mut seen: int = 0;
                let mut i: usize = 0;
                assert(before.take(0).filter(others) =~= Seq::empty()) by {
                    reveal(Seq::filter);
                }
                assert(before.skip(0) =~= before);
                while i < self.voyagers.len()
                    invariant
                        self.horizon == old(self).horizon,
                        before == queue_ids(old(self).voyagers@),
                        others == other_than(queue@),
                        0 <= seen <= before.len(),
                        i == before.take(seen).filter(others).len(),
                        queue_ids(self.voyagers@) == before.take(seen).filter(others) + before.skip(
                            seen,
                        ),
                    decreases before.len() - seen,
                {
                    let ghost current = queue_ids(self.voyagers@);
                    assert(current[i as int] == before[seen]);
                    assert(before.take(seen + 1) =~= before.take(seen).push(before[seen]));
                    proof {
                        before.take(seen).lemma_filter_push(before[seen], others);
                    }
                    if self.voyagers[i].is_same(queue) {
                        self.voyagers.remove(i);
                        assert(queue_ids(self.voyagers@) =~= current.remove(i as int));
                        assert(current.remove(i as int) =~= before.take(seen + 1).filter(others)
                            + before.skip(seen + 1));
                    } else {
                        assert(current =~= before.take(seen + 1).filter(others) + before.skip(
                            seen + 1,
                        ));
                        i = i + 1;
                    }
                    proof {
                        seen = seen + 1;
                    }
                }
                assert(before.take(seen) =~= before);
                assert(queue_ids(self.voyagers@) =~= before.filter(others));
            },
        }
    }

    /// Offers a copy of `frame` to every Voyager, first to last, once each.
    /// The result holds one flag for each Voyager, in order: whether it took
    /// the frame. Whether a peer takes a frame is the peer's affair, so the
    /// flags are whatever came back.
    pub fn offer_to_voyagers(&self, frame: &Frame) -> (taken: Vec<bool>)
        ensures
            taken@.len() == self@.voyagers.len(),
    {
        let mut taken: Vec<bool> = Vec::new();
        let mut i: usize = 0;
        while i < self.voyagers.len()
            invariant
                0 <= i <= self.voyagers@.len(),
                taken@.len() == i,
            decreases self.voyagers@.len() - i,
        {
            taken.push(self.voyagers[i].push(frame.copy()));
            i = i + 1;
        }
        taken
    }

    /// Drops the Voyagers that did not take a frame: `taken` holds one flag
    /// for each Voyager, in order. The others stay in their order.
    pub fn keep_taken(&mut self, taken: &Vec<bool>)
        ensures
            final(self)@ == old(self)@.after_fan_out(taken@),
    {
        let ghost before = queue_ids(self.voyagers@);
        let total = self.voyagers.len();
        let mut seen: usize = 0;
        let mut i: usize = 0;
        assert(before.skip(0) =~= before);
        assert(kept(before.take(0), taken@) =~= Seq::empty());
        while i < self.voyagers.len()
            invariant
                self.horizon == old(self).horizon,
                before == queue_ids(old(self).voyagers@),
                0 <= i <= seen <= before.len() == total,
                i == kept(before.take(seen as int), taken@).len(),
                queue_ids(self.voyagers@) == kept(before.take(seen as int), taken@)
                    + before.skip(seen as int),
            decreases before.len() - seen,
        {
            let ghost current = queue_ids(self.voyagers@);
            assert(current[i as int] == before[seen as int]);
            assert(before.take(seen + 1).drop_last() =~= before.take(seen as int));
            if seen < taken.len() && !taken[seen] {
                self.voyagers.remove(i);
                assert(queue_ids(self.voyagers@) =~= current.remove(i as int));
                assert(current.remove(i as int) =~= kept(before.take(seen + 1), taken@)
                    + before.skip(seen + 1));
            } else {
                assert(current =~= kept(before.take(seen + 1), taken@) + before.skip(seen + 1));
                i = i + 1;
            }
            seen = seen + 1;
        }
        assert(before.take(seen as int) =~= before);
        assert(queue_ids(self.voyagers@) =~= kept(before, taken@));
    }

    /// Offers a copy of `frame` to every Voyager and drops those that did
    /// not take it, as `offer_to_voyagers` and `keep_taken` say.
    pub fn fan_out(&mut self, frame: &Frame) -> (taken: Vec<bool>)
        ensures
            taken@.len() == old(self)@.voyagers.len(),
            final(self)@ == old(self)@.after_fan_out(taken@),
    {
        let taken = self.offer_to_voyagers(frame);
        self.keep_taken(&taken);
        taken
    }

    /// Offers `frame` to the Horizon, if one is attached. `Some(true)`: it
    /// took the frame; `Some(false)`: it is gone; `None`: there is none.
    pub fn offer_to_horizon(&self, frame: Frame) -> (taken: Option<bool>)
        ensures
            taken is Some == self@.horizon is Some,
    {
        match &self.horizon {
            Some(horizon) => Some(horizon.push(frame)),
            None => None,
        }
    }

    /// Clears a Horizon that did not take a frame: `taken` is what
    /// `offer_to_horizon` gave.
    pub fn keep_horizon(&mut self, taken: Option<bool>)
        ensures
            final(self)@ == if taken == Some(false) {
                old(self)@.without_horizon()
            } else {
                old(self)@
            },
    {
        if let Some(false) = taken {
            self.horizon = None;
        }
    }

    /// Offers `frame` to the Horizon and clears a Horizon that did not take
    /// it, as `offer_to_horizon` and `keep_horizon` say.
    pub fn forward(&mut self, frame: Frame) -> (taken: Option<bool>)
        ensures
            taken is Some == old(self)@.horizon is Some,
            final(self)@ == if taken == Some(false) {
                old(self)@.without_horizon()
            } else {
                old(self)@
            },
    {
        let taken = self.offer_to_horizon(frame);
        self.keep_horizon(taken);
        taken
    }

    /// Offers the close signal to the Horizon and to every Voyager. Whether
    /// a member takes it changes nothing: the session is being discarded.
    pub(crate) fn signal_close(&self) {
        if let Some(horizon) = &self.horizon {
            let _ = horizon.push(Frame::close_signal());
        }
        let mut i: usize = 0;
        while i < self.voyagers.len()
            invariant
                0 <= i <= self.voyagers.len(),
            decreases self.voyagers.len() - i,
        {
            let _ = self.voyagers[i].push(Frame::close_signal());
            i = i + 1;
        }
    }
}

} // verus!

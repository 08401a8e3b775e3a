use crate::frame::Frame;
use tokio::sync::mpsc::UnboundedSender;
use vstd::prelude::*;

verus! {

/// tokio's sending half of an unbounded channel. Verus sees nothing inside
/// a value of it.
#[verifier::external_type_specification]
#[verifier::external_body]
#[verifier::reject_recursive_types(T)]
pub struct ExUnboundedSender<T>(UnboundedSender<T>);

/// How contracts tell one outbound queue from another.
pub type QueueId = int;

/// The channel that a sender feeds: what `UnboundedSender::same_channel`
/// compares.
pub uninterp spec fn channel_of(tx: UnboundedSender<Frame>) -> QueueId;

/// Calls `UnboundedSender::same_channel`, which is true exactly when both
/// senders belong to one channel. The contract says so over `channel_of`.
#[verifier::external_body]
fn same_channel(a: &UnboundedSender<Frame>, b: &UnboundedSender<Frame>) -> (same: bool)
    ensures
        same == (channel_of(*a) == channel_of(*b)),
{
    a.same_channel(b)
}

/// Calls `UnboundedSender::send` and reports whether the frame was taken.
/// tokio refuses a frame once the receiving half is closed or dropped, so
/// the answer depends on the peer and nothing is promised of it. The call
/// never waits. tokio ends the process, without a panic, should a channel
/// ever count about half of `usize::MAX` frames.
#[verifier::external_body]
fn send_frame(tx: &UnboundedSender<Frame>, frame: Frame) -> (taken: bool) {
    tx.send(frame).is_ok()
}

/// The hand-off point between the router and one connection's socket
/// writer: the capability to queue a frame for that peer, and nothing else.
pub struct OutboundQueue {
    tx: UnboundedSender<Frame>,
}

impl View for OutboundQueue {
    type V = QueueId;

    /// A handle is known by the channel that it feeds.
    closed spec fn view(&self) -> QueueId {
        channel_of(self.tx)
    }
}

impl OutboundQueue {
    /// Wraps the sending half of a connection's channel.
    pub fn new(tx: UnboundedSender<Frame>) -> (queue: OutboundQueue)
        ensures
            queue@ == channel_of(tx),
    {
        OutboundQueue { tx }
    }

    /// Whether `self` and `other` lead to the same peer. Two handles are
    /// compared by the channel they feed, never by what they hold.
    pub fn is_same(&self, other: &OutboundQueue) -> (same: bool)
        ensures
            same == (self@ == other@),
    {
        same_channel(&self.tx, &other.tx)
    }

    /// Queues `frame` for the peer. `false` means the peer is gone; the
    /// frame is then lost, and no second attempt is made.
    pub(crate) fn push(&self, frame: Frame) -> (taken: bool) {
        send_frame(&self.tx, frame)
    }
}

/// The identities of a run of queue handles, in the same order.
pub open spec fn queue_ids(queues: Seq<OutboundQueue>) -> Seq<QueueId> {
    Seq::new(queues.len(), |i: int| queues[i]@)
}

} // verus!

use crate::frame::Frame;
use crate::role::Role;
use vstd::prelude::*;

verus! {

/// Where a connection stands in its life.
#[derive(Clone, Copy, Debug, PartialEq, Eq, Structural)]
pub enum Phase {
    /// The socket is there; the registry does not know it yet.
    Connecting,
    /// In the registry. A Horizon is being told its session.
    Joined,
    /// Frames go both ways.
    Relaying,
    /// Something ended the connection; it is being taken off the registry.
    Closing,
    /// Off the registry. Nothing follows.
    Closed,
}

/// What happened to a connection.
#[derive(Clone, Copy, Debug, PartialEq, Eq, Structural)]
pub enum Event {
    /// The registry has taken the connection in.
    Registered,
    /// The Horizon has been told its session.
    Announced,
    /// The Horizon could not be told its session: the peer is gone.
    AnnounceFailed,
    /// A frame came in from the socket.
    FrameReceived,
    /// The socket will yield no more frames: it was closed or it failed.
    InboundEnded,
    /// A frame from the outbound queue was written to the socket.
    /// `close` tells whether it was a close frame.
    FrameWritten { close: bool },
    /// A frame from the outbound queue could not be written.
    WriteFailed,
    /// The connection's task was dropped before it came to its end.
    Cancelled,
    /// The registry has let the connection go.
    Left,
}

/// What the connection's tasks are to do next.
#[derive(Clone, Copy, Debug, PartialEq, Eq, Structural)]
pub enum Action {
    /// Write the `session_assigned` frame to the socket.
    Announce,
    /// Start the reader and the writer.
    Relay,
    /// Hand the frame that came in to the router.
    Route,
    /// Take the connection off the registry.
    Leave,
    /// Stop the reader and the writer.
    Finish,
    /// Go on as before.
    Nothing,
}

/// The phase that follows `phase` on `event`, and what is to be done.
/// An event that has no meaning in a phase changes nothing.
pub open spec fn next_step(phase: Phase, role: Role, event: Event) -> (Phase, Action) {
    match (phase, event) {
        (Phase::Connecting, Event::Registered) => match role {
            Role::Horizon => (Phase::Joined, Action::Announce),
            Role::Voyager => (Phase::Relaying, Action::Relay),
        },
        (Phase::Joined, Event::Announced) => (Phase::Relaying, Action::Relay),
        (Phase::Joined, Event::AnnounceFailed) => (Phase::Closing, Action::Leave),
        (Phase::Joined, Event::Cancelled) => (Phase::Closing, Action::Leave),
        (Phase::Relaying, Event::FrameReceived) => (Phase::Relaying, Action::Route),
        (Phase::Relaying, Event::InboundEnded) => (Phase::Closing, Action::Leave),
        (Phase::Relaying, Event::FrameWritten { close }) => if close {
            (Phase::Closing, Action::Leave)
        } else {
            (Phase::Relaying, Action::Nothing)
        },
        (Phase::Relaying, Event::WriteFailed) => (Phase::Closing, Action::Leave),
        (Phase::Relaying, Event::Cancelled) => (Phase::Closing, Action::Leave),
        (Phase::Closing, Event::Left) => (Phase::Closed, Action::Finish),
        _ => (phase, Action::Nothing),
    }
}

/// Decides what a connection does on `event`. The reader and the writer of
/// one connection both report here, so that the connection is taken off the
/// registry once, whichever of them sees the end first.
pub fn step(phase: Phase, role: Role, event: Event) -> (next: (Phase, Action))
    ensures
        next == next_step(phase, role, event),
{
    match phase {
        Phase::Connecting => match event {
            Event::Registered => match role {
                Role::Horizon => (Phase::Joined, Action::Announce),
                Role::Voyager => (Phase::Relaying, Action::Relay),
            },
            _ => (phase, Action::Nothing),
        },
        Phase::Joined => match event {
            Event::Announced => (Phase::Relaying, Action::Relay),
            Event::AnnounceFailed => (Phase::Closing, Action::Leave),
            Event::Cancelled => (Phase::Closing, Action::Leave),
            _ => (phase, Action::Nothing),
        },
        Phase::Relaying => match event {
            Event::FrameReceived => (Phase::Relaying, Action::Route),
            Event::InboundEnded => (Phase::Closing, Action::Leave),
            Event::FrameWritten { close } => if close {
                (Phase::Closing, Action::Leave)
            } else {
                (Phase::Relaying, Action::Nothing)
            },
            Event::WriteFailed => (Phase::Closing, Action::Leave),
            Event::Cancelled => (Phase::Closing, Action::Leave),
            _ => (phase, Action::Nothing),
        },
        Phase::Closing => match event {
            Event::Left => (Phase::Closed, Action::Finish),
            _ => (phase, Action::Nothing),
        },
        Phase::Closed => (phase, Action::Nothing),
    }
}

/// The event that the writer reports after it tried to write a frame.
pub fn written(close: bool, ok: bool) -> (event: Event)
    ensures
        event == if ok {
            Event::FrameWritten { close }
        } else {
            Event::WriteFailed
        },
{
    if ok {
        Event::FrameWritten { close }
    } else {
        Event::WriteFailed
    }
}

/// What a frame that came in means to the connection. A close frame is
/// the peer's own farewell: it ends the inbound stream and is not handed
/// to the router, so that one peer's leaving closes no other peer's socket.
pub open spec fn event_for(frame: Frame) -> Event {
    if frame is Close {
        Event::InboundEnded
    } else {
        Event::FrameReceived
    }
}

/// The event that the reader reports for a frame that came in.
pub fn received(frame: &Frame) -> (event: Event)
    ensures
        event == event_for(*frame),
{
    if frame.is_close() {
        Event::InboundEnded
    } else {
        Event::FrameReceived
    }
}

/// Whether a connection in `phase` has met its end, so that its reader and
/// its writer stop.
pub fn ended(phase: Phase) -> (b: bool)
    ensures
        b == is_ending(phase),
{
    match phase {
        Phase::Closing => true,
        Phase::Closed => true,
        _ => false,
    }
}

/// Whether a connection in `phase` has been told to leave the registry and
/// has not reported that it left. Whoever finds it so does the leaving: the
/// task that was told may have been dropped on the way, and to leave twice
/// is to leave once.
pub fn cleanup_owed(phase: Phase) -> (b: bool)
    ensures
        b == (phase == Phase::Closing),
{
    match phase {
        Phase::Closing => true,
        _ => false,
    }
}

/// The phase that a new connection is in after `events`.
pub open spec fn phase_after(role: Role, events: Seq<Event>) -> Phase
    decreases events.len(),
{
    if events.len() == 0 {
        Phase::Connecting
    } else {
        next_step(phase_after(role, events.drop_last()), role, events.last()).0
    }
}

/// How often a new connection is told to leave the registry in the course
/// of `events`.
pub open spec fn leaves_during(role: Role, events: Seq<Event>) -> nat
    decreases events.len(),
{
    if events.len() == 0 {
        0
    } else {
        let before = leaves_during(role, events.drop_last());
        if next_step(phase_after(role, events.drop_last()), role, events.last()).1
            == Action::Leave {
            before + 1
        } else {
            before
        }
    }
}

/// Whether a connection in `phase` is attached to the registry.
pub open spec fn is_attached(phase: Phase) -> bool {
    phase == Phase::Joined || phase == Phase::Relaying
}

/// Whether a connection in `phase` has met its end.
pub open spec fn is_ending(phase: Phase) -> bool {
    phase == Phase::Closing || phase == Phase::Closed
}

/// Whatever happens to a connection and in whatever order, it is told to
/// leave the registry once when it meets its end, and never otherwise:
/// not twice where the reader and the writer both see the end, and not at
/// all before it has joined.
pub proof fn lemma_leaves_exactly_once(role: Role, events: Seq<Event>)
    ensures
        leaves_during(role, events) <= 1,
        leaves_during(role, events) == 1 <==> is_ending(phase_after(role, events)),
    decreases events.len(),
{
    if events.len() > 0 {
        lemma_leaves_exactly_once(role, events.drop_last());
    }
}

/// A frame is handed to the router only while the connection relays: none
/// before it has joined, none after its end has begun.
pub proof fn lemma_routes_only_while_relaying(phase: Phase, role: Role, event: Event)
    ensures
        next_step(phase, role, event).1 == Action::Route ==> phase == Phase::Relaying
            && next_step(phase, role, event).0 == Phase::Relaying,
{
}

/// A connection that is closed stays closed and does nothing more.
pub proof fn lemma_closed_is_final(role: Role, event: Event)
    ensures
        next_step(Phase::Closed, role, event) == (Phase::Closed, Action::Nothing),
{
}

/// Every way in which an attached connection can end takes it off the
/// registry: a failed announcement, the end of the inbound stream, a failed
/// write, a close frame that was written, and a task that was dropped.
pub proof fn lemma_every_end_leaves(phase: Phase, role: Role, event: Event)
    requires
        is_attached(phase),
    ensures
        is_ending(next_step(phase, role, event).0) <==> next_step(phase, role, event).1
            == Action::Leave,
{
}

/// A close frame that comes in is never handed to the router, whatever
/// the phase: it ends the connection that it came in on and no other.
pub proof fn lemma_close_frame_is_not_routed(phase: Phase, role: Role, frame: Frame)
    requires
        frame is Close,
    ensures
        next_step(phase, role, event_for(frame)).1 != Action::Route,
        phase == Phase::Relaying ==> next_step(phase, role, event_for(frame)) == (
            Phase::Closing,
            Action::Leave,
        ),
{
}

/// A connection that has joined and whose task is dropped is taken off the
/// registry all the same.
pub proof fn lemma_cancelled_connection_leaves(phase: Phase, role: Role)
    requires
        is_attached(phase),
    ensures
        next_step(phase, role, Event::Cancelled) == (Phase::Closing, Action::Leave),
{
}

} // verus!

use crate::control::{build_no_horizon_reply, is_control_intent};
use crate::frame::Frame;
use crate::queue::OutboundQueue;
use crate::role::Role;
use crate::session::{Session, SessionState};
use vstd::prelude::*;

verus! {

/// What became of one inbound frame.
#[derive(Debug, PartialEq, Eq)]
pub enum Routed {
    /// The session is no longer live: the frame was dropped.
    NoSession,
    /// A Horizon's frame was offered to every Voyager; one flag for each
    /// Voyager, in joining order, says whether it took the frame. Those
    /// that did not are no longer attached.
    FannedOut(Vec<bool>),
    /// A Voyager's frame was taken by the Horizon.
    Forwarded,
    /// A Voyager's frame found the Horizon gone; the Horizon is no longer
    /// attached.
    HorizonLost,
    /// A Voyager's control message found no Horizon attached; the offline
    /// notice was offered to the sender.
    OfflineNotice,
    /// A Voyager's frame found no Horizon attached and was dropped.
    Dropped,
}

/// The session after a frame was routed in it with the given outcome.
pub open spec fn routed_session(before: SessionState, outcome: Routed) -> SessionState {
    match outcome {
        Routed::FannedOut(taken) => before.after_fan_out(taken@),
        Routed::HorizonLost => before.without_horizon(),
        _ => before,
    }
}

/// The outcomes that the routing rules allow for a frame sent as `role`
/// into a session in state `before`. Only whether a peer takes a frame is
/// left open.
pub open spec fn may_route_as(
    before: SessionState,
    role: Role,
    frame: Frame,
    has_origin: bool,
    outcome: Routed,
) -> bool {
    match role {
        Role::Horizon => outcome matches Routed::FannedOut(taken) && taken@.len()
            == before.voyagers.len(),
        Role::Voyager => if before.horizon is Some {
            outcome is Forwarded || outcome is HorizonLost
        } else if has_origin && is_control_intent(frame) {
            outcome is OfflineNotice
        } else {
            outcome is Dropped
        },
    }
}

/// Routes one inbound frame within its session. A Horizon's frame goes to
/// every Voyager, and a Voyager that does not take it is dropped from the
/// session. A Voyager's frame goes to the Horizon, and a Horizon that does
/// not take it is cleared. Where no Horizon is attached, a control message
/// is answered with the offline notice on `origin`, the sender's own
/// queue, and any other frame is dropped. Nothing is offered twice.
pub fn route(session: &mut Session, role: Role, frame: Frame, origin: Option<&OutboundQueue>)
    -> (outcome: Routed)
    ensures
        may_route_as(old(session)@, role, frame, origin is Some, outcome),
        final(session)@ == routed_session(old(session)@, outcome),
{
    match role {
        Role::Horizon => Routed::FannedOut(session.fan_out(&frame)),
        Role::Voyager => {
            if session.horizon_connected() {
                match session.forward(frame) {
                    Some(true) => Routed::Forwarded,
                    _ => Routed::HorizonLost,
                }
            } else {
                match origin {
                    Some(sender) => match build_no_horizon_reply(&frame) {
                        Some(notice) => {
                            let _ = sender.push(notice);
                            Routed::OfflineNotice
                        },
                        None => Routed::Dropped,
                    },
                    None => Routed::Dropped,
                }
            }
        },
    }
}

} // verus!

use tokio::sync::mpsc::{unbounded_channel, UnboundedReceiver, UnboundedSender};
use wormhole::control::session_assigned_frame;
use wormhole::frame::Frame;
use wormhole::queue::OutboundQueue;
use wormhole::registry::{Joined, Registry, SessionStatus};
use wormhole::role::Role;
use wormhole::session::Session;
use wormhole::session_id::ALPHABET;

fn channel() -> (UnboundedSender<Frame>, UnboundedReceiver<Frame>) {
    unbounded_channel::<Frame>()
}

fn queue(tx: &UnboundedSender<Frame>) -> OutboundQueue {
    OutboundQueue::new(tx.clone())
}

fn status(session: &str, horizon_connected: bool, voyager_count: usize) -> SessionStatus {
    SessionStatus { session: session.to_string(), horizon_connected, voyager_count }
}

#[test]
fn new_registry_is_empty() {
    let registry = Registry::new();
    assert!(registry.snapshot().is_empty());
    assert_eq!(registry.get("ABCDEF"), None);
    assert!(!registry.contains("ABCDEF"));
}

#[test]
fn new_session_has_no_members() {
    let session = Session::new();
    assert!(session.is_empty());
    assert!(!session.horizon_connected());
    assert_eq!(session.voyager_count(), 0);
}

#[test]
fn session_lives_from_first_join_to_last_leave() {
    let mut registry = Registry::new();
    let (horizon, _horizon_rx) = channel();
    let (voyager, _voyager_rx) = channel();

    let joined = registry.join(None, Role::Horizon, queue(&horizon), 8).unwrap();
    let id = joined.session_id.clone();
    assert!(!joined.displaced);
    assert_eq!(id.chars().count(), 6);
    assert!(id.chars().all(|c| ALPHABET.contains(c)));
    assert_eq!(registry.get(&id), Some(status(&id, true, 0)));
    let Frame::Text(assigned) = session_assigned_frame(&id) else {
        panic!("not a text frame");
    };
    let assigned: serde_json::Value = serde_json::from_str(&assigned).unwrap();
    assert_eq!(assigned.get("type").and_then(|v| v.as_str()), Some("session_assigned"));
    assert_eq!(assigned.get("sessionId").and_then(|v| v.as_str()), Some(id.as_str()));
    assert_eq!(assigned.get("v").and_then(|v| v.as_u64()), Some(1));

    let second = registry.join(Some(id.clone()), Role::Voyager, queue(&voyager), 0);
    assert_eq!(second, Some(Joined { session_id: id.clone(), displaced: false }));
    assert_eq!(registry.get(&id), Some(status(&id, true, 1)));

    registry.leave(&id, Role::Horizon, &queue(&horizon));
    assert_eq!(registry.get(&id), Some(status(&id, false, 1)));

    registry.leave(&id, Role::Voyager, &queue(&voyager));
    assert_eq!(registry.get(&id), None);
    assert!(registry.snapshot().is_empty());
}

#[test]
fn voyager_may_open_a_session_and_wait() {
    let mut registry = Registry::new();
    let (voyager, _rx) = channel();
    let joined = registry.join(Some("LOBBY1".to_string()), Role::Voyager, queue(&voyager), 0);
    assert_eq!(joined, Some(Joined { session_id: "LOBBY1".to_string(), displaced: false }));
    assert_eq!(registry.get("LOBBY1"), Some(status("LOBBY1", false, 1)));
}

#[test]
fn named_join_needs_no_draws() {
    let mut registry = Registry::new();
    let (horizon, _rx) = channel();
    let joined = registry.join(Some("any id at all".to_string()), Role::Horizon, queue(&horizon), 0);
    assert_eq!(joined.unwrap().session_id, "any id at all");
    assert!(registry.contains("any id at all"));
}

#[test]
fn unnamed_join_without_draws_joins_nothing() {
    let mut registry = Registry::new();
    let (horizon, _rx) = channel();
    assert_eq!(registry.join(None, Role::Horizon, queue(&horizon), 0), None);
    assert!(registry.snapshot().is_empty());
}

#[test]
fn later_horizon_takes_the_place_of_the_earlier() {
    let mut registry = Registry::new();
    let (first, mut first_rx) = channel();
    let (second, mut second_rx) = channel();
    let (voyager, _voyager_rx) = channel();
    let id = "REJOIN";

    let a = registry.join(Some(id.to_string()), Role::Horizon, queue(&first), 0).unwrap();
    assert!(!a.displaced);
    let b = registry.join(Some(id.to_string()), Role::Horizon, queue(&second), 0).unwrap();
    assert!(b.displaced);
    assert_eq!(registry.get(id), Some(status(id, true, 0)));

    registry.join(Some(id.to_string()), Role::Voyager, queue(&voyager), 0);
    registry.route_message(Role::Voyager, id, Frame::Text("ping".to_string()), Some(&queue(&voyager)));
    assert_eq!(second_rx.try_recv().ok(), Some(Frame::Text("ping".to_string())));
    assert!(first_rx.try_recv().is_err());
}

#[test]
fn displaced_horizon_that_leaves_late_spares_its_successor() {
    let mut registry = Registry::new();
    let (first, _first_rx) = channel();
    let (second, _second_rx) = channel();
    let id = "REJOIN";
    registry.join(Some(id.to_string()), Role::Horizon, queue(&first), 0);
    registry.join(Some(id.to_string()), Role::Horizon, queue(&second), 0);

    registry.leave(id, Role::Horizon, &queue(&first));
    assert_eq!(registry.get(id), Some(status(id, true, 0)));

    registry.leave(id, Role::Horizon, &queue(&second));
    assert_eq!(registry.get(id), None);
}

#[test]
fn handles_are_told_apart_by_channel_not_by_content() {
    let mut registry = Registry::new();
    let (mine, _mine_rx) = channel();
    let (other, _other_rx) = channel();
    registry.join(Some("S".to_string()), Role::Voyager, queue(&mine), 0);
    registry.join(Some("S".to_string()), Role::Voyager, queue(&other), 0);

    let same_channel = OutboundQueue::new(mine.clone());
    assert!(same_channel.is_same(&queue(&mine)));
    assert!(!same_channel.is_same(&queue(&other)));

    registry.leave("S", Role::Voyager, &same_channel);
    assert_eq!(registry.get("S"), Some(status("S", false, 1)));
}

#[test]
fn leaving_twice_is_leaving_once() {
    let mut registry = Registry::new();
    let (a, _a_rx) = channel();
    let (b, _b_rx) = channel();
    registry.join(Some("S".to_string()), Role::Voyager, queue(&a), 0);
    registry.join(Some("S".to_string()), Role::Voyager, queue(&b), 0);

    registry.leave("S", Role::Voyager, &queue(&a));
    let once = registry.snapshot();
    registry.leave("S", Role::Voyager, &queue(&a));
    assert_eq!(registry.snapshot(), once);
    assert_eq!(once, vec![status("S", false, 1)]);
}

#[test]
fn leaving_an_unknown_session_changes_nothing() {
    let mut registry = Registry::new();
    let (a, _a_rx) = channel();
    registry.join(Some("S".to_string()), Role::Voyager, queue(&a), 0);
    registry.leave("T", Role::Voyager, &queue(&a));
    registry.leave("T", Role::Horizon, &queue(&a));
    assert_eq!(registry.snapshot(), vec![status("S", false, 1)]);
}

#[test]
fn leaving_in_the_wrong_role_changes_nothing() {
    let mut registry = Registry::new();
    let (horizon, _rx) = channel();
    registry.join(Some("S".to_string()), Role::Horizon, queue(&horizon), 0);
    registry.leave("S", Role::Voyager, &queue(&horizon));
    assert_eq!(registry.get("S"), Some(status("S", true, 0)));
}

#[test]
fn no_session_is_left_empty_by_joins_and_leaves() {
    let mut registry = Registry::new();
    let (h, _h_rx) = channel();
    let (v1, _v1_rx) = channel();
    let (v2, _v2_rx) = channel();
    let all_inhabited = |registry: &Registry| {
        registry.snapshot().iter().all(|s| s.horizon_connected || s.voyager_count > 0)
    };

    registry.join(Some("A".to_string()), Role::Horizon, queue(&h), 0);
    assert!(all_inhabited(&registry));
    registry.join(Some("B".to_string()), Role::Voyager, queue(&v1), 0);
    registry.join(Some("B".to_string()), Role::Voyager, queue(&v2), 0);
    assert!(all_inhabited(&registry));
    registry.leave("A", Role::Horizon, &queue(&h));
    assert!(all_inhabited(&registry));
    assert_eq!(registry.snapshot(), vec![status("B", false, 2)]);
    registry.leave("B", Role::Voyager, &queue(&v1));
    assert!(all_inhabited(&registry));
    registry.leave("B", Role::Voyager, &queue(&v2));
    assert!(registry.snapshot().is_empty());
}

#[test]
fn snapshot_lists_sessions_oldest_first() {
    let mut registry = Registry::new();
    let (a, _a_rx) = channel();
    let (b, _b_rx) = channel();
    let (c, _c_rx) = channel();
    registry.join(Some("ZZZ".to_string()), Role::Horizon, queue(&a), 0);
    registry.join(Some("AAA".to_string()), Role::Voyager, queue(&b), 0);
    registry.join(Some("MMM".to_string()), Role::Horizon, queue(&c), 0);
    registry.join(Some("ZZZ".to_string()), Role::Voyager, queue(&b), 0);
    assert_eq!(
        registry.snapshot(),
        vec![status("ZZZ", true, 1), status("AAA", false, 1), status("MMM", true, 0)]
    );

    registry.leave("AAA", Role::Voyager, &queue(&b));
    assert_eq!(registry.snapshot(), vec![status("ZZZ", true, 1), status("MMM", true, 0)]);
}

#[test]
fn get_reports_one_session() {
    let mut registry = Registry::new();
    let (a, _a_rx) = channel();
    let (b, _b_rx) = channel();
    registry.join(Some("ONE".to_string()), Role::Horizon, queue(&a), 0);
    registry.join(Some("TWO".to_string()), Role::Voyager, queue(&b), 0);
    assert_eq!(registry.get("ONE"), Some(status("ONE", true, 0)));
    assert_eq!(registry.get("TWO"), Some(status("TWO", false, 1)));
    assert_eq!(registry.get("one"), None);
    assert_eq!(registry.get(""), None);
}

#[test]
fn close_signals_every_member_and_deletes_the_session() {
    let mut registry = Registry::new();
    let (h, mut h_rx) = channel();
    let (v1, mut v1_rx) = channel();
    let (v2, mut v2_rx) = channel();
    let (bystander, mut bystander_rx) = channel();
    registry.join(Some("S".to_string()), Role::Horizon, queue(&h), 0);
    registry.join(Some("S".to_string()), Role::Voyager, queue(&v1), 0);
    registry.join(Some("S".to_string()), Role::Voyager, queue(&v2), 0);
    registry.join(Some("T".to_string()), Role::Voyager, queue(&bystander), 0);

    assert!(registry.close("S"));
    assert_eq!(h_rx.try_recv().ok(), Some(Frame::Close(None)));
    assert_eq!(v1_rx.try_recv().ok(), Some(Frame::Close(None)));
    assert_eq!(v2_rx.try_recv().ok(), Some(Frame::Close(None)));
    assert!(h_rx.try_recv().is_err());
    assert!(bystander_rx.try_recv().is_err());
    assert_eq!(registry.get("S"), None);
    assert_eq!(registry.snapshot(), vec![status("T", false, 1)]);
}

#[test]
fn close_of_an_unknown_session_reports_false() {
    let mut registry = Registry::new();
    let (h, mut h_rx) = channel();
    registry.join(Some("S".to_string()), Role::Horizon, queue(&h), 0);
    assert!(!registry.close("T"));
    assert!(h_rx.try_recv().is_err());
    assert_eq!(registry.snapshot(), vec![status("S", true, 0)]);
}

#[test]
fn close_goes_on_when_a_member_is_gone() {
    let mut registry = Registry::new();
    let (h, h_rx) = channel();
    let (v, mut v_rx) = channel();
    registry.join(Some("S".to_string()), Role::Horizon, queue(&h), 0);
    registry.join(Some("S".to_string()), Role::Voyager, queue(&v), 0);
    drop(h_rx);
    assert!(registry.close("S"));
    assert_eq!(v_rx.try_recv().ok(), Some(Frame::Close(None)));
    assert_eq!(registry.get("S"), None);
}

#[test]
fn session_id_may_be_used_again_after_the_session_is_gone() {
    let mut registry = Registry::new();
    let (a, _a_rx) = channel();
    let (b, _b_rx) = channel();
    registry.join(Some("S".to_string()), Role::Horizon, queue(&a), 0);
    registry.leave("S", Role::Horizon, &queue(&a));
    assert_eq!(registry.get("S"), None);
    let again = registry.join(Some("S".to_string()), Role::Horizon, queue(&b), 0).unwrap();
    assert!(!again.displaced);
    assert_eq!(registry.get("S"), Some(status("S", true, 0)));
}

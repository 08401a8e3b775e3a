use wormhole::connection::{cleanup_owed, ended, received, step, written, Action, Event, Phase};
use wormhole::frame::{CloseInfo, Frame};
use wormhole::role::Role;

fn run(role: Role, events: &[Event]) -> (Phase, Vec<Action>) {
    let mut phase = Phase::Connecting;
    let mut actions = Vec::new();
    for event in events {
        let (next, action) = step(phase, role, *event);
        phase = next;
        actions.push(action);
    }
    (phase, actions)
}

const ALL_EVENTS: [Event; 10] = [
    Event::Registered,
    Event::Announced,
    Event::AnnounceFailed,
    Event::FrameReceived,
    Event::InboundEnded,
    Event::FrameWritten { close: false },
    Event::FrameWritten { close: true },
    Event::WriteFailed,
    Event::Cancelled,
    Event::Left,
];

#[test]
fn horizon_is_told_its_session_before_it_relays() {
    assert_eq!(step(Phase::Connecting, Role::Horizon, Event::Registered), (Phase::Joined, Action::Announce));
    assert_eq!(step(Phase::Joined, Role::Horizon, Event::Announced), (Phase::Relaying, Action::Relay));
    assert_eq!(step(Phase::Joined, Role::Horizon, Event::FrameReceived), (Phase::Joined, Action::Nothing));
}

#[test]
fn voyager_relays_at_once() {
    assert_eq!(step(Phase::Connecting, Role::Voyager, Event::Registered), (Phase::Relaying, Action::Relay));
}

#[test]
fn failed_announcement_goes_straight_to_cleanup() {
    let (phase, actions) = run(Role::Horizon, &[Event::Registered, Event::AnnounceFailed, Event::Left]);
    assert_eq!(phase, Phase::Closed);
    assert_eq!(actions, vec![Action::Announce, Action::Leave, Action::Finish]);
}

#[test]
fn frames_are_routed_while_relaying() {
    let (phase, actions) = run(
        Role::Voyager,
        &[Event::Registered, Event::FrameReceived, Event::FrameWritten { close: false }, Event::FrameReceived],
    );
    assert_eq!(phase, Phase::Relaying);
    assert_eq!(actions, vec![Action::Relay, Action::Route, Action::Nothing, Action::Route]);
}

#[test]
fn each_end_takes_the_connection_off_the_registry() {
    for end in [
        Event::InboundEnded,
        Event::WriteFailed,
        Event::FrameWritten { close: true },
        Event::Cancelled,
    ] {
        assert_eq!(step(Phase::Relaying, Role::Horizon, end), (Phase::Closing, Action::Leave));
        assert_eq!(step(Phase::Relaying, Role::Voyager, end), (Phase::Closing, Action::Leave));
    }
    assert_eq!(step(Phase::Closing, Role::Voyager, Event::Left), (Phase::Closed, Action::Finish));
}

#[test]
fn both_sides_seeing_the_end_leave_once() {
    let (phase, actions) = run(
        Role::Voyager,
        &[
            Event::Registered,
            Event::WriteFailed,
            Event::InboundEnded,
            Event::FrameReceived,
            Event::Left,
            Event::InboundEnded,
            Event::Left,
        ],
    );
    assert_eq!(phase, Phase::Closed);
    assert_eq!(
        actions,
        vec![
            Action::Relay,
            Action::Leave,
            Action::Nothing,
            Action::Nothing,
            Action::Finish,
            Action::Nothing,
            Action::Nothing,
        ]
    );
}

#[test]
fn closed_is_final() {
    for role in [Role::Horizon, Role::Voyager] {
        for event in ALL_EVENTS {
            assert_eq!(step(Phase::Closed, role, event), (Phase::Closed, Action::Nothing));
        }
    }
}

#[test]
fn nothing_happens_before_registration() {
    for event in ALL_EVENTS {
        if event != Event::Registered {
            assert_eq!(step(Phase::Connecting, Role::Horizon, event), (Phase::Connecting, Action::Nothing));
        }
    }
}

#[test]
fn every_run_of_three_events_leaves_at_most_once() {
    for role in [Role::Horizon, Role::Voyager] {
        for a in ALL_EVENTS {
            for b in ALL_EVENTS {
                for c in ALL_EVENTS {
                    for d in ALL_EVENTS {
                        let (phase, actions) = run(role, &[a, b, c, d]);
                        let leaves = actions.iter().filter(|x| **x == Action::Leave).count();
                        let ended = phase == Phase::Closing || phase == Phase::Closed;
                        assert!(leaves <= 1);
                        assert_eq!(leaves == 1, ended);
                    }
                }
            }
        }
    }
}

#[test]
fn writer_reports_what_it_did() {
    assert_eq!(written(false, true), Event::FrameWritten { close: false });
    assert_eq!(written(true, true), Event::FrameWritten { close: true });
    assert_eq!(written(false, false), Event::WriteFailed);
    assert_eq!(written(true, false), Event::WriteFailed);
}

#[test]
fn close_frame_that_comes_in_ends_the_stream() {
    assert_eq!(received(&Frame::Close(None)), Event::InboundEnded);
    assert_eq!(
        received(&Frame::Close(Some(CloseInfo { code: 1000, reason: "bye".to_string() }))),
        Event::InboundEnded
    );
    assert_eq!(received(&Frame::Text("close".to_string())), Event::FrameReceived);
    assert_eq!(received(&Frame::Text("{\"type\":\"close\"}".to_string())), Event::FrameReceived);
    assert_eq!(received(&Frame::Binary(vec![])), Event::FrameReceived);
    assert_eq!(received(&Frame::Ping(vec![1])), Event::FrameReceived);
    assert_eq!(received(&Frame::Pong(vec![1])), Event::FrameReceived);
}

#[test]
fn close_frame_of_a_peer_is_not_routed() {
    for role in [Role::Horizon, Role::Voyager] {
        let farewell = received(&Frame::Close(None));
        assert_eq!(step(Phase::Relaying, role, farewell), (Phase::Closing, Action::Leave));
        for phase in [Phase::Connecting, Phase::Joined, Phase::Relaying, Phase::Closing, Phase::Closed] {
            assert!(step(phase, role, farewell).1 != Action::Route);
        }
    }
}

#[test]
fn dropped_task_leaves_the_registry() {
    assert_eq!(step(Phase::Joined, Role::Horizon, Event::Cancelled), (Phase::Closing, Action::Leave));
    assert_eq!(step(Phase::Relaying, Role::Voyager, Event::Cancelled), (Phase::Closing, Action::Leave));
    assert_eq!(step(Phase::Connecting, Role::Voyager, Event::Cancelled), (Phase::Connecting, Action::Nothing));
    assert_eq!(step(Phase::Closing, Role::Voyager, Event::Cancelled), (Phase::Closing, Action::Nothing));
    assert_eq!(step(Phase::Closed, Role::Voyager, Event::Cancelled), (Phase::Closed, Action::Nothing));
}

#[test]
fn ended_is_closing_or_closed() {
    assert!(!ended(Phase::Connecting));
    assert!(!ended(Phase::Joined));
    assert!(!ended(Phase::Relaying));
    assert!(ended(Phase::Closing));
    assert!(ended(Phase::Closed));
}

#[test]
fn cleanup_is_owed_between_leave_and_left() {
    assert!(!cleanup_owed(Phase::Connecting));
    assert!(!cleanup_owed(Phase::Joined));
    assert!(!cleanup_owed(Phase::Relaying));
    assert!(cleanup_owed(Phase::Closing));
    assert!(!cleanup_owed(Phase::Closed));
}

//! The session state machine: ordering, recovery from rejected frames, and
//! the termination paths.

use touch_relay::codec::CodecError;
use touch_relay::dispatch::Action;
use touch_relay::session::{Session, SessionEvent, SessionState};

fn text(s: &str) -> SessionEvent {
    SessionEvent::Text(s.to_string())
}

#[test]
fn frames_apply_in_exactly_the_order_sent() {
    let mut s = Session::start(true);
    assert_eq!(s.state(), SessionState::Open);
    let mut all: Vec<Action> = Vec::new();
    for frame in ["[\"m\", 1, 2]", "[\"b\", \"l\", 1]", "[\"w\", -3]", "[\"k\", \"Return\"]"] {
        let acts = s.on_event(&text(frame)).expect("valid frame");
        all.extend(acts);
    }
    assert_eq!(all.len(), 4);
    assert!(matches!(all[0], Action::MovePointer { dx: 1, dy: 2 }));
    assert!(matches!(all[1], Action::ClickButton { .. }));
    assert!(matches!(all[2], Action::Scroll { dy: -3 }));
    assert!(matches!(all[3], Action::PressKey { .. }));
    assert_eq!(s.state(), SessionState::Open);
}

#[test]
fn a_rejected_frame_between_valid_frames_is_isolated() {
    let mut s = Session::start(true);
    let first = s.on_event(&text("[\"m\", 1, 1]")).expect("valid frame");
    assert_eq!(first.len(), 1);
    let bad = s.on_event(&text("{\"not\":\"an array\"}"));
    assert!(matches!(bad, Err(CodecError::NotAnArray)));
    assert_eq!(s.state(), SessionState::Open);
    let second = s.on_event(&text("[\"m\", 2, 2]")).expect("valid frame");
    assert_eq!(second.len(), 1);
    assert!(matches!(second[0], Action::MovePointer { dx: 2, dy: 2 }));
    assert_eq!(s.state(), SessionState::Open);
}

#[test]
fn an_unknown_button_frame_dispatches_nothing_and_stays_open() {
    let mut s = Session::start(true);
    let r = s.on_event(&text("[\"b\", \"x\", 1]"));
    assert!(matches!(r, Err(CodecError::UnknownButtonName)));
    assert_eq!(s.state(), SessionState::Open);
}

#[test]
fn a_ping_dispatches_nothing_and_never_errors() {
    let mut s = Session::start(true);
    let acts = s.on_event(&text("[\"ping\"]")).expect("ping is valid");
    assert!(acts.is_empty());
    assert_eq!(s.state(), SessionState::Open);
}

#[test]
fn failed_actuator_construction_terminates_before_the_loop() {
    let mut s = Session::start(false);
    assert_eq!(s.state(), SessionState::Closed);
    for frame in ["[\"m\", 1, 2]", "[\"b\", \"l\", 3]", "[\"ping\"]"] {
        let acts = s.on_event(&text(frame)).expect("a dead session dispatches nothing");
        assert!(acts.is_empty());
    }
    assert_eq!(s.state(), SessionState::Closed);
}

#[test]
fn a_close_frame_starts_draining_and_stops_dispatch() {
    let mut s = Session::start(true);
    let acts = s.on_event(&SessionEvent::CloseFrame).expect("close dispatches nothing");
    assert!(acts.is_empty());
    assert_eq!(s.state(), SessionState::Draining);
    let after = s.on_event(&text("[\"m\", 1, 2]")).expect("draining dispatches nothing");
    assert!(after.is_empty());
    s.teardown();
    assert_eq!(s.state(), SessionState::Closed);
}

#[test]
fn a_transport_error_closes_at_once() {
    let mut s = Session::start(true);
    let acts = s.on_event(&SessionEvent::TransportError).expect("an error dispatches nothing");
    assert!(acts.is_empty());
    assert_eq!(s.state(), SessionState::Closed);
}

#[test]
fn other_transport_messages_are_ignored() {
    let mut s = Session::start(true);
    let acts = s.on_event(&SessionEvent::OtherFrame).expect("ignored message");
    assert!(acts.is_empty());
    assert_eq!(s.state(), SessionState::Open);
}

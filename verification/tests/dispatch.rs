//! The dispatcher: each command's exact plan of actuator operations.

use touch_relay::codec::{Command, MouseButton, NamedKey};
use touch_relay::dispatch::{dispatch_plan, Action, INTER_CLICK_DELAY_MS};

#[test]
fn a_move_command_plans_exactly_one_move() {
    let acts = dispatch_plan(&Command::MouseMove { dx: 5, dy: -9 });
    assert_eq!(acts.len(), 1);
    assert!(matches!(acts[0], Action::MovePointer { dx: 5, dy: -9 }));
}

#[test]
fn a_single_click_plans_one_click_and_no_delay() {
    let acts = dispatch_plan(&Command::ButtonClick { button: MouseButton::Left, count: 1 });
    assert_eq!(acts.len(), 1);
    assert!(matches!(acts[0], Action::ClickButton { button: MouseButton::Left }));
}

#[test]
fn a_double_click_plans_click_delay_click() {
    let acts = dispatch_plan(&Command::ButtonClick { button: MouseButton::Right, count: 2 });
    assert_eq!(acts.len(), 3);
    assert!(matches!(acts[0], Action::ClickButton { button: MouseButton::Right }));
    assert!(matches!(acts[1], Action::Sleep { ms: INTER_CLICK_DELAY_MS }));
    assert!(matches!(acts[2], Action::ClickButton { button: MouseButton::Right }));
}

#[test]
fn a_triple_click_alternates_clicks_and_delays() {
    let acts = dispatch_plan(&Command::ButtonClick { button: MouseButton::Left, count: 3 });
    assert_eq!(acts.len(), 5);
    for (i, a) in acts.iter().enumerate() {
        if i % 2 == 0 {
            assert!(matches!(a, Action::ClickButton { button: MouseButton::Left }));
        } else {
            assert!(matches!(a, Action::Sleep { ms: 50 }));
        }
    }
}

#[test]
fn a_zero_click_command_plans_nothing() {
    let acts = dispatch_plan(&Command::ButtonClick { button: MouseButton::Left, count: 0 });
    assert!(acts.is_empty());
}

#[test]
fn the_inter_click_delay_is_fifty_milliseconds() {
    assert_eq!(INTER_CLICK_DELAY_MS, 50);
}

#[test]
fn a_wheel_command_plans_one_scroll_with_the_sign_unchanged() {
    let acts = dispatch_plan(&Command::Wheel { dy: -3 });
    assert_eq!(acts.len(), 1);
    assert!(matches!(acts[0], Action::Scroll { dy: -3 }));
}

#[test]
fn a_text_command_plans_one_insertion_of_the_full_string() {
    let acts = dispatch_plan(&Command::TextInput { text: "hello world".to_string() });
    assert_eq!(acts.len(), 1);
    match &acts[0] {
        Action::InsertText { text } => assert_eq!(text, "hello world"),
        other => panic!("unexpected action: {:?}", other),
    }
}

#[test]
fn a_key_command_plans_one_key_activation() {
    let acts = dispatch_plan(&Command::KeyPress { key: NamedKey::Return });
    assert_eq!(acts.len(), 1);
    assert!(matches!(acts[0], Action::PressKey { key: NamedKey::Return }));
}

#[test]
fn a_ping_plans_no_operation_at_all() {
    let acts = dispatch_plan(&Command::Ping);
    assert!(acts.is_empty());
}

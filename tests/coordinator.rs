use controller::actions::{
    Action, BatteryVoltage, Key, StickPosition, StickValues, ThreadMsg, UIUpdate,
};
use controller::control::{ControlSpeed, ControlState, AXIS_MAX};
use controller::coordinator::{
    handle_keypress_event, handle_stick_positions, ChannelEvent, Coordinator, Directive,
    ToggleButtons,
};

fn stick(x: i16, y: i16, button: bool) -> StickPosition {
    StickPosition { x, y, button }
}

fn msg(text: &str) -> ThreadMsg {
    ThreadMsg { name: "Radio".to_owned(), message: text.to_owned() }
}

#[test]
fn up_up_space_leaves_throttle_zero() {
    let s0 = ControlState::new();
    let s1 = handle_keypress_event(&s0, Key::Up).unwrap();
    let s2 = handle_keypress_event(&s1, Key::Up).unwrap();
    assert_eq!(s2.throttle, 16384);
    let s3 = handle_keypress_event(&s2, Key::Char(' ')).unwrap();
    assert_eq!(s3.throttle, 0);
    assert_eq!(s3.steering, 0);
}

#[test]
fn quit_key_gives_no_state() {
    assert_eq!(handle_keypress_event(&ControlState::new(), Key::Char('q')), None);
}

#[test]
fn arrow_steps_land_on_the_bounds() {
    let mut s = ControlState::new();
    for expected in [8192i16, 16384, 24576, 32767, 32767] {
        s = handle_keypress_event(&s, Key::Up).unwrap();
        assert_eq!(s.throttle, expected);
    }
    for expected in [24576i16, 16384, 8192, 0, -8192, -16384, -24576, -32767, -32767] {
        s = handle_keypress_event(&s, Key::Down).unwrap();
        assert_eq!(s.throttle, expected);
    }
    s = handle_keypress_event(&s, Key::Up).unwrap();
    assert_eq!(s.throttle, -24576);
    s = handle_keypress_event(&s, Key::Right).unwrap();
    assert_eq!(s.steering, 8192);
    s = handle_keypress_event(&s, Key::Left).unwrap();
    s = handle_keypress_event(&s, Key::Left).unwrap();
    assert_eq!(s.steering, -8192);
}

#[test]
fn mode_key_toggles_and_others_ignored() {
    let s = ControlState::new();
    let t = handle_keypress_event(&s, Key::Char('m')).unwrap();
    assert_eq!(t.move_speed, ControlSpeed::Fast);
    assert_eq!(handle_keypress_event(&t, Key::Char('x')).unwrap(), t);
    assert_eq!(handle_keypress_event(&t, Key::Other).unwrap(), t);
}

#[test]
fn stick_sets_drive_and_turns_camera() {
    let mut buttons = ToggleButtons::new();
    let mut prev = ControlState::new();
    prev.last_update = 100;
    let v = StickValues(stick(1000, -2000, false), stick(AXIS_MAX, -AXIS_MAX, true));
    let s = handle_stick_positions(&prev, &mut buttons, v, 110);
    assert_eq!(s.throttle, -2000);
    assert_eq!(s.steering, 1000);
    assert_eq!((s.pan, s.tilt), (2184, -2184));
    assert_eq!(s.last_update, 110);
    assert_eq!(s.move_speed, ControlSpeed::Slow);
    assert!(buttons.view_pressed);
    assert!(!buttons.move_pressed);
}

#[test]
fn stick_trims_minimum() {
    let mut buttons = ToggleButtons::new();
    let v = StickValues(stick(i16::MIN, i16::MIN, false), stick(0, 0, false));
    let s = handle_stick_positions(&ControlState::new(), &mut buttons, v, 0);
    assert_eq!((s.throttle, s.steering), (-AXIS_MAX, -AXIS_MAX));
}

#[test]
fn held_button_toggles_once() {
    let mut buttons = ToggleButtons::new();
    let held = StickValues(stick(0, 0, true), stick(0, 0, false));
    let released = StickValues(stick(0, 0, false), stick(0, 0, false));
    let s1 = handle_stick_positions(&ControlState::new(), &mut buttons, held, 10);
    assert_eq!(s1.move_speed, ControlSpeed::Fast);
    let s2 = handle_stick_positions(&s1, &mut buttons, held, 20);
    assert_eq!(s2.move_speed, ControlSpeed::Fast);
    let s3 = handle_stick_positions(&s2, &mut buttons, released, 30);
    assert_eq!(s3.move_speed, ControlSpeed::Fast);
    let s4 = handle_stick_positions(&s3, &mut buttons, held, 40);
    assert_eq!(s4.move_speed, ControlSpeed::Slow);
}

#[test]
fn coordinator_forwards_log_and_battery() {
    let mut c = Coordinator::new();
    let s = ControlState::new();
    match c.handle_event(&s, ChannelEvent::Received(Action::Message(msg("hello"))), 0) {
        Directive::Forward(UIUpdate::Message(m)) => assert_eq!(m.message, "hello"),
        other => panic!("unexpected {:?}", other),
    }
    match c.handle_event(&s, ChannelEvent::Received(Action::Error(msg("bad"))), 0) {
        Directive::Forward(UIUpdate::Error(m)) => assert_eq!(m.name, "Radio"),
        other => panic!("unexpected {:?}", other),
    }
    match c.handle_event(&s, ChannelEvent::Received(Action::BatteryUpdate(BatteryVoltage(9))), 0) {
        Directive::Forward(UIUpdate::Battery(v)) => assert_eq!(v, BatteryVoltage(9)),
        other => panic!("unexpected {:?}", other),
    }
    assert!(matches!(c.handle_event(&s, ChannelEvent::Timeout, 0), Directive::Idle));
}

#[test]
fn coordinator_updates_only_on_change() {
    let mut c = Coordinator::new();
    let s = ControlState::new();
    match c.handle_event(&s, ChannelEvent::Received(Action::KeyPress(Key::Up)), 0) {
        Directive::Update(n) => assert_eq!(n.throttle, 8192),
        other => panic!("unexpected {:?}", other),
    }
    match c.handle_event(&s, ChannelEvent::Received(Action::KeyPress(Key::Other)), 0) {
        Directive::Show(n) => assert_eq!(n, s),
        other => panic!("unexpected {:?}", other),
    }
}

#[test]
fn coordinator_fatal_stops() {
    let mut c = Coordinator::new();
    let s = ControlState::new();
    match c.handle_event(&s, ChannelEvent::Received(Action::Fatal(msg("no terminal"))), 0) {
        Directive::Fatal(m) => assert_eq!(m.message, "no terminal"),
        other => panic!("unexpected {:?}", other),
    }
    assert!(c.shutting_down);
}

#[test]
fn quit_stops_control_until_disconnect() {
    let mut c = Coordinator::new();
    let s = ControlState::new();
    let quit = ChannelEvent::Received(Action::KeyPress(Key::Char('q')));
    assert!(matches!(c.handle_event(&s, quit, 0), Directive::Quit));
    assert!(c.shutting_down);
    let up = ChannelEvent::Received(Action::KeyPress(Key::Up));
    assert!(matches!(c.handle_event(&s, up, 0), Directive::Idle));
    let v = StickValues(stick(0, AXIS_MAX, true), stick(0, 0, false));
    let before = c;
    assert!(matches!(c.handle_event(&s, ChannelEvent::Received(Action::StickUpdate(v)), 5), Directive::Idle));
    assert_eq!(c, before);
    assert!(matches!(c.handle_event(&s, ChannelEvent::Timeout, 10), Directive::Idle));
    assert!(c.shutting_down);
    assert!(matches!(c.handle_event(&s, ChannelEvent::Disconnected, 20), Directive::Exit));
}

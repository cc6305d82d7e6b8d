use controller::actions::{StickPosition, StickValues};
use controller::joystick::{
    clamp_with_deadzone, process_event, DeviceState, JoystickLink, JoystickStep, PollOutcome,
    StickInput, StickTracker, DEAD_ZONE,
};

#[test]
fn deadzone_centres_small_readings() {
    assert_eq!(clamp_with_deadzone(0), 0);
    assert_eq!(clamp_with_deadzone(DEAD_ZONE - 1), 0);
    assert_eq!(clamp_with_deadzone(-(DEAD_ZONE - 1)), 0);
    assert_eq!(clamp_with_deadzone(1000), 0);
}

#[test]
fn deadzone_passes_and_clamps_large_readings() {
    assert_eq!(clamp_with_deadzone(DEAD_ZONE), 3276);
    assert_eq!(clamp_with_deadzone(-DEAD_ZONE), -3276);
    assert_eq!(clamp_with_deadzone(20000), 20000);
    assert_eq!(clamp_with_deadzone(40000), i16::MAX);
    assert_eq!(clamp_with_deadzone(-40000), i16::MIN);
}

#[test]
fn deadzone_is_monotonic() {
    let mut prev = clamp_with_deadzone(-70000);
    let mut v = -70000i32;
    while v <= 70000 {
        let cur = clamp_with_deadzone(v);
        assert!(prev <= cur);
        prev = cur;
        v += 97;
    }
}

#[test]
fn events_set_axes_and_invert_y() {
    let mut l = StickPosition { x: 0, y: 0, button: false };
    let mut r = StickPosition { x: 0, y: 0, button: false };
    process_event(&mut l, &mut r, StickInput::MoveX(10000));
    process_event(&mut l, &mut r, StickInput::MoveY(10000));
    process_event(&mut l, &mut r, StickInput::ViewX(-40000));
    process_event(&mut l, &mut r, StickInput::ViewY(-40000));
    process_event(&mut l, &mut r, StickInput::MoveButton(true));
    assert_eq!(l, StickPosition { x: 10000, y: -10000, button: true });
    assert_eq!(r, StickPosition { x: i16::MIN, y: i16::MAX, button: false });
    process_event(&mut l, &mut r, StickInput::MoveY(100));
    process_event(&mut l, &mut r, StickInput::ViewButton(true));
    assert_eq!(l.y, 0);
    assert!(r.button);
}

#[test]
fn tracker_applies_events_in_order() {
    let mut t = StickTracker::new();
    let v = t.update_position(&vec![
        StickInput::MoveX(5000),
        StickInput::MoveX(6000),
        StickInput::ViewY(32767),
    ]);
    assert_eq!(
        v,
        StickValues(
            StickPosition { x: 6000, y: 0, button: false },
            StickPosition { x: 0, y: -32767, button: false }
        )
    );
    // No events: the same positions again.
    assert_eq!(t.update_position(&vec![]), v);
}

#[test]
fn link_finds_then_polls() {
    let mut link = JoystickLink::new();
    assert_eq!(link.next_step(), JoystickStep::Find);
    link.find_done(false);
    assert_eq!(link.state, DeviceState::NoDevice);
    assert_eq!(link.next_step(), JoystickStep::Find);
    link.find_done(true);
    assert_eq!(link.next_step(), JoystickStep::Poll);
    link.poll_done(PollOutcome::Delivered);
    assert_eq!(link.state, DeviceState::Open);
}

#[test]
fn link_drops_device_on_failure() {
    let mut link = JoystickLink::new();
    link.find_done(true);
    link.poll_done(PollOutcome::ReadFailed);
    assert_eq!(link.state, DeviceState::NoDevice);
    link.find_done(true);
    link.poll_done(PollOutcome::ConsumerGone);
    assert_eq!(link.next_step(), JoystickStep::Find);
}

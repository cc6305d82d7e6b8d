use controller::actions::{BatteryVoltage, ThreadMsg, UIUpdate};
use controller::control::ControlState;
use controller::ui::{LogLine, UIState, MESSAGE_LINES};

fn msg(i: usize) -> ThreadMsg {
    ThreadMsg { name: "Joystick".to_owned(), message: format!("line {}", i) }
}

#[test]
fn log_keeps_latest_lines() {
    let mut ui = UIState::new();
    for i in 0..8 {
        if i % 2 == 0 {
            ui.apply_update(UIUpdate::Message(msg(i)));
        } else {
            ui.apply_update(UIUpdate::Error(msg(i)));
        }
        assert!(ui.messages.len() <= MESSAGE_LINES);
    }
    assert_eq!(ui.messages.len(), 5);
    match &ui.messages[0] {
        LogLine::Error(m) => assert_eq!(m.message, "line 3"),
        LogLine::Info(_) => panic!("expected an error line"),
    }
    match &ui.messages[4] {
        LogLine::Error(m) => assert_eq!(m.message, "line 7"),
        LogLine::Info(_) => panic!("expected an error line"),
    }
}

#[test]
fn control_and_battery_replace() {
    let mut ui = UIState::new();
    let mut s = ControlState::new();
    s.throttle = 42;
    ui.apply_update(UIUpdate::Control(s));
    ui.apply_update(UIUpdate::Battery(BatteryVoltage(700)));
    assert_eq!(ui.control_state, s);
    assert_eq!(ui.battery_voltage, BatteryVoltage(700));
    assert!(ui.messages.is_empty());
}

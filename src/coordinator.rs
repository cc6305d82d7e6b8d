//! The coordinator's decisions: how key presses and stick updates change the
//! control state, and what to do with each event of the action channel.

use vstd::prelude::*;

use crate::actions::{Action, Key, StickValues, ThreadMsg, UIUpdate};
use crate::control::{
    clamp, elapsed_ms, rotated, toggled, trimmed, ControlState,
};

verus! {

/// Throttle or steering change of one arrow key press.
pub const KEY_STEP: i16 = 8192;

/// Whether each stick's button was held at the last stick update.
#[derive(Clone, Copy, Debug, PartialEq, Eq, Structural)]
pub struct ToggleButtons {
    pub move_pressed: bool,
    pub view_pressed: bool,
}

impl ToggleButtons {
    /// Both buttons released.
    pub fn new() -> (r: Self)
        ensures
            !r.move_pressed,
            !r.view_pressed,
    {
        ToggleButtons { move_pressed: false, view_pressed: false }
    }
}

/// One step up, saturating; from the lowest usable value the step is one
/// smaller, so that four steps land exactly on the top.
pub open spec fn stepped_up(v: i16) -> i16 {
    let step: int = if v <= i16::MIN + 1 {
        KEY_STEP - 1
    } else {
        KEY_STEP as int
    };
    clamp(v + step, i16::MIN as int, i16::MAX as int) as i16
}

/// One step down, saturating; from the top the step is one smaller, so that
/// four steps land exactly on the lowest usable value.
pub open spec fn stepped_down(v: i16) -> i16 {
    let step: int = if v == i16::MAX {
        KEY_STEP - 1
    } else {
        KEY_STEP as int
    };
    clamp(v - step, i16::MIN as int, i16::MAX as int) as i16
}

/// The state after a key other than the quit key, before trimming: arrows
/// step throttle (up, down) or steering (right, left), space centres both,
/// 'm' toggles the speed mode, any other key changes nothing.
pub open spec fn keyed(prev: ControlState, key: Key) -> ControlState {
    match key {
        Key::Up => ControlState { throttle: stepped_up(prev.throttle), ..prev },
        Key::Down => ControlState { throttle: stepped_down(prev.throttle), ..prev },
        Key::Right => ControlState { steering: stepped_up(prev.steering), ..prev },
        Key::Left => ControlState { steering: stepped_down(prev.steering), ..prev },
        Key::Char(c) => if c == ' ' {
            ControlState { throttle: 0, steering: 0, ..prev }
        } else if c == 'm' {
            ControlState { move_speed: toggled(prev.move_speed), ..prev }
        } else {
            prev
        },
        Key::Other => prev,
    }
}

/// No state for the quit key 'q'; else the keyed state, trimmed.
pub open spec fn keypress_result(prev: ControlState, key: Key) -> Option<ControlState> {
    if key == Key::Char('q') {
        None
    } else {
        Some(trimmed(keyed(prev, key)))
    }
}

fn step_up(v: i16) -> (r: i16)
    ensures
        r == stepped_up(v),
{
    let step: i32 = if v <= i16::MIN + 1 {
        (KEY_STEP - 1) as i32
    } else {
        KEY_STEP as i32
    };
    let sum: i32 = v as i32 + step;
    if sum > i16::MAX as i32 {
        i16::MAX
    } else {
        sum as i16
    }
}

fn step_down(v: i16) -> (r: i16)
    ensures
        r == stepped_down(v),
{
    let step: i32 = if v == i16::MAX {
        (KEY_STEP - 1) as i32
    } else {
        KEY_STEP as i32
    };
    let diff: i32 = v as i32 - step;
    if diff < i16::MIN as i32 {
        i16::MIN
    } else {
        diff as i16
    }
}

/// The control state after a key press, or `None` for the quit key.
pub fn handle_keypress_event(prev_state: &ControlState, key: Key) -> (r: Option<ControlState>)
    ensures
        r == keypress_result(*prev_state, key),
{
    let mut control_state = *prev_state;
    match key {
        Key::Char(c) => {
            if c == 'q' {
                return None;
            } else if c == ' ' {
                control_state.throttle = 0;
                control_state.steering = 0;
            } else if c == 'm' {
                control_state.move_speed = control_state.move_speed.toggle();
            }
        },
        Key::Up => {
            control_state.throttle = step_up(control_state.throttle);
        },
        Key::Down => {
            control_state.throttle = step_down(control_state.throttle);
        },
        Key::Right => {
            control_state.steering = step_up(control_state.steering);
        },
        Key::Left => {
            control_state.steering = step_down(control_state.steering);
        },
        Key::Other => {},
    }
    Some(control_state.trim())
}

/// The state and buttons after a stick update at time `now`: the move
/// stick's Y and X become throttle and steering; the camera turns at the
/// view stick's rate since the last update; the speed mode toggles only
/// where the move button goes from released to pressed.
pub open spec fn stick_result(
    prev: ControlState,
    buttons: ToggleButtons,
    stick_pos: StickValues,
    now: u64,
) -> (ControlState, ToggleButtons) {
    let move_pos = stick_pos.0;
    let view_pos = stick_pos.1;
    let ms = elapsed_ms(prev.last_update, now);
    let move_speed = if move_pos.button && !buttons.move_pressed {
        toggled(prev.move_speed)
    } else {
        prev.move_speed
    };
    let state = ControlState {
        throttle: move_pos.y,
        steering: move_pos.x,
        pan: rotated(prev.pan as int, view_pos.x as int, ms) as i16,
        tilt: rotated(prev.tilt as int, view_pos.y as int, ms) as i16,
        move_speed,
        last_update: now,
    };
    (trimmed(state), ToggleButtons { move_pressed: move_pos.button, view_pressed: view_pos.button })
}

/// The control state after a stick update at time `now`; `buttons` keeps the
/// button states for edge detection.
pub fn handle_stick_positions(
    prev_state: &ControlState,
    buttons: &mut ToggleButtons,
    stick_pos: StickValues,
    now: u64,
) -> (r: ControlState)
    ensures
        (r, *final(buttons)) == stick_result(*prev_state, *old(buttons), stick_pos, now),
{
    let StickValues(move_pos, view_pos) = stick_pos;
    let mut move_speed = prev_state.move_speed;
    if move_pos.button && !buttons.move_pressed {
        move_speed = move_speed.toggle();
    }
    buttons.move_pressed = move_pos.button;
    buttons.view_pressed = view_pos.button;
    let (pan, tilt) = prev_state.get_rotated_camera(view_pos.x, view_pos.y, now);
    let control_state = ControlState {
        throttle: move_pos.y,
        steering: move_pos.x,
        pan,
        tilt,
        move_speed,
        last_update: now,
    };
    control_state.trim()
}

/// A move button held across two consecutive stick updates toggles the
/// speed mode once, at the first of them.
pub proof fn lemma_held_button_toggles_once(
    prev: ControlState,
    buttons: ToggleButtons,
    first: StickValues,
    second: StickValues,
    t1: u64,
    t2: u64,
)
    requires
        !buttons.move_pressed,
        first.0.button,
        second.0.button,
    ensures
        ({
            let (s1, b1) = stick_result(prev, buttons, first, t1);
            let (s2, b2) = stick_result(s1, b1, second, t2);
            s1.move_speed == toggled(prev.move_speed) && s2.move_speed == s1.move_speed
        }),
{
}


/// What a wait on the action channel produced.
#[derive(Debug)]
pub enum ChannelEvent {
    Received(Action),
    Timeout,
    Disconnected,
}

/// What the coordinator's loop does with an event.
#[derive(Debug)]
pub enum Directive {
    /// Hand this to the display.
    Forward(UIUpdate),
    /// Store this state, which differs from the stored one, and show it.
    Update(ControlState),
    /// Show this state, which equals the stored one.
    Show(ControlState),
    /// Signal shutdown to every thread; keep draining the channel.
    Quit,
    /// Stop at once, failing with this message.
    Fatal(ThreadMsg),
    /// Nothing to do; keep waiting.
    Idle,
    /// Every producer has gone: stop.
    Exit,
}

/// The coordinator's own state between events.
#[derive(Clone, Copy, Debug, PartialEq, Eq, Structural)]
pub struct Coordinator {
    pub buttons: ToggleButtons,
    pub shutting_down: bool,
}

/// Store and show a new state where it differs from the stored one, else
/// only show it.
pub open spec fn publish(prev: ControlState, next: ControlState) -> Directive {
    if next != prev {
        Directive::Update(next)
    } else {
        Directive::Show(next)
    }
}

/// The coordinator and the directive after one event, with `prev` the
/// stored control state and `now` the session time. Log lines and battery
/// readings go to the display; a fatal error stops at once; during shutdown
/// key presses and stick updates change nothing, timeouts keep the drain
/// going, and disconnection ends it.
pub open spec fn coordinator_step(
    c: Coordinator,
    prev: ControlState,
    event: ChannelEvent,
    now: u64,
) -> (Coordinator, Directive) {
    match event {
        ChannelEvent::Received(action) => match action {
            Action::Message(m) => (c, Directive::Forward(UIUpdate::Message(m))),
            Action::Error(m) => (c, Directive::Forward(UIUpdate::Error(m))),
            Action::Fatal(m) => (Coordinator { shutting_down: true, ..c }, Directive::Fatal(m)),
            Action::BatteryUpdate(v) => (c, Directive::Forward(UIUpdate::Battery(v))),
            Action::KeyPress(key) => if c.shutting_down {
                (c, Directive::Idle)
            } else {
                match keypress_result(prev, key) {
                    None => (Coordinator { shutting_down: true, ..c }, Directive::Quit),
                    Some(next) => (c, publish(prev, next)),
                }
            },
            Action::StickUpdate(stick_pos) => if c.shutting_down {
                (c, Directive::Idle)
            } else {
                let (next, buttons) = stick_result(prev, c.buttons, stick_pos, now);
                (Coordinator { buttons, ..c }, publish(prev, next))
            },
        },
        ChannelEvent::Timeout => (c, Directive::Idle),
        ChannelEvent::Disconnected => (c, Directive::Exit),
    }
}

impl Coordinator {
    /// Buttons released, not shutting down.
    pub fn new() -> (r: Self)
        ensures
            !r.buttons.move_pressed,
            !r.buttons.view_pressed,
            !r.shutting_down,
    {
        Coordinator { buttons: ToggleButtons::new(), shutting_down: false }
    }

    /// Decides what to do with one event of the action channel, given the
    /// stored control state `prev_state` and the session time `now`.
    pub fn handle_event(&mut self, prev_state: &ControlState, event: ChannelEvent, now: u64) -> (r:
        Directive)
        ensures
            (*final(self), r) == coordinator_step(*old(self), *prev_state, event, now),
    {
        match event {
            ChannelEvent::Received(action) => match action {
                Action::Message(m) => Directive::Forward(UIUpdate::Message(m)),
                Action::Error(m) => Directive::Forward(UIUpdate::Error(m)),
                Action::Fatal(m) => {
                    self.shutting_down = true;
                    Directive::Fatal(m)
                },
                Action::BatteryUpdate(v) => Directive::Forward(UIUpdate::Battery(v)),
                Action::KeyPress(key) => {
                    if self.shutting_down {
                        Directive::Idle
                    } else {
                        match handle_keypress_event(prev_state, key) {
                            None => {
                                self.shutting_down = true;
                                Directive::Quit
                            },
                            Some(next) => Self::publish(prev_state, next),
                        }
                    }
                },
                Action::StickUpdate(stick_pos) => {
                    if self.shutting_down {
                        Directive::Idle
                    } else {
                        let next = handle_stick_positions(
                            prev_state,
                            &mut self.buttons,
                            stick_pos,
                            now,
                        );
                        Self::publish(prev_state, next)
                    }
                },
            },
            ChannelEvent::Timeout => Directive::Idle,
            ChannelEvent::Disconnected => Directive::Exit,
        }
    }

    fn publish(prev_state: &ControlState, next: ControlState) -> (r: Directive)
        ensures
            r == publish(*prev_state, next),
    {
        if next != *prev_state {
            Directive::Update(next)
        } else {
            Directive::Show(next)
        }
    }
}

/// The quit key starts shutdown. From then on no key press or stick update
/// changes the control state or the coordinator, shutdown is never undone,
/// and the coordinator exits once every producer has disconnected.
pub proof fn lemma_quit_stops_control(
    c: Coordinator,
    prev: ControlState,
    event: ChannelEvent,
    now: u64,
)
    ensures
        !c.shutting_down ==> coordinator_step(
            c,
            prev,
            ChannelEvent::Received(Action::KeyPress(Key::Char('q'))),
            now,
        ) == (Coordinator { shutting_down: true, ..c }, Directive::Quit),
        c.shutting_down ==> coordinator_step(c, prev, event, now).0.shutting_down,
        c.shutting_down ==> (event matches ChannelEvent::Received(a) && (a is KeyPress
            || a is StickUpdate) ==> coordinator_step(c, prev, event, now) == (c, Directive::Idle)),
        event is Disconnected ==> coordinator_step(c, prev, event, now).1 is Exit,
{
}

} // verus!

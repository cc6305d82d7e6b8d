//! Interpretation of raw joystick events: deadzone, clamping, axis
//! inversion, and the two tracked stick positions.

use vstd::prelude::*;

use crate::actions::{StickPosition, StickValues};

verus! {

/// Raw readings within this distance of centre count as centred (a tenth of
/// full scale).
pub const DEAD_ZONE: i32 = 3276;

/// A raw reading after the deadzone: 0 inside it, else clamped to `i16`.
pub open spec fn deadzoned(v: int) -> int {
    if -(DEAD_ZONE as int) < v < DEAD_ZONE as int {
        0
    } else if v > i16::MAX {
        i16::MAX as int
    } else if v < i16::MIN {
        i16::MIN as int
    } else {
        v
    }
}

/// Negation that maps the most negative `i16` to the largest.
pub open spec fn negated(v: i16) -> i16 {
    if v == i16::MIN {
        i16::MAX
    } else {
        (-v) as i16
    }
}

/// A raw reading with the deadzone applied and clamped to `i16`.
pub fn clamp_with_deadzone(value: i32) -> (r: i16)
    ensures
        r == deadzoned(value as int),
        -(DEAD_ZONE as int) < value < DEAD_ZONE as int ==> r == 0,
{
    if value > -DEAD_ZONE && value < DEAD_ZONE {
        return 0;
    }
    if value > i16::MAX as i32 {
        return i16::MAX;
    }
    if value < i16::MIN as i32 {
        return i16::MIN;
    }
    value as i16
}

/// Raw readings at or beyond the deadzone keep their order, and every reading
/// maps into `i16` with centred ones at 0.
pub proof fn lemma_deadzone_monotonic(a: int, b: int)
    requires
        a <= b,
    ensures
        deadzoned(a) <= deadzoned(b),
        i16::MIN <= deadzoned(a) <= i16::MAX,
{
}

/// An axis or button event of the joystick device.
#[derive(Clone, Copy, Debug, PartialEq, Eq, Structural)]
pub enum StickInput {
    MoveX(i32),
    MoveY(i32),
    ViewX(i32),
    ViewY(i32),
    MoveButton(bool),
    ViewButton(bool),
}

/// The stick positions after one event: X axes as they are, Y axes inverted
/// so that pushing up is positive, buttons as reported.
pub open spec fn after_event(
    l: StickPosition,
    r: StickPosition,
    event: StickInput,
) -> (StickPosition, StickPosition) {
    match event {
        StickInput::MoveX(v) => (StickPosition { x: deadzoned(v as int) as i16, ..l }, r),
        StickInput::MoveY(v) => (
            StickPosition { y: negated(deadzoned(v as int) as i16), ..l },
            r,
        ),
        StickInput::ViewX(v) => (l, StickPosition { x: deadzoned(v as int) as i16, ..r }),
        StickInput::ViewY(v) => (
            l,
            StickPosition { y: negated(deadzoned(v as int) as i16), ..r },
        ),
        StickInput::MoveButton(b) => (StickPosition { button: b, ..l }, r),
        StickInput::ViewButton(b) => (l, StickPosition { button: b, ..r }),
    }
}

fn saturating_neg(v: i16) -> (r: i16)
    ensures
        r == negated(v),
{
    if v == i16::MIN {
        i16::MAX
    } else {
        -v
    }
}

/// Applies one device event to the move stick `l_pos` and view stick `r_pos`.
pub fn process_event(l_pos: &mut StickPosition, r_pos: &mut StickPosition, event: StickInput)
    ensures
        (*final(l_pos), *final(r_pos)) == after_event(*old(l_pos), *old(r_pos), event),
{
    match event {
        StickInput::MoveX(v) => {
            l_pos.x = clamp_with_deadzone(v);
        },
        StickInput::MoveY(v) => {
            l_pos.y = saturating_neg(clamp_with_deadzone(v));
        },
        StickInput::ViewX(v) => {
            r_pos.x = clamp_with_deadzone(v);
        },
        StickInput::ViewY(v) => {
            r_pos.y = saturating_neg(clamp_with_deadzone(v));
        },
        StickInput::MoveButton(b) => {
            l_pos.button = b;
        },
        StickInput::ViewButton(b) => {
            r_pos.button = b;
        },
    }
}

/// The positions after a sequence of events, applied in order.
pub open spec fn after_events(
    l: StickPosition,
    r: StickPosition,
    events: Seq<StickInput>,
) -> (StickPosition, StickPosition)
    decreases events.len(),
{
    if events.len() == 0 {
        (l, r)
    } else {
        let (l1, r1) = after_events(l, r, events.drop_last());
        after_event(l1, r1, events.last())
    }
}

/// The two sticks of an open joystick device, as its events have left them.
#[derive(Clone, Copy, Debug, PartialEq, Eq, Structural)]
pub struct StickTracker {
    pub left: StickPosition,
    pub right: StickPosition,
}

impl StickTracker {
    /// Both sticks centred, buttons released.
    pub fn new() -> (r: Self)
        ensures
            r.left == (StickPosition { x: 0, y: 0, button: false }),
            r.right == (StickPosition { x: 0, y: 0, button: false }),
    {
        StickTracker {
            left: StickPosition { x: 0, y: 0, button: false },
            right: StickPosition { x: 0, y: 0, button: false },
        }
    }

    /// Applies a drained batch of events in order and returns both positions.
    pub fn update_position(&mut self, events: &Vec<StickInput>) -> (r: StickValues)
        ensures
            (final(self).left, final(self).right) == after_events(
                old(self).left,
                old(self).right,
                events@,
            ),
            r == StickValues(final(self).left, final(self).right),
    {
        let mut i: usize = 0;
        while i < events.len()
            invariant
                i <= events.len(),
                (self.left, self.right) == after_events(
                    old(self).left,
                    old(self).right,
                    events@.take(i as int),
                ),
            decreases events.len() - i,
        {
            proof {
                assert(events@.take(i + 1).drop_last() == events@.take(i as int));
            }
            process_event(&mut self.left, &mut self.right, events[i]);
            i = i + 1;
        }
        proof {
            assert(events@.take(i as int) == events@);
        }
        StickValues(self.left, self.right)
    }
}


/// Whether a joystick device is open.
#[derive(Clone, Copy, Debug, PartialEq, Eq, Structural)]
pub enum DeviceState {
    NoDevice,
    Open,
}

/// What the joystick loop does this cycle.
#[derive(Clone, Copy, Debug, PartialEq, Eq, Structural)]
pub enum JoystickStep {
    /// Look for a device exposing the primary stick's axes.
    Find,
    /// Wait for the open device and read its pending events.
    Poll,
}

/// How a poll of the open device ended.
#[derive(Clone, Copy, Debug, PartialEq, Eq, Structural)]
pub enum PollOutcome {
    /// The positions were read and handed on.
    Delivered,
    /// The positions were read but nobody takes them any more.
    ConsumerGone,
    /// Reading the device failed.
    ReadFailed,
}

/// The joystick loop's device decisions: look for a device while there is
/// none; keep it while polls succeed; drop it on a read error (likely
/// unplugged) or when nobody consumes its positions.
#[derive(Clone, Copy, Debug, PartialEq, Eq, Structural)]
pub struct JoystickLink {
    pub state: DeviceState,
}

impl JoystickLink {
    /// No device yet.
    pub fn new() -> (r: Self)
        ensures
            r.state == DeviceState::NoDevice,
    {
        JoystickLink { state: DeviceState::NoDevice }
    }

    /// Find a device while there is none, else poll it.
    pub fn next_step(&self) -> (r: JoystickStep)
        ensures
            r == (match self.state {
                DeviceState::NoDevice => JoystickStep::Find,
                DeviceState::Open => JoystickStep::Poll,
            }),
    {
        match self.state {
            DeviceState::NoDevice => JoystickStep::Find,
            DeviceState::Open => JoystickStep::Poll,
        }
    }

    /// Records whether a search found and opened a device.
    pub fn find_done(&mut self, found: bool)
        ensures
            final(self).state == (if found {
                DeviceState::Open
            } else {
                DeviceState::NoDevice
            }),
    {
        self.state = if found {
            DeviceState::Open
        } else {
            DeviceState::NoDevice
        };
    }

    /// Records how a poll ended: the device stays open only where its
    /// positions were delivered.
    pub fn poll_done(&mut self, outcome: PollOutcome)
        ensures
            final(self).state == (if outcome == PollOutcome::Delivered {
                DeviceState::Open
            } else {
                DeviceState::NoDevice
            }),
    {
        self.state = match outcome {
            PollOutcome::Delivered => DeviceState::Open,
            PollOutcome::ConsumerGone => DeviceState::NoDevice,
            PollOutcome::ReadFailed => DeviceState::NoDevice,
        };
    }
}

} // verus!

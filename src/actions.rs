//! The events that flow from the input sources and the radio to the
//! coordinator, and from the coordinator to the display.

use vstd::prelude::*;

use crate::control::ControlState;

verus! {

/// Full-scale value of a battery ADC sample.
pub const BATTERY_FULL_SCALE: u32 = 1023;

/// A log line tagged with the component that produced it.
#[derive(Clone, Debug)]
pub struct ThreadMsg {
    pub name: String,
    pub message: String,
}

/// Instantaneous reading of one stick: axes after the deadzone, and whether
/// its button is held.
#[derive(Clone, Copy, Debug, PartialEq, Eq, Structural)]
pub struct StickPosition {
    pub x: i16,
    pub y: i16,
    pub button: bool,
}

/// The move stick and the view stick.
#[derive(Clone, Copy, Debug, PartialEq, Eq, Structural)]
pub struct StickValues(pub StickPosition, pub StickPosition);

/// Raw battery voltage sample.
#[derive(Clone, Copy, Debug, PartialEq, Eq, Structural)]
pub struct BatteryVoltage(pub u16);

/// Raw battery current sample.
#[derive(Clone, Copy, Debug, PartialEq, Eq, Structural)]
pub struct BatteryCurrent(pub u16);

/// Thousandths of full scale of a raw sample, rounded down.
pub open spec fn sample_millis(raw: u16) -> int {
    (raw as int) * 1000 / (BATTERY_FULL_SCALE as int)
}

impl BatteryVoltage {
    /// The sample normalized by the full-scale value, in thousandths
    /// (millivolts for a one-volt full scale).
    pub fn as_millis(&self) -> (r: u32)
        ensures
            r == sample_millis(self.0),
    {
        (self.0 as u32) * 1000 / BATTERY_FULL_SCALE
    }
}

impl BatteryCurrent {
    /// The sample normalized by the full-scale value, in thousandths.
    pub fn as_millis(&self) -> (r: u32)
        ensures
            r == sample_millis(self.0),
    {
        (self.0 as u32) * 1000 / BATTERY_FULL_SCALE
    }
}

/// A key read from the terminal.
#[derive(Clone, Copy, Debug, PartialEq, Eq, Structural)]
pub enum Key {
    Up,
    Down,
    Left,
    Right,
    Char(char),
    Other,
}

/// Everything the coordinator reacts to.
#[derive(Debug)]
pub enum Action {
    Message(ThreadMsg),
    Error(ThreadMsg),
    Fatal(ThreadMsg),
    KeyPress(Key),
    StickUpdate(StickValues),
    BatteryUpdate(BatteryVoltage),
}

/// What the coordinator hands to the display.
#[derive(Debug)]
pub enum UIUpdate {
    Control(ControlState),
    Battery(BatteryVoltage),
    Message(ThreadMsg),
    Error(ThreadMsg),
}

} // verus!

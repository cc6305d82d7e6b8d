//! What the display shows: the latest control state and battery reading, and
//! the most recent log lines.

use std::collections::VecDeque;

use vstd::prelude::*;

use crate::actions::{BatteryVoltage, ThreadMsg, UIUpdate};
use crate::control::ControlState;

verus! {

/// Number of log lines kept for display.
pub const MESSAGE_LINES: usize = 5;

/// A log line for display: informational or an error.
#[derive(Debug)]
pub enum LogLine {
    Info(ThreadMsg),
    Error(ThreadMsg),
}

/// State of the display.
pub struct UIState {
    pub control_state: ControlState,
    pub battery_voltage: BatteryVoltage,
    pub messages: VecDeque<LogLine>,
}

/// The log after appending a line: the oldest line leaves once there are
/// more than `MESSAGE_LINES`.
pub open spec fn appended(log: Seq<LogLine>, line: LogLine) -> Seq<LogLine> {
    if log.len() + 1 > MESSAGE_LINES {
        log.push(line).drop_first()
    } else {
        log.push(line)
    }
}

impl UIState {
    /// The log holds at most `MESSAGE_LINES` lines.
    pub open spec fn wf(&self) -> bool {
        self.messages@.len() <= MESSAGE_LINES
    }

    /// Neutral control state, no battery reading, empty log.
    pub fn new() -> (r: Self)
        ensures
            r.wf(),
            r.control_state == ControlState::new_spec(),
            r.battery_voltage == BatteryVoltage(0),
            r.messages@.len() == 0,
    {
        UIState {
            control_state: ControlState::new(),
            battery_voltage: BatteryVoltage(0),
            messages: VecDeque::new(),
        }
    }

    /// Applies one update from the coordinator.
    pub fn apply_update(&mut self, update: UIUpdate)
        requires
            old(self).wf(),
        ensures
            final(self).wf(),
            match update {
                UIUpdate::Control(s) => final(self).control_state == s
                    && final(self).battery_voltage == old(self).battery_voltage
                    && final(self).messages@ == old(self).messages@,
                UIUpdate::Battery(v) => final(self).battery_voltage == v
                    && final(self).control_state == old(self).control_state
                    && final(self).messages@ == old(self).messages@,
                UIUpdate::Message(m) => final(self).messages@ == appended(
                    old(self).messages@,
                    LogLine::Info(m),
                ) && final(self).control_state == old(self).control_state
                    && final(self).battery_voltage == old(self).battery_voltage,
                UIUpdate::Error(m) => final(self).messages@ == appended(
                    old(self).messages@,
                    LogLine::Error(m),
                ) && final(self).control_state == old(self).control_state
                    && final(self).battery_voltage == old(self).battery_voltage,
            },
    {
        match update {
            UIUpdate::Control(s) => {
                self.control_state = s;
            },
            UIUpdate::Battery(v) => {
                self.battery_voltage = v;
            },
            UIUpdate::Message(m) => {
                self.push_line(LogLine::Info(m));
            },
            UIUpdate::Error(m) => {
                self.push_line(LogLine::Error(m));
            },
        }
    }

    fn push_line(&mut self, line: LogLine)
        requires
            old(self).wf(),
        ensures
            final(self).wf(),
            final(self).messages@ == appended(old(self).messages@, line),
            final(self).control_state == old(self).control_state,
            final(self).battery_voltage == old(self).battery_voltage,
    {
        self.messages.push_back(line);
        if self.messages.len() > MESSAGE_LINES {
            let _ = self.messages.pop_front();
        }
    }
}

} // verus!

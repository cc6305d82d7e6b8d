//! The radio command protocol and the decisions of the radio link: which
//! command to send each cycle, and what an acknowledgement carries.

use vstd::prelude::*;

use crate::actions::BatteryVoltage;
use crate::control::{camera_angle, clamp, lemma_tank_drive_bounds, tank_drive, ControlState};

verus! {

/// Command: stop driving.
pub const CMD_STOP: u8 = 0xF3;

/// Command: drive, followed by left and right percent bytes.
pub const CMD_DRIVE: u8 = 0xF4;

/// Command: centre the camera.
pub const CMD_CENTER_CAMERA: u8 = 0xF5;

/// Command: aim the camera, followed by pan and tilt degree bytes.
pub const CMD_LOOK: u8 = 0xF6;

/// Acknowledgement tag: nothing to report.
pub const ACK_NOOP: u8 = 0xF8;

/// Acknowledgement tag: battery voltage, big-endian in bytes 1 and 2.
pub const ACK_BATTERY_VOLTAGE: u8 = 0xFB;

/// Acknowledgement tag: left motor RPM (reserved).
pub const ACK_LEFT_RPM: u8 = 0xFC;

/// Acknowledgement tag: right motor RPM (reserved).
pub const ACK_RIGHT_RPM: u8 = 0xFD;

/// Channel the vehicle listens on.
pub const RADIO_CHANNEL: u8 = 76;

/// Offset added to a drive percentage on the wire.
pub const PERCENT_OFFSET: u8 = 100;

/// Offset added to a camera angle on the wire.
pub const ANGLE_OFFSET: u8 = 90;

/// The transceiver's radio channel.
#[verifier::external_type_specification]
#[verifier::external_body]
pub struct ExChannel(crazyradio::Channel);

/// Errors of the transceiver library.
#[verifier::external_type_specification]
#[verifier::external_body]
pub struct ExError(crazyradio::Error);

/// Relies on crazyradio's `Channel::from_number`: a channel exists for the
/// numbers 0 to 125 and for no other.
pub assume_specification[ crazyradio::Channel::from_number ](channel: u8) -> (r: Result<
    crazyradio::Channel,
    crazyradio::Error,
>)
    ensures
        r is Ok <==> channel < 126,
;

/// Which half of the control state a cycle sends.
#[derive(Clone, Copy, Debug, PartialEq, Eq, Structural)]
pub enum SendStateType {
    Drive,
    Camera,
}

/// The other half.
pub open spec fn alternated(t: SendStateType) -> SendStateType {
    match t {
        SendStateType::Drive => SendStateType::Camera,
        SendStateType::Camera => SendStateType::Drive,
    }
}

/// A percentage in `-100 ..= 100` (clamped) on the wire: offset by 100.
pub fn map_percent_value(value: i8) -> (r: u8)
    ensures
        r == clamp(value as int, -100, 100) + 100,
{
    if value <= -100i8 {
        return 0u8;
    }
    if value >= 100i8 {
        return 200u8;
    }
    if value < 0i8 {
        return (value + 100i8) as u8;
    }
    (value as u8) + 100u8
}

/// An angle in `-90 ..= 90` (clamped) on the wire: offset by 90.
pub fn map_angular_value(value: i8) -> (r: u8)
    ensures
        r == clamp(value as int, -90, 90) + 90,
{
    if value <= -90i8 {
        return 0u8;
    }
    if value >= 90i8 {
        return 180u8;
    }
    if value < 0i8 {
        return (value + 90i8) as u8;
    }
    (value as u8) + 90u8
}

/// The command that sends one half of a control state: STOP or DRIVE for
/// the drive half, CENTER CAMERA or LOOK for the camera half, the one-byte
/// form exactly where both values are 0.
pub open spec fn command_for(state: ControlState, state_type: SendStateType) -> Seq<u8> {
    match state_type {
        SendStateType::Drive => {
            let (l, r) = tank_drive(state);
            if l == 0 && r == 0 {
                seq![CMD_STOP]
            } else {
                seq![CMD_DRIVE, (l + 100) as u8, (r + 100) as u8]
            }
        },
        SendStateType::Camera => {
            let p = camera_angle(state.pan as int);
            let t = camera_angle(state.tilt as int);
            if p == 0 && t == 0 {
                seq![CMD_CENTER_CAMERA]
            } else {
                seq![CMD_LOOK, (p + 90) as u8, (t + 90) as u8]
            }
        },
    }
}

/// Encodes one half of `control_state` as a radio command.
pub fn encode_state_update(control_state: &ControlState, state_type: SendStateType) -> (r: Vec<
    u8,
>)
    ensures
        r@ == command_for(*control_state, state_type),
{
    match state_type {
        SendStateType::Drive => {
            let (left_val, right_val) = control_state.as_tank_drive();
            if left_val == 0 && right_val == 0 {
                vec![CMD_STOP]
            } else {
                vec![CMD_DRIVE, map_percent_value(left_val), map_percent_value(right_val)]
            }
        },
        SendStateType::Camera => {
            let (pan_val, tilt_val) = control_state.as_camera_angles();
            if pan_val == 0 && tilt_val == 0 {
                vec![CMD_CENTER_CAMERA]
            } else {
                vec![CMD_LOOK, map_angular_value(pan_val), map_angular_value(tilt_val)]
            }
        },
    }
}

/// What an acknowledgement carries.
#[derive(Clone, Copy, Debug, PartialEq, Eq, Structural)]
pub enum AckData {
    NoOp,
    Battery(BatteryVoltage),
    LeftRpm,
    RightRpm,
    Unrecognized(u8),
}

/// Big-endian `u16` of two bytes.
pub open spec fn be_u16(hi: u8, lo: u8) -> u16 {
    (hi as int * 256 + lo as int) as u16
}

/// The meaning of an acknowledgement, by its leading tag.
pub open spec fn ack_meaning(ack: Seq<u8>) -> AckData {
    let tag = ack[0];
    if tag == ACK_NOOP {
        AckData::NoOp
    } else if tag == ACK_BATTERY_VOLTAGE {
        AckData::Battery(BatteryVoltage(be_u16(ack[1], ack[2])))
    } else if tag == ACK_LEFT_RPM {
        AckData::LeftRpm
    } else if tag == ACK_RIGHT_RPM {
        AckData::RightRpm
    } else {
        AckData::Unrecognized(tag)
    }
}

/// Decodes the four-byte acknowledgement of a transaction.
pub fn receive_ack_data(ack_data: &[u8; 4]) -> (r: AckData)
    ensures
        r == ack_meaning(ack_data@),
{
    let tag = ack_data[0];
    if tag == ACK_NOOP {
        AckData::NoOp
    } else if tag == ACK_BATTERY_VOLTAGE {
        let hi = ack_data[1];
        let lo = ack_data[2];
        AckData::Battery(BatteryVoltage((hi as u16) * 256 + (lo as u16)))
    } else if tag == ACK_LEFT_RPM {
        AckData::LeftRpm
    } else if tag == ACK_RIGHT_RPM {
        AckData::RightRpm
    } else {
        AckData::Unrecognized(tag)
    }
}


/// Drive percentages a receiver reads from a command: byte minus offset for
/// DRIVE, zero for STOP.
pub open spec fn received_drive(cmd: Seq<u8>) -> (int, int) {
    if cmd[0] == CMD_DRIVE {
        (cmd[1] - PERCENT_OFFSET, cmd[2] - PERCENT_OFFSET)
    } else {
        (0, 0)
    }
}

/// Camera angles a receiver reads from a command: byte minus offset for
/// LOOK, zero for CENTER CAMERA.
pub open spec fn received_angles(cmd: Seq<u8>) -> (int, int) {
    if cmd[0] == CMD_LOOK {
        (cmd[1] - ANGLE_OFFSET, cmd[2] - ANGLE_OFFSET)
    } else {
        (0, 0)
    }
}

/// Decoding the drive command recovers the tank-drive percentages exactly.
pub proof fn lemma_drive_round_trip(s: ControlState)
    ensures
        received_drive(command_for(s, SendStateType::Drive)) == tank_drive(s),
{
    lemma_tank_drive_bounds(s);
}

/// Decoding the camera command recovers the camera angles exactly.
pub proof fn lemma_camera_round_trip(s: ControlState)
    ensures
        received_angles(command_for(s, SendStateType::Camera)) == (
            camera_angle(s.pan as int),
            camera_angle(s.tilt as int),
        ),
{
}

/// Whether the transceiver is open.
#[derive(Clone, Copy, Debug, PartialEq, Eq, Structural)]
pub enum LinkState {
    NoDevice,
    Connected,
}

/// Why a radio link cannot be set up.
#[derive(Clone, Copy, Debug, PartialEq, Eq, Structural)]
pub enum RadioError {
    InvalidChannel,
}

/// What the radio loop does this cycle.
#[derive(Debug)]
pub enum RadioStep {
    /// Try to open and configure the transceiver.
    Open,
    /// Send these command bytes and wait for the acknowledgement.
    Send(Vec<u8>),
}

/// The radio link's decisions: opening the transceiver, and alternating
/// drive and camera commands while it is open.
pub struct RadioEngine {
    pub link: LinkState,
    pub state_type: SendStateType,
    pub channel_number: u8,
    pub channel: crazyradio::Channel,
}

impl RadioEngine {
    /// A link on `channel_number`, not yet open, sending drive first; an
    /// error where the transceiver has no such channel.
    pub fn new(channel_number: u8) -> (r: Result<Self, RadioError>)
        ensures
            r is Ok <==> channel_number < 126,
            r matches Ok(e) ==> e.link == LinkState::NoDevice && e.state_type
                == SendStateType::Drive && e.channel_number == channel_number,
            r matches Err(e) ==> e == RadioError::InvalidChannel,
    {
        match crazyradio::Channel::from_number(channel_number) {
            Ok(channel) => Ok(
                RadioEngine {
                    link: LinkState::NoDevice,
                    state_type: SendStateType::Drive,
                    channel_number,
                    channel,
                },
            ),
            Err(_) => Err(RadioError::InvalidChannel),
        }
    }

    /// Open the transceiver while there is none; else send the current half
    /// of `control_state`.
    pub fn next_step(&self, control_state: &ControlState) -> (r: RadioStep)
        ensures
            self.link == LinkState::NoDevice ==> r is Open,
            self.link == LinkState::Connected ==> (r matches RadioStep::Send(cmd) && cmd@
                == command_for(*control_state, self.state_type)),
    {
        match self.link {
            LinkState::NoDevice => RadioStep::Open,
            LinkState::Connected => RadioStep::Send(
                encode_state_update(control_state, self.state_type),
            ),
        }
    }

    /// Records whether opening the transceiver succeeded.
    pub fn open_done(&mut self, opened: bool)
        ensures
            final(self).link == (if opened {
                LinkState::Connected
            } else {
                LinkState::NoDevice
            }),
            final(self).state_type == old(self).state_type,
            final(self).channel_number == old(self).channel_number,
    {
        self.link = if opened {
            LinkState::Connected
        } else {
            LinkState::NoDevice
        };
    }

    /// Records the end of a transaction, its acknowledgement where it
    /// succeeded. The next cycle sends the other half; a failed transaction
    /// leaves the link open. Returns what the acknowledgement carries.
    pub fn transaction_done(&mut self, ack: Option<&[u8; 4]>) -> (r: Option<AckData>)
        ensures
            final(self).state_type == alternated(old(self).state_type),
            final(self).link == old(self).link,
            final(self).channel_number == old(self).channel_number,
            ack is None ==> r is None,
            ack matches Some(a) ==> r == Some(ack_meaning(a@)),
    {
        self.state_type = match self.state_type {
            SendStateType::Drive => SendStateType::Camera,
            SendStateType::Camera => SendStateType::Drive,
        };
        match ack {
            Some(a) => Some(receive_ack_data(a)),
            None => None,
        }
    }
}

} // verus!

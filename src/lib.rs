//! Control core of a remotely driven vehicle: control-state kinematics,
//! joystick and keyboard input interpretation, the radio command protocol
//! and the coordinator's decision logic.

pub mod control;
pub mod actions;
pub mod joystick;
pub mod radio;
pub mod ticks;
pub mod coordinator;
pub mod ui;

//! Host-side controller library for a USB-HID macro pad with ten buttons,
//! four rotary knobs and a four-zone touchscreen.
//!
//! The wire codec, the input decoder, the binding table, the command
//! protocol and the control-loop state machine are verified here; the
//! binary around them drives the real transports.
pub mod display_zones;
pub mod commands;
pub mod inputs;
pub mod control;
pub mod keys;
pub mod actions_text;
pub mod database;
pub mod device;
pub mod input_handler;
pub mod protos;
pub mod socket;
pub mod framing;
pub mod client;

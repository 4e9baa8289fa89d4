use vstd::prelude::*;
use crate::database::models::ImageMapping;
use crate::display_zones::DisplayZones;
use crate::input_handler::InputMapping;

verus! {

/// What the control loop is asked to apply after a client command.
pub enum IncomingCommands {
    SetKeyConfig(InputMapping),
    SetDisplayZoneImage(ImageMapping),
    ClearDisplayZoneImage(DisplayZones),
    ClearAllDisplayZoneImages,
    SetBootLogo(String),
    SetBrightness(u8),
}

/// The kind of a failure to handle a message.
#[derive(Debug, Clone, Copy, PartialEq, Eq, Structural)]
pub enum ErrorKind {
    InvalidData,
    InvalidInput,
    WouldBlock,
    Other,
}

/// A failure to handle a message, with a description.
#[derive(Debug, Clone)]
pub struct MessageError {
    pub kind: ErrorKind,
    pub message: String,
}

impl MessageError {
    pub fn new(kind: ErrorKind, message: &str) -> (r: Self)
        ensures
            r.kind == kind,
            r.message@ == message@,
    {
        MessageError { kind, message: String::from_str(message) }
    }
}

} // verus!

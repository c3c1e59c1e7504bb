//! The errors shared by parsing and both backends.
use vstd::prelude::*;

verus! {

/// Why a parse or a device operation failed.
#[derive(Clone, Copy, Debug, PartialEq, Eq, Structural)]
pub enum ErrorKind {
    /// The color value supplied was not recognized.
    InvalidColor,
    /// The pattern (or wave) value supplied was not recognized.
    InvalidPattern,
    /// The LED number is invalid or not supported by the device.
    InvalidLED,
    /// The device identifier was incorrectly formatted.
    InvalidDeviceID,
    /// No device was discovered, or it could not be opened.
    DeviceNotFound,
    /// The request could not be written or sent in full.
    InvalidRequest,
    /// The webhook server answered with a status outside 2xx.
    UnexpectedError(u16),
    /// The command is not supported by this backend.
    UnsupportedCommand,
}

} // verus!

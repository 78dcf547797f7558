use vstd::prelude::*;

use crate::protocol::Command;

verus! {

/// Declares `serialport::ErrorKind` so that the kind of a port fault can
/// travel inside this library's error type; it is not inspected here.
#[verifier::external_type_specification]
#[verifier::external_body]
pub struct ExPortErrorKind(serialport::ErrorKind);

/// Declares `std::io::Error` so that an I/O fault can travel inside this
/// library's error type; its contents are not inspected here.
#[verifier::external_type_specification]
#[verifier::external_body]
pub struct ExIoError(std::io::Error);

/// The result type of this library's fallible operations.
pub type Result<T> = std::result::Result<T, Error>;

/// Everything that can go wrong while talking to the device.
#[derive(Debug)]
pub enum Error {
    /// A frame whose checksum byte does not match its contents: the command,
    /// the checksum that was received and the one that was calculated.
    WrongChecksum(Command, u8, u8),
    /// A known command carried a setting value that is not recognised: the
    /// command and the two raw setting bytes.
    InvalidSetting(Command, [u8; 2]),
    /// The first byte of a frame is not a known command code.
    InvalidCommand(u8),
    /// The serial port failed (for example, the device was unplugged): the
    /// kind of fault and the port's description of it.
    PortFail(serialport::ErrorKind, String),
    /// Fewer than a whole frame of bytes is waiting. Polling answers this by
    /// stopping until the next tick, so it never reaches a caller of
    /// `Session::poll_step`.
    ReadTooLittleData,
    /// A command frame could not be written in full.
    SendCommandFail,
    /// Any other I/O fault.
    IOError(std::io::Error),
    /// A byte does not name any variant of the enumeration it was read as.
    InvalidEnumConversion,
}

impl From<std::io::Error> for Error {
    fn from(value: std::io::Error) -> (r: Error)
        ensures
            r == Error::IOError(value),
    {
        Error::IOError(value)
    }
}

impl vstd::std_specs::convert::FromSpecImpl<std::io::Error> for Error {
    open spec fn obeys_from_spec() -> bool {
        true
    }

    open spec fn from_spec(v: std::io::Error) -> Error {
        Error::IOError(v)
    }
}

} // verus!

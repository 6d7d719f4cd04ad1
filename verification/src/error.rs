//! Failures of the codec and of an exchange.

use vstd::prelude::*;
use crate::codes::ResponseCode;

verus! {

/// `std::io::Error`, the transport's own error type. The crate carries it
/// through untouched and never looks inside.
#[verifier::external_type_specification]
#[verifier::external_body]
pub struct ExIoError(std::io::Error);

/// What went wrong inside the codec or in the way it was driven. These point
/// at a corrupted link or at a mistake of the caller.
#[derive(Clone, Copy, Debug, PartialEq, Eq, Structural)]
pub enum ProgramError {
    /// The frame is shorter than the shortest frame, does not begin with the
    /// start byte, or its size disagrees with its length byte.
    Framing,
    /// The frame's last byte is not the checksum of the bytes before it.
    BadChecksum { got: u8, expecting: u8 },
    /// The operation code is not in the table.
    UnknownCommand(u8),
    /// The response must carry a status byte and has no room for one.
    MissingStatus,
    /// The status byte is not in the table.
    UnknownStatus(u8),
    /// The frequency, in hertz, lies outside both bands of the reader.
    InvalidFrequency(u32),
    /// A record ends before one of its fields.
    Bitfield,
    /// The session was handed an event that does not answer what it asked for.
    UnexpectedEvent,
}

/// Failure of an exchange with the reader.
#[derive(Debug)]
pub enum Error {
    /// The transport failed or timed out.
    Io(std::io::Error),
    /// The reader reported a transient communication problem. A session
    /// reports every status other than success as `Protocol`; this variant is
    /// for callers that class a status as transient themselves.
    Communication(ResponseCode),
    /// The reader answered with a status other than success.
    Protocol(ResponseCode),
    /// A malformed frame or an invalid argument.
    Program(ProgramError),
}

} // verus!

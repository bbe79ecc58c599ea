//! Errors reported by the library.
use vstd::prelude::*;

verus! {

/// Kind of an error that the library itself decides on.
#[derive(Debug, Clone, Copy, PartialEq, Eq, Structural)]
pub enum ErrorKind {
    NotFound,
    InvalidInput,
    InvalidData,
    Unsupported,
}

/// Reasons for which a send stream is rejected.
#[derive(Debug, Clone, Copy, PartialEq, Eq, Structural)]
pub enum ReceiveError {
    /// The stream does not start with the send stream magic.
    UnexpectedHeader,
    /// The stream version is newer than the supported version.
    UnsupportedVersion,
    /// The checksum stored in a command header does not match the command.
    CrcMismatch,
    /// An attribute runs past the end of its command.
    Truncated,
    /// A command lacks an attribute that it requires.
    MissingAttributes,
    /// An integer attribute does not have the size of its integer type.
    InvalidIntLength,
    /// A uuid attribute is not 16 bytes long.
    InvalidUuidLength,
    /// A timespec attribute is not 12 bytes long.
    InvalidTimespecLength,
    /// The command id is not a known send command.
    UnexpectedCommand,
    /// A subvolume was started while another one was still being received.
    StreamInvalid,
    /// The end command arrived while no subvolume was being received.
    InvalidStream,
    /// An extended attribute name is longer than the kernel allows.
    XattrNameTooLong,
}

impl ReceiveError {
    /// Human readable message for the error `e`.
    pub open spec fn spec_message(e: ReceiveError) -> &'static str {
        match e {
            ReceiveError::UnexpectedHeader => "Unexpected header",
            ReceiveError::UnsupportedVersion => "Unsuppored Version",
            ReceiveError::CrcMismatch => "crc mismatch in command",
            ReceiveError::Truncated => "send stream is trucated",
            ReceiveError::MissingAttributes => "tlv missing attributes",
            ReceiveError::InvalidIntLength => "Invalid length for tlv(Int)",
            ReceiveError::InvalidUuidLength => "Invalid length for tlv(uuid)",
            ReceiveError::InvalidTimespecLength => "Invalid length for tlv(timespec)",
            ReceiveError::UnexpectedCommand => "UNEXPECTED COMMAND",
            ReceiveError::StreamInvalid => "Stream is invalid",
            ReceiveError::InvalidStream => "Invalid stream",
            ReceiveError::XattrNameTooLong => "xattr name too long",
        }
    }

    /// Human readable message for this error.
    pub fn message(&self) -> (r: &'static str)
        ensures
            r == Self::spec_message(*self),
    {
        match self {
            ReceiveError::UnexpectedHeader => "Unexpected header",
            ReceiveError::UnsupportedVersion => "Unsuppored Version",
            ReceiveError::CrcMismatch => "crc mismatch in command",
            ReceiveError::Truncated => "send stream is trucated",
            ReceiveError::MissingAttributes => "tlv missing attributes",
            ReceiveError::InvalidIntLength => "Invalid length for tlv(Int)",
            ReceiveError::InvalidUuidLength => "Invalid length for tlv(uuid)",
            ReceiveError::InvalidTimespecLength => "Invalid length for tlv(timespec)",
            ReceiveError::UnexpectedCommand => "UNEXPECTED COMMAND",
            ReceiveError::StreamInvalid => "Stream is invalid",
            ReceiveError::InvalidStream => "Invalid stream",
            ReceiveError::XattrNameTooLong => "xattr name too long",
        }
    }
}

/// Error returned by the library.
#[derive(Debug, Clone, Copy, PartialEq, Eq, Structural)]
pub enum Error {
    /// An error of the given kind.
    Kind(ErrorKind),
    /// An error that carries the given operating system error number.
    Os(i32),
    /// A set of flags held bits that the operation does not accept; the bits are given.
    InvalidFlags(u64),
    /// A send stream was rejected.
    Receive(ReceiveError),
}

/// Result type of the library.
pub type IoResult<T> = Result<T, Error>;

} // verus!

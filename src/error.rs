//! Errors of the serial SPI transport, and the mapping of device-protocol
//! errors into them.

use vstd::prelude::*;

verus! {

/// Declares `std::io::Error` so that link failures can be carried as they came.
#[verifier::external_type_specification]
#[verifier::external_body]
pub struct ExIoError(std::io::Error);

/// Declares `std::array::TryFromSliceError`, the error of taking an array
/// from a slice of the wrong length.
#[verifier::external_type_specification]
#[verifier::external_body]
pub struct ExTryFromSliceError(std::array::TryFromSliceError);

/// Errors of the device protocol that drives the transport.
///
/// `B` is the error of the bus underneath and `G` that of the chip-select pin.
/// Variants with a `u8` carry the status or detail code that the protocol
/// layer reported.
#[derive(Debug)]
pub enum DeviceError<B, G> {
    AlarmMode,
    BusError(B),
    ChipBusy,
    Decryption(u8),
    Encryption(u8),
    GPIOError(G),
    HandshakeFailed,
    InvalidChipStatus(u8),
    InvalidCRC,
    InvalidKey,
    InvalidL2Response,
    InvalidL3Cmd,
    InvalidPublicKey,
    L2ResponseError(u8),
    L3CmdFailed,
    L3ResponseBufferOverflow,
    NoSession,
    ParsingError(u8),
    RequestExceedsSize,
    Unauthorized,
    UnexpectedResponseStatus,
}

/// Errors of the hex-over-serial SPI transport.
#[derive(Debug)]
pub enum SerialTransportError {
    /// The serial link failed or timed out.
    Io(std::io::Error),
    /// A chip-select acknowledgement or a frame terminator was not the expected one.
    InvalidResponse,
    /// A transfer of more than 2048 bytes was asked for.
    DataTooLong,
    /// A two-byte chunk of the echoed hex region is not UTF-8.
    NonUtf8Hex,
    /// A two-byte chunk of the echoed hex region is not a hex number.
    InvalidHexDigit,
    /// The read and write buffers of a transfer differ in length.
    InvalidBufferLength,
    /// An error of the device protocol, whose bus error is boxed so that the
    /// type stays finite.
    Tropic(DeviceError<Box<SerialTransportError>, std::convert::Infallible>),
}

/// The text of an error: the whole message for the variants without a
/// payload, and the prefix that goes before the payload for the others.
pub open spec fn message_of(e: SerialTransportError) -> &'static str {
    match e {
        SerialTransportError::Io(_) => "USB/Serial I/O error",
        SerialTransportError::InvalidResponse => "Invalid response from device",
        SerialTransportError::DataTooLong => "Data too long for transport",
        SerialTransportError::NonUtf8Hex => "Non-UTF8 hex characters in response",
        SerialTransportError::InvalidHexDigit => "Invalid hex digit in response",
        SerialTransportError::InvalidBufferLength => "Invalid buffer length",
        SerialTransportError::Tropic(_) => "Tropic device error",
    }
}

impl SerialTransportError {
    /// The text of the error: the whole message for the variants without a
    /// payload; for `Io` and `Tropic`, the text that goes before the payload's
    /// own message, after a `": "`.
    pub fn message(&self) -> (r: &'static str)
        ensures
            r == message_of(*self),
    {
        match self {
            SerialTransportError::Io(_) => "USB/Serial I/O error",
            SerialTransportError::InvalidResponse => "Invalid response from device",
            SerialTransportError::DataTooLong => "Data too long for transport",
            SerialTransportError::NonUtf8Hex => "Non-UTF8 hex characters in response",
            SerialTransportError::InvalidHexDigit => "Invalid hex digit in response",
            SerialTransportError::InvalidBufferLength => "Invalid buffer length",
            SerialTransportError::Tropic(_) => "Tropic device error",
        }
    }
}

/// The other name under which the transport error is known to device code.
pub type UsbDeviceError = SerialTransportError;

/// The transport error that a device-protocol error becomes: a bus error is
/// boxed and wrapped again, the impossible pin error becomes
/// `InvalidResponse`, and every other variant keeps its payload.
pub open spec fn lift_device_error(
    e: DeviceError<SerialTransportError, std::convert::Infallible>,
) -> SerialTransportError {
    match e {
        DeviceError::BusError(inner) => SerialTransportError::Tropic(
            DeviceError::BusError(Box::new(inner)),
        ),
        DeviceError::GPIOError(_) => SerialTransportError::InvalidResponse,
        DeviceError::AlarmMode => SerialTransportError::Tropic(DeviceError::AlarmMode),
        DeviceError::ChipBusy => SerialTransportError::Tropic(DeviceError::ChipBusy),
        DeviceError::Decryption(c) => SerialTransportError::Tropic(DeviceError::Decryption(c)),
        DeviceError::Encryption(c) => SerialTransportError::Tropic(DeviceError::Encryption(c)),
        DeviceError::HandshakeFailed => SerialTransportError::Tropic(
            DeviceError::HandshakeFailed,
        ),
        DeviceError::InvalidChipStatus(c) => SerialTransportError::Tropic(
            DeviceError::InvalidChipStatus(c),
        ),
        DeviceError::InvalidCRC => SerialTransportError::Tropic(DeviceError::InvalidCRC),
        DeviceError::InvalidKey => SerialTransportError::Tropic(DeviceError::InvalidKey),
        DeviceError::InvalidL2Response => SerialTransportError::Tropic(
            DeviceError::InvalidL2Response,
        ),
        DeviceError::InvalidL3Cmd => SerialTransportError::Tropic(DeviceError::InvalidL3Cmd),
        DeviceError::InvalidPublicKey => SerialTransportError::Tropic(
            DeviceError::InvalidPublicKey,
        ),
        DeviceError::L2ResponseError(c) => SerialTransportError::Tropic(
            DeviceError::L2ResponseError(c),
        ),
        DeviceError::L3CmdFailed => SerialTransportError::Tropic(DeviceError::L3CmdFailed),
        DeviceError::L3ResponseBufferOverflow => SerialTransportError::Tropic(
            DeviceError::L3ResponseBufferOverflow,
        ),
        DeviceError::NoSession => SerialTransportError::Tropic(DeviceError::NoSession),
        DeviceError::ParsingError(c) => SerialTransportError::Tropic(DeviceError::ParsingError(c)),
        DeviceError::RequestExceedsSize => SerialTransportError::Tropic(
            DeviceError::RequestExceedsSize,
        ),
        DeviceError::Unauthorized => SerialTransportError::Tropic(DeviceError::Unauthorized),
        DeviceError::UnexpectedResponseStatus => SerialTransportError::Tropic(
            DeviceError::UnexpectedResponseStatus,
        ),
    }
}

impl From<DeviceError<SerialTransportError, std::convert::Infallible>> for SerialTransportError {
    fn from(err: DeviceError<SerialTransportError, std::convert::Infallible>) -> (r: Self)
        ensures
            r == lift_device_error(err),
    {
        match err {
            DeviceError::BusError(inner) => SerialTransportError::Tropic(
                DeviceError::BusError(Box::new(inner)),
            ),
            DeviceError::GPIOError(_) => SerialTransportError::InvalidResponse,
            DeviceError::AlarmMode => SerialTransportError::Tropic(DeviceError::AlarmMode),
            DeviceError::ChipBusy => SerialTransportError::Tropic(DeviceError::ChipBusy),
            DeviceError::Decryption(c) => SerialTransportError::Tropic(DeviceError::Decryption(c)),
            DeviceError::Encryption(c) => SerialTransportError::Tropic(DeviceError::Encryption(c)),
            DeviceError::HandshakeFailed => SerialTransportError::Tropic(
                DeviceError::HandshakeFailed,
            ),
            DeviceError::InvalidChipStatus(c) => SerialTransportError::Tropic(
                DeviceError::InvalidChipStatus(c),
            ),
            DeviceError::InvalidCRC => SerialTransportError::Tropic(DeviceError::InvalidCRC),
            DeviceError::InvalidKey => SerialTransportError::Tropic(DeviceError::InvalidKey),
            DeviceError::InvalidL2Response => SerialTransportError::Tropic(
                DeviceError::InvalidL2Response,
            ),
            DeviceError::InvalidL3Cmd => SerialTransportError::Tropic(DeviceError::InvalidL3Cmd),
            DeviceError::InvalidPublicKey => SerialTransportError::Tropic(
                DeviceError::InvalidPublicKey,
            ),
            DeviceError::L2ResponseError(c) => SerialTransportError::Tropic(
                DeviceError::L2ResponseError(c),
            ),
            DeviceError::L3CmdFailed => SerialTransportError::Tropic(DeviceError::L3CmdFailed),
            DeviceError::L3ResponseBufferOverflow => SerialTransportError::Tropic(
                DeviceError::L3ResponseBufferOverflow,
            ),
            DeviceError::NoSession => SerialTransportError::Tropic(DeviceError::NoSession),
            DeviceError::ParsingError(c) => SerialTransportError::Tropic(
                DeviceError::ParsingError(c),
            ),
            DeviceError::RequestExceedsSize => SerialTransportError::Tropic(
                DeviceError::RequestExceedsSize,
            ),
            DeviceError::Unauthorized => SerialTransportError::Tropic(DeviceError::Unauthorized),
            DeviceError::UnexpectedResponseStatus => SerialTransportError::Tropic(
                DeviceError::UnexpectedResponseStatus,
            ),
        }
    }
}

impl vstd::std_specs::convert::FromSpecImpl<DeviceError<SerialTransportError, std::convert::Infallible>> for SerialTransportError {
    open spec fn obeys_from_spec() -> bool {
        true
    }

    open spec fn from_spec(v: DeviceError<SerialTransportError, std::convert::Infallible>) -> Self {
        lift_device_error(v)
    }
}

impl From<std::io::Error> for SerialTransportError {
    fn from(err: std::io::Error) -> (r: Self)
        ensures
            r == SerialTransportError::Io(err),
    {
        SerialTransportError::Io(err)
    }
}

impl vstd::std_specs::convert::FromSpecImpl<std::io::Error> for SerialTransportError {
    open spec fn obeys_from_spec() -> bool {
        true
    }

    open spec fn from_spec(v: std::io::Error) -> Self {
        SerialTransportError::Io(v)
    }
}

/// A slice of the wrong length for an array is a buffer-length error.
impl From<std::array::TryFromSliceError> for SerialTransportError {
    fn from(_err: std::array::TryFromSliceError) -> (r: Self)
        ensures
            r == SerialTransportError::InvalidBufferLength,
    {
        SerialTransportError::InvalidBufferLength
    }
}

impl vstd::std_specs::convert::FromSpecImpl<std::array::TryFromSliceError> for SerialTransportError {
    open spec fn obeys_from_spec() -> bool {
        true
    }

    open spec fn from_spec(v: std::array::TryFromSliceError) -> Self {
        SerialTransportError::InvalidBufferLength
    }
}

} // verus!

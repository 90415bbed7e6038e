use std::convert::Infallible;

use tropic01_hal::{DeviceError, SerialTransportError};

#[test]
fn bus_error_is_boxed_and_rewrapped() {
    let e: DeviceError<SerialTransportError, Infallible> = DeviceError::BusError(SerialTransportError::DataTooLong);
    let mapped = SerialTransportError::from(e);
    assert!(matches!(mapped, SerialTransportError::Tropic(DeviceError::BusError(inner)) if matches!(*inner, SerialTransportError::DataTooLong)));
}

#[test]
fn payload_variants_keep_their_payload() {
    let e: DeviceError<SerialTransportError, Infallible> = DeviceError::L2ResponseError(0x79);
    assert!(matches!(SerialTransportError::from(e), SerialTransportError::Tropic(DeviceError::L2ResponseError(0x79))));
    let e: DeviceError<SerialTransportError, Infallible> = DeviceError::InvalidChipStatus(3);
    assert!(matches!(SerialTransportError::from(e), SerialTransportError::Tropic(DeviceError::InvalidChipStatus(3))));
}

#[test]
fn unit_variants_map_one_to_one() {
    let e: DeviceError<SerialTransportError, Infallible> = DeviceError::ChipBusy;
    assert!(matches!(SerialTransportError::from(e), SerialTransportError::Tropic(DeviceError::ChipBusy)));
    let e: DeviceError<SerialTransportError, Infallible> = DeviceError::Unauthorized;
    assert!(matches!(SerialTransportError::from(e), SerialTransportError::Tropic(DeviceError::Unauthorized)));
}

#[test]
fn io_error_converts_to_io() {
    let e = std::io::Error::new(std::io::ErrorKind::NotFound, "no port");
    assert!(matches!(SerialTransportError::from(e), SerialTransportError::Io(_)));
}

#[test]
fn error_messages() {
    assert_eq!(SerialTransportError::InvalidResponse.message(), "Invalid response from device");
    assert_eq!(SerialTransportError::DataTooLong.message(), "Data too long for transport");
    assert_eq!(SerialTransportError::NonUtf8Hex.message(), "Non-UTF8 hex characters in response");
    assert_eq!(SerialTransportError::InvalidHexDigit.message(), "Invalid hex digit in response");
    assert_eq!(SerialTransportError::InvalidBufferLength.message(), "Invalid buffer length");
    let io = SerialTransportError::Io(std::io::Error::new(std::io::ErrorKind::Other, "x"));
    assert_eq!(io.message(), "USB/Serial I/O error");
    let t = SerialTransportError::Tropic(DeviceError::ChipBusy);
    assert_eq!(t.message(), "Tropic device error");
}

#[test]
fn slice_length_error_is_invalid_buffer_length() {
    let bytes = [1u8, 2, 3];
    let err = <[u8; 4]>::try_from(&bytes[..]).unwrap_err();
    assert!(matches!(SerialTransportError::from(err), SerialTransportError::InvalidBufferLength));
}

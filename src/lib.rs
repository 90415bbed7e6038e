//! Host-side driver pieces for a TROPIC01 secure element reached through a
//! USB-to-UART bridge that carries SPI as hex-encoded ASCII frames.
//!
//! - [`frame`]: the bridge's wire format, and the codec for its hex frames.
//! - [`transaction`]: one SPI transaction as a state machine; the owner of the
//!   serial link performs the actions it hands out.
//! - [`error`]: the transport's errors, and how device-protocol errors map into them.
//! - [`header`], [`chip_id`], [`cert`]: records that the chip reports.
//! - [`attestation`]: session transcripts and the checks of a remote attestation.

pub mod attestation;
pub mod cert;
pub mod chip_id;
pub mod error;
pub mod frame;
pub mod header;
pub mod hex;
pub mod text;
pub mod transaction;

pub use chip_id::ChipId;
pub use error::{DeviceError, SerialTransportError, UsbDeviceError};
pub use header::{LtHeaderBootV2, ParseHeaderV2Error};
pub use hex::bytes_to_hex;
pub use transaction::{Action, Event, Operation, Transaction};

//! Decoder and encoder for a fixed-layout, length-discriminated UDP telemetry
//! protocol emitted by a racing simulator.
//!
//! An inbound datagram is classified by its exact byte count and deserialized
//! into a strongly typed event record; the outbound side builds the fixed
//! 12-byte subscription request. Single-precision float fields of the wire
//! format are carried as their raw little-endian IEEE-754 bit patterns
//! (`u32`), so that every byte of the layout has an exact specification; a
//! caller that wants native floats reinterprets the bits.

use vstd::prelude::*;

pub mod event;
pub mod protocol;
pub mod text;
pub mod wire;

verus! {

pub use event::Event;
pub use event::WheelValues;
pub use event::parse_bool_from_bytes;
pub use event::parse_wheel_block;
pub use protocol::Device;
pub use protocol::Handshake;
pub use protocol::Operation;
pub use protocol::ProtocolError;
pub use protocol::encode_request;
pub use text::parse_to_utf16_chars;
pub use text::parse_utf8_chars;

} // verus!

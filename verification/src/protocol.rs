//! The outbound side of the protocol: the enumerated request parameters, the
//! typed decode failure, and the fixed 12-byte control message that negotiates
//! a telemetry subscription.

use crate::wire::le_i32_of;
use vstd::bytes::lemma_auto_spec_u32_to_from_le_bytes;
use vstd::bytes::spec_u32_from_le_bytes;
use vstd::bytes::spec_u32_to_le_bytes;
use vstd::bytes::u32_to_le_bytes;
use vstd::prelude::*;

verus! {

/// The protocol version written into every outbound request.
pub const PROTOCOL_VERSION: u32 = 1;

/// An identifier for the hardware class of the requesting client, carried on
/// the wire as a 32-bit integer discriminant.
#[derive(Debug, Clone, Copy, PartialEq, Eq, Structural)]
pub enum Device {
    IPhone,
    IPad,
    AndroidPhone,
    AndroidTablet,
}

/// The action requested of the telemetry server, carried on the wire as a
/// 32-bit integer discriminant.
#[derive(Debug, Clone, Copy, PartialEq, Eq, Structural)]
pub enum Operation {
    Handshake,
    SubscribeUpdate,
    SubscribeSpot,
    Dismiss,
}

/// Why a received datagram could not be decoded.
#[derive(Debug, Clone, Copy, PartialEq, Eq, Structural)]
pub enum ProtocolError {
    /// The payload length matches no known message shape.
    UnrecognizedLength,
    /// A fixed-width sub-slice has the wrong width for its decoder.
    MalformedField,
    /// A required byte range lies beyond the supplied buffer.
    TruncatedBuffer,
}

/// One subscription request: the tuple serialized to the 12-byte control
/// message by [`encode_request`].
#[derive(Debug, Clone, Copy)]
pub struct Handshake {
    pub identifier: Device,
    pub version: i32,
    pub operation: Operation,
}

/// The wire integer of a device identifier.
pub open spec fn device_code(device: Device) -> u32 {
    match device {
        Device::IPhone => 0,
        Device::IPad => 1,
        Device::AndroidPhone => 2,
        Device::AndroidTablet => 3,
    }
}

/// The wire integer of a requested operation.
pub open spec fn operation_code(operation: Operation) -> u32 {
    match operation {
        Operation::Handshake => 0,
        Operation::SubscribeUpdate => 1,
        Operation::SubscribeSpot => 2,
        Operation::Dismiss => 3,
    }
}

/// The exact 12 bytes of the outbound message: three little-endian 32-bit
/// fields holding the device discriminant, the protocol version, and the
/// operation discriminant.
pub open spec fn request_bytes(device: Device, operation: Operation) -> Seq<u8> {
    spec_u32_to_le_bytes(device_code(device)) + spec_u32_to_le_bytes(PROTOCOL_VERSION)
        + spec_u32_to_le_bytes(operation_code(operation))
}

/// The executable mapping of a device identifier to its wire integer.
pub fn device_wire(device: Device) -> (r: u32)
    ensures
        r == device_code(device),
{
    match device {
        Device::IPhone => 0,
        Device::IPad => 1,
        Device::AndroidPhone => 2,
        Device::AndroidTablet => 3,
    }
}

/// The executable mapping of a requested operation to its wire integer.
pub fn operation_wire(operation: Operation) -> (r: u32)
    ensures
        r == operation_code(operation),
{
    match operation {
        Operation::Handshake => 0,
        Operation::SubscribeUpdate => 1,
        Operation::SubscribeSpot => 2,
        Operation::Dismiss => 3,
    }
}

/// Builds the outbound control message. The inputs are closed enumerations,
/// so encoding cannot fail; the result is always exactly 12 bytes.
pub fn encode_request(device: Device, operation: Operation) -> (r: Vec<u8>)
    ensures
        r@ == request_bytes(device, operation),
        r@.len() == 12,
{
    let mut out = u32_to_le_bytes(device_wire(device));
    let mut version = u32_to_le_bytes(PROTOCOL_VERSION);
    let mut op = u32_to_le_bytes(operation_wire(operation));
    out.append(&mut version);
    out.append(&mut op);
    proof {
        assert(out@ =~= request_bytes(device, operation));
    }
    out
}

/// Round trip of the outbound message: reading the three 4-byte fields of
/// [`request_bytes`] back as little-endian 32-bit signed integers recovers
/// the device discriminant, the protocol version, and the operation
/// discriminant exactly.
pub proof fn lemma_request_round_trip(device: Device, operation: Operation)
    ensures
        request_bytes(device, operation).len() == 12,
        le_i32_of(request_bytes(device, operation).subrange(0, 4)) == device_code(device),
        le_i32_of(request_bytes(device, operation).subrange(4, 8)) == PROTOCOL_VERSION,
        le_i32_of(request_bytes(device, operation).subrange(8, 12)) == operation_code(operation),
{
    lemma_auto_spec_u32_to_from_le_bytes();
    let b = request_bytes(device, operation);
    assert(b.subrange(0, 4) =~= spec_u32_to_le_bytes(device_code(device)));
    assert(b.subrange(4, 8) =~= spec_u32_to_le_bytes(PROTOCOL_VERSION));
    assert(b.subrange(8, 12) =~= spec_u32_to_le_bytes(operation_code(operation)));
    let dc = device_code(device);
    let oc = operation_code(operation);
    assert(dc < 4 && oc < 4);
    assert(dc < 4 ==> dc as i32 == dc) by (bit_vector);
    assert(oc < 4 ==> oc as i32 == oc) by (bit_vector);
    assert(1u32 as i32 == 1) by (bit_vector);
}

} // verus!

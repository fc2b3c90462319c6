//! The inbound side of the protocol: classification of a received datagram by
//! its exact byte count, and extraction of every field of the matched shape
//! at its fixed offset.

use crate::protocol::ProtocolError;
use crate::text::narrow_text_of;
use crate::text::parse_to_utf16_chars;
use crate::text::parse_utf8_chars;
use crate::text::wide_text_of;
use crate::wire::le_i32_of;
use crate::wire::read_bool;
use crate::wire::read_i32;
use crate::wire::read_u32;
use vstd::bytes::spec_u32_from_le_bytes;
use vstd::prelude::*;
use vstd::slice::slice_subrange;

verus! {

/// One 16-byte block of four little-endian 32-bit float fields, carried as
/// raw IEEE-754 bit patterns, in wheel order.
#[derive(Debug, Clone, Copy, PartialEq, Eq, Structural)]
pub struct WheelValues {
    pub front_left: u32,
    pub front_right: u32,
    pub rear_left: u32,
    pub rear_right: u32,
}

/// The four fields of a 16-byte float block, each read as a little-endian
/// 32-bit value, in fixed order.
pub open spec fn wheel_values_of(b: Seq<u8>) -> WheelValues
    recommends
        b.len() == 16,
{
    WheelValues {
        front_left: spec_u32_from_le_bytes(b.subrange(0, 4)),
        front_right: spec_u32_from_le_bytes(b.subrange(4, 8)),
        rear_left: spec_u32_from_le_bytes(b.subrange(8, 12)),
        rear_right: spec_u32_from_le_bytes(b.subrange(12, 16)),
    }
}

/// A successfully decoded inbound datagram. Fields that are 32-bit floats on
/// the wire are carried as their raw little-endian IEEE-754 bit patterns
/// (`u32`).
#[derive(Debug, PartialEq)]
pub enum Event {
    /// Server identity and capability info, from a 408-byte datagram.
    HandshakeResponse {
        /// Narrow text, sentinel-stripped.
        car_name: String,
        /// Narrow text, sentinel-stripped.
        driver_name: String,
        identifier: i32,
        version: i32,
        /// Wide (16-bit little-endian) text, sentinel-stripped.
        track_name: String,
        /// Wide (16-bit little-endian) text, sentinel-stripped.
        track_config: String,
    },
    /// One telemetry sample, from a 328-byte datagram.
    CarInfo {
        /// The four-byte subtype tag, decoded as narrow text.
        identifier: String,
        size: i32,
        speed_kmh: u32,
        speed_mph: u32,
        speed_ms: u32,
        is_abs_enabled: bool,
        is_abs_in_action: bool,
        is_tc_in_action: bool,
        is_tc_enabled: bool,
        is_in_pit: bool,
        is_engine_limiter_on: bool,
        accg_vertical: u32,
        accg_horizontal: u32,
        accg_frontal: u32,
        /// Milliseconds.
        lap_time: u32,
        /// Milliseconds.
        last_lap: u32,
        /// Milliseconds.
        best_lap: u32,
        lap_count: u32,
        gas: u32,
        brake: u32,
        clutch: u32,
        engine_rpm: u32,
        steer: u32,
        /// 0 is reverse, 1 neutral, 2 first gear, and so on.
        gear: i32,
        cg_height: u32,
        wheel_angular_speed: WheelValues,
        slip_angle: WheelValues,
        slip_angle_contact_patch: WheelValues,
        slip_ratio: WheelValues,
        tyre_slip: WheelValues,
        nd_slip: WheelValues,
        load: WheelValues,
        dy: WheelValues,
        mz: WheelValues,
        tyre_dirty_level: WheelValues,
        camber_rad: WheelValues,
        tyre_radius: WheelValues,
        tyre_loaded_radius: WheelValues,
        suspension_height: WheelValues,
        car_pos_normalized: u32,
        car_slope: u32,
        car_coordinates: WheelValues,
    },
    /// A completed-lap summary, from a 212-byte datagram: recognized by its
    /// length but not parsed further, so no field values are fabricated.
    LapInfo,
}

/// Holds for the payload lengths that select a known message shape.
pub open spec fn known_length(size: usize) -> bool {
    size == 408 || size == 328 || size == 212
}

/// How many leading bytes of the buffer the decoder of the shape selected by
/// `size` reads. The 328-byte telemetry shape reads four bytes past its own
/// length, through offset 332.
pub open spec fn required_span(size: usize) -> int
    recommends
        known_length(size),
{
    if size == 408 {
        408
    } else if size == 328 {
        332
    } else {
        0
    }
}

/// `ev` holds exactly the fields of the handshake-response layout read from
/// the first 408 bytes of `b`.
pub open spec fn is_handshake_response_of(ev: Event, b: Seq<u8>) -> bool {
    &&& ev matches Event::HandshakeResponse {
        car_name,
        driver_name,
        identifier,
        version,
        track_name,
        track_config,
    }
    &&& car_name@ == narrow_text_of(b.subrange(0, 100))
    &&& driver_name@ == narrow_text_of(b.subrange(100, 200))
    &&& identifier == le_i32_of(b.subrange(200, 204))
    &&& version == le_i32_of(b.subrange(204, 208))
    &&& track_name@ == wide_text_of(b.subrange(208, 308))
    &&& track_config@ == wide_text_of(b.subrange(308, 408))
}

/// `ev` holds exactly the fields of the telemetry-sample layout read from the
/// first 332 bytes of `b`. Bytes 24 and 25 are reserved and skipped.
pub open spec fn is_car_info_of(ev: Event, b: Seq<u8>) -> bool {
    &&& ev matches Event::CarInfo {
        identifier: tag,
        size: payload_size,
        speed_kmh,
        speed_mph,
        speed_ms,
        is_abs_enabled,
        is_abs_in_action,
        is_tc_in_action,
        is_tc_enabled,
        is_in_pit,
        is_engine_limiter_on,
        accg_vertical,
        accg_horizontal,
        accg_frontal,
        lap_time,
        last_lap,
        best_lap,
        lap_count,
        gas,
        brake,
        clutch,
        engine_rpm,
        steer,
        gear,
        cg_height,
        wheel_angular_speed,
        slip_angle,
        slip_angle_contact_patch,
        slip_ratio,
        tyre_slip,
        nd_slip,
        load,
        dy,
        mz,
        tyre_dirty_level,
        camber_rad,
        tyre_radius,
        tyre_loaded_radius,
        suspension_height,
        car_pos_normalized,
        car_slope,
        car_coordinates,
    }
    &&& tag@ == narrow_text_of(b.subrange(0, 4))
    &&& payload_size == le_i32_of(b.subrange(4, 8))
    &&& speed_kmh == spec_u32_from_le_bytes(b.subrange(8, 12))
    &&& speed_mph == spec_u32_from_le_bytes(b.subrange(12, 16))
    &&& speed_ms == spec_u32_from_le_bytes(b.subrange(16, 20))
    &&& is_abs_enabled == (b[20] != 0)
    &&& is_abs_in_action == (b[21] != 0)
    &&& is_tc_in_action == (b[22] != 0)
    &&& is_tc_enabled == (b[23] != 0)
    &&& is_in_pit == (b[26] != 0)
    &&& is_engine_limiter_on == (b[27] != 0)
    &&& accg_vertical == spec_u32_from_le_bytes(b.subrange(28, 32))
    &&& accg_horizontal == spec_u32_from_le_bytes(b.subrange(32, 36))
    &&& accg_frontal == spec_u32_from_le_bytes(b.subrange(36, 40))
    &&& lap_time == spec_u32_from_le_bytes(b.subrange(40, 44))
    &&& last_lap == spec_u32_from_le_bytes(b.subrange(44, 48))
    &&& best_lap == spec_u32_from_le_bytes(b.subrange(48, 52))
    &&& lap_count == spec_u32_from_le_bytes(b.subrange(52, 56))
    &&& gas == spec_u32_from_le_bytes(b.subrange(56, 60))
    &&& brake == spec_u32_from_le_bytes(b.subrange(60, 64))
    &&& clutch == spec_u32_from_le_bytes(b.subrange(64, 68))
    &&& engine_rpm == spec_u32_from_le_bytes(b.subrange(68, 72))
    &&& steer == spec_u32_from_le_bytes(b.subrange(72, 76))
    &&& gear == le_i32_of(b.subrange(76, 80))
    &&& cg_height == spec_u32_from_le_bytes(b.subrange(80, 84))
    &&& wheel_angular_speed == wheel_values_of(b.subrange(84, 100))
    &&& slip_angle == wheel_values_of(b.subrange(100, 116))
    &&& slip_angle_contact_patch == wheel_values_of(b.subrange(116, 132))
    &&& slip_ratio == wheel_values_of(b.subrange(132, 148))
    &&& tyre_slip == wheel_values_of(b.subrange(148, 164))
    &&& nd_slip == wheel_values_of(b.subrange(164, 180))
    &&& load == wheel_values_of(b.subrange(180, 196))
    &&& dy == wheel_values_of(b.subrange(196, 212))
    &&& mz == wheel_values_of(b.subrange(212, 228))
    &&& tyre_dirty_level == wheel_values_of(b.subrange(228, 244))
    &&& camber_rad == wheel_values_of(b.subrange(244, 260))
    &&& tyre_radius == wheel_values_of(b.subrange(260, 276))
    &&& tyre_loaded_radius == wheel_values_of(b.subrange(276, 292))
    &&& suspension_height == wheel_values_of(b.subrange(292, 308))
    &&& car_pos_normalized == spec_u32_from_le_bytes(b.subrange(308, 312))
    &&& car_slope == spec_u32_from_le_bytes(b.subrange(312, 316))
    &&& car_coordinates == wheel_values_of(b.subrange(316, 332))
}

/// Extracts a boolean from a byte slice that must be exactly one byte wide:
/// false for the zero byte, true for every other byte value.
pub fn parse_bool_from_bytes(buf: &[u8]) -> (r: Result<bool, ProtocolError>)
    ensures
        buf@.len() == 1 ==> r == Ok::<bool, ProtocolError>(buf@[0] != 0),
        buf@.len() != 1 ==> r == Err::<bool, ProtocolError>(ProtocolError::MalformedField),
{
    if buf.len() == 1 {
        Ok(read_bool(buf))
    } else {
        Err(ProtocolError::MalformedField)
    }
}

/// Decodes a 16-byte block of four little-endian float fields; the slice
/// must be exactly 16 bytes wide.
pub fn parse_wheel_block(buf: &[u8]) -> (r: Result<WheelValues, ProtocolError>)
    ensures
        buf@.len() == 16 ==> r == Ok::<WheelValues, ProtocolError>(wheel_values_of(buf@)),
        buf@.len() != 16 ==> r == Err::<WheelValues, ProtocolError>(ProtocolError::MalformedField),
{
    if buf.len() == 16 {
        Ok(read_wheels(buf))
    } else {
        Err(ProtocolError::MalformedField)
    }
}

/// Reads a 16-byte four-field float block.
fn read_wheels(buf: &[u8]) -> (r: WheelValues)
    requires
        buf@.len() == 16,
    ensures
        r == wheel_values_of(buf@),
{
    WheelValues {
        front_left: read_u32(slice_subrange(buf, 0, 4)),
        front_right: read_u32(slice_subrange(buf, 4, 8)),
        rear_left: read_u32(slice_subrange(buf, 8, 12)),
        rear_right: read_u32(slice_subrange(buf, 12, 16)),
    }
}

impl Event {
    /// Classifies the received bytes by `size`, the byte count of the
    /// datagram, and deserializes every field of the matched shape.
    ///
    /// Exactly the lengths 408, 328 and 212 are recognized; any other fails
    /// with `UnrecognizedLength`. A recognized shape whose required span
    /// exceeds the supplied buffer fails with `TruncatedBuffer`.
    pub fn from_bytes(size: usize, buf: &[u8]) -> (r: Result<Event, ProtocolError>)
        ensures
            r is Ok <==> known_length(size) && buf@.len() >= required_span(size),
            (r == Err::<Event, ProtocolError>(ProtocolError::UnrecognizedLength)) <==> !known_length(
                size,
            ),
            known_length(size) && buf@.len() < required_span(size) ==> r == Err::<
                Event,
                ProtocolError,
            >(ProtocolError::TruncatedBuffer),
            size == 408 && buf@.len() >= 408 ==> (r matches Ok(ev)
                && is_handshake_response_of(ev, buf@)),
            size == 328 && buf@.len() >= 332 ==> (r matches Ok(ev) && is_car_info_of(ev, buf@)),
            size == 212 ==> r == Ok::<Event, ProtocolError>(Event::LapInfo),
    {
        if size == 408 {
            if buf.len() < 408 {
                return Err(ProtocolError::TruncatedBuffer);
            }
            Ok(Event::HandshakeResponse {
                car_name: parse_utf8_chars(slice_subrange(buf, 0, 100)),
                driver_name: parse_utf8_chars(slice_subrange(buf, 100, 200)),
                identifier: read_i32(slice_subrange(buf, 200, 204)),
                version: read_i32(slice_subrange(buf, 204, 208)),
                track_name: parse_to_utf16_chars(slice_subrange(buf, 208, 308)),
                track_config: parse_to_utf16_chars(slice_subrange(buf, 308, 408)),
            })
        } else if size == 328 {
            if buf.len() < 332 {
                return Err(ProtocolError::TruncatedBuffer);
            }
            Ok(Event::CarInfo {
                identifier: parse_utf8_chars(slice_subrange(buf, 0, 4)),
                size: read_i32(slice_subrange(buf, 4, 8)),
                speed_kmh: read_u32(slice_subrange(buf, 8, 12)),
                speed_mph: read_u32(slice_subrange(buf, 12, 16)),
                speed_ms: read_u32(slice_subrange(buf, 16, 20)),
                is_abs_enabled: read_bool(slice_subrange(buf, 20, 21)),
                is_abs_in_action: read_bool(slice_subrange(buf, 21, 22)),
                is_tc_in_action: read_bool(slice_subrange(buf, 22, 23)),
                is_tc_enabled: read_bool(slice_subrange(buf, 23, 24)),
                is_in_pit: read_bool(slice_subrange(buf, 26, 27)),
                is_engine_limiter_on: read_bool(slice_subrange(buf, 27, 28)),
                accg_vertical: read_u32(slice_subrange(buf, 28, 32)),
                accg_horizontal: read_u32(slice_subrange(buf, 32, 36)),
                accg_frontal: read_u32(slice_subrange(buf, 36, 40)),
                lap_time: read_u32(slice_subrange(buf, 40, 44)),
                last_lap: read_u32(slice_subrange(buf, 44, 48)),
                best_lap: read_u32(slice_subrange(buf, 48, 52)),
                lap_count: read_u32(slice_subrange(buf, 52, 56)),
                gas: read_u32(slice_subrange(buf, 56, 60)),
                brake: read_u32(slice_subrange(buf, 60, 64)),
                clutch: read_u32(slice_subrange(buf, 64, 68)),
                engine_rpm: read_u32(slice_subrange(buf, 68, 72)),
                steer: read_u32(slice_subrange(buf, 72, 76)),
                gear: read_i32(slice_subrange(buf, 76, 80)),
                cg_height: read_u32(slice_subrange(buf, 80, 84)),
                wheel_angular_speed: read_wheels(slice_subrange(buf, 84, 100)),
                slip_angle: read_wheels(slice_subrange(buf, 100, 116)),
                slip_angle_contact_patch: read_wheels(slice_subrange(buf, 116, 132)),
                slip_ratio: read_wheels(slice_subrange(buf, 132, 148)),
                tyre_slip: read_wheels(slice_subrange(buf, 148, 164)),
                nd_slip: read_wheels(slice_subrange(buf, 164, 180)),
                load: read_wheels(slice_subrange(buf, 180, 196)),
                dy: read_wheels(slice_subrange(buf, 196, 212)),
                mz: read_wheels(slice_subrange(buf, 212, 228)),
                tyre_dirty_level: read_wheels(slice_subrange(buf, 228, 244)),
                camber_rad: read_wheels(slice_subrange(buf, 244, 260)),
                tyre_radius: read_wheels(slice_subrange(buf, 260, 276)),
                tyre_loaded_radius: read_wheels(slice_subrange(buf, 276, 292)),
                suspension_height: read_wheels(slice_subrange(buf, 292, 308)),
                car_pos_normalized: read_u32(slice_subrange(buf, 308, 312)),
                car_slope: read_u32(slice_subrange(buf, 312, 316)),
                car_coordinates: read_wheels(slice_subrange(buf, 316, 332)),
            })
        } else if size == 212 {
            Ok(Event::LapInfo)
        } else {
            Err(ProtocolError::UnrecognizedLength)
        }
    }
}

} // verus!

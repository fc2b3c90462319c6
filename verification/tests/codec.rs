use ac_telemetry::Device;
use ac_telemetry::Event;
use ac_telemetry::Operation;
use ac_telemetry::ProtocolError;
use ac_telemetry::encode_request;
use ac_telemetry::parse_bool_from_bytes;
use ac_telemetry::parse_to_utf16_chars;
use ac_telemetry::parse_utf8_chars;
use ac_telemetry::parse_wheel_block;
use ac_telemetry::protocol::device_wire;
use ac_telemetry::protocol::operation_wire;

#[test]
fn valid_lengths_are_recognized() {
    let buf = vec![0u8; 1024];
    for size in [408usize, 328, 212] {
        let r = Event::from_bytes(size, &buf);
        assert!(!matches!(r, Err(ProtocolError::UnrecognizedLength)));
        assert!(r.is_ok());
    }
}

#[test]
fn other_lengths_are_unrecognized() {
    let buf = vec![0u8; 1024];
    for size in [0usize, 1, 12, 100, 211, 213, 327, 329, 407, 409, 500, 1024] {
        assert_eq!(
            Event::from_bytes(size, &buf),
            Err(ProtocolError::UnrecognizedLength)
        );
    }
}

#[test]
fn wire_discriminants() {
    assert_eq!(device_wire(Device::IPhone), 0);
    assert_eq!(device_wire(Device::IPad), 1);
    assert_eq!(device_wire(Device::AndroidPhone), 2);
    assert_eq!(device_wire(Device::AndroidTablet), 3);
    assert_eq!(operation_wire(Operation::Handshake), 0);
    assert_eq!(operation_wire(Operation::SubscribeUpdate), 1);
    assert_eq!(operation_wire(Operation::SubscribeSpot), 2);
    assert_eq!(operation_wire(Operation::Dismiss), 3);
}

#[test]
fn encode_request_exact_bytes() {
    assert_eq!(
        encode_request(Device::IPhone, Operation::Handshake),
        vec![0, 0, 0, 0, 1, 0, 0, 0, 0, 0, 0, 0]
    );
    assert_eq!(
        encode_request(Device::AndroidTablet, Operation::Dismiss),
        vec![3, 0, 0, 0, 1, 0, 0, 0, 3, 0, 0, 0]
    );
}

#[test]
fn encode_request_round_trip() {
    let devices = [
        (Device::IPhone, 0i32),
        (Device::IPad, 1),
        (Device::AndroidPhone, 2),
        (Device::AndroidTablet, 3),
    ];
    let operations = [
        (Operation::Handshake, 0i32),
        (Operation::SubscribeUpdate, 1),
        (Operation::SubscribeSpot, 2),
        (Operation::Dismiss, 3),
    ];
    for (device, dc) in devices {
        for (operation, oc) in operations {
            let msg = encode_request(device, operation);
            assert_eq!(msg.len(), 12);
            let f0 = i32::from_le_bytes(msg[0..4].try_into().unwrap());
            let f1 = i32::from_le_bytes(msg[4..8].try_into().unwrap());
            let f2 = i32::from_le_bytes(msg[8..12].try_into().unwrap());
            assert_eq!((f0, f1, f2), (dc, 1, oc));
        }
    }
}

#[test]
fn narrow_text_strips_sentinels() {
    assert_eq!(parse_utf8_chars(b"AB\0C%D"), "ABCD");
}

#[test]
fn narrow_text_replaces_invalid_bytes() {
    assert_eq!(parse_utf8_chars(&[0xFF, b'A']), "\u{FFFD}A");
}

#[test]
fn wide_text_decodes_pairs() {
    assert_eq!(parse_to_utf16_chars(&[0x41, 0x00, 0x42, 0x00]), "AB");
}

#[test]
fn wide_text_strips_sentinels() {
    let bytes = [0x41, 0x00, 0x25, 0x00, 0x00, 0x00, 0x42, 0x00];
    assert_eq!(parse_to_utf16_chars(&bytes), "AB");
}

#[test]
fn wide_text_non_ascii_unit() {
    assert_eq!(parse_to_utf16_chars(&[0x42, 0x30]), "\u{3042}");
}

#[test]
fn boolean_from_byte_zero_is_false() {
    assert_eq!(parse_bool_from_bytes(&[0x00]), Ok(false));
}

#[test]
fn boolean_from_byte_nonzero_is_true() {
    assert_eq!(parse_bool_from_bytes(&[0x01]), Ok(true));
    assert_eq!(parse_bool_from_bytes(&[0xFF]), Ok(true));
}

#[test]
fn boolean_from_two_bytes_is_malformed() {
    assert_eq!(
        parse_bool_from_bytes(&[0x00, 0x00]),
        Err(ProtocolError::MalformedField)
    );
}

#[test]
fn wheel_block_reads_four_fields() {
    let mut block = [0u8; 16];
    block[0..4].copy_from_slice(&1.5f32.to_le_bytes());
    block[4..8].copy_from_slice(&(-2.0f32).to_le_bytes());
    block[8..12].copy_from_slice(&0.25f32.to_le_bytes());
    block[12..16].copy_from_slice(&4.0f32.to_le_bytes());
    let wheels = parse_wheel_block(&block).unwrap();
    assert_eq!(f32::from_bits(wheels.front_left), 1.5);
    assert_eq!(f32::from_bits(wheels.front_right), -2.0);
    assert_eq!(f32::from_bits(wheels.rear_left), 0.25);
    assert_eq!(f32::from_bits(wheels.rear_right), 4.0);
}

#[test]
fn wheel_block_wrong_width_is_malformed() {
    assert_eq!(
        parse_wheel_block(&[0u8; 15]),
        Err(ProtocolError::MalformedField)
    );
    assert_eq!(
        parse_wheel_block(&[0u8; 17]),
        Err(ProtocolError::MalformedField)
    );
}

#[test]
fn handshake_response_scenario() {
    let mut buf = vec![0u8; 408];
    buf[0..13].copy_from_slice(b"RSS Formula 2");
    buf[100..104].copy_from_slice(b"Ayrt");
    buf[200..204].copy_from_slice(&1i32.to_le_bytes());
    buf[204..208].copy_from_slice(&(-7i32).to_le_bytes());
    buf[208] = b'S';
    buf[210] = b'p';
    buf[212] = b'a';
    match Event::from_bytes(408, &buf) {
        Ok(Event::HandshakeResponse {
            car_name,
            driver_name,
            identifier,
            version,
            track_name,
            track_config,
        }) => {
            assert_eq!(car_name, "RSS Formula 2");
            assert_eq!(driver_name, "Ayrt");
            assert_eq!(identifier, 1);
            assert_eq!(version, -7);
            assert_eq!(track_name, "Spa");
            assert_eq!(track_config, "");
        }
        other => panic!("unexpected decode result: {:?}", other),
    }
}

#[test]
fn car_info_speed_scenario() {
    let mut buf = vec![0u8; 1024];
    buf[8..12].copy_from_slice(&[0x00, 0x00, 0x80, 0x3F]);
    match Event::from_bytes(328, &buf) {
        Ok(Event::CarInfo { speed_kmh, .. }) => {
            assert_eq!(f32::from_bits(speed_kmh), 1.0);
        }
        other => panic!("unexpected decode result: {:?}", other),
    }
}

#[test]
fn car_info_field_extraction() {
    let mut buf = vec![0u8; 332];
    buf[0..4].copy_from_slice(b"INFO");
    buf[4..8].copy_from_slice(&328i32.to_le_bytes());
    buf[20] = 1;
    buf[23] = 2;
    // reserved bytes, skipped by the decoder
    buf[24] = 9;
    buf[25] = 9;
    buf[26] = 0xFF;
    buf[40..44].copy_from_slice(&123456u32.to_le_bytes());
    buf[52..56].copy_from_slice(&7u32.to_le_bytes());
    buf[76..80].copy_from_slice(&(-1i32).to_le_bytes());
    buf[84..88].copy_from_slice(&2.5f32.to_le_bytes());
    buf[96..100].copy_from_slice(&4.0f32.to_le_bytes());
    buf[292..296].copy_from_slice(&0.5f32.to_le_bytes());
    buf[316..320].copy_from_slice(&8.0f32.to_le_bytes());
    match Event::from_bytes(328, &buf) {
        Ok(Event::CarInfo {
            identifier,
            size,
            is_abs_enabled,
            is_abs_in_action,
            is_tc_in_action,
            is_tc_enabled,
            is_in_pit,
            is_engine_limiter_on,
            lap_time,
            lap_count,
            gear,
            wheel_angular_speed,
            suspension_height,
            car_coordinates,
            ..
        }) => {
            assert_eq!(identifier, "INFO");
            assert_eq!(size, 328);
            assert!(is_abs_enabled);
            assert!(!is_abs_in_action);
            assert!(!is_tc_in_action);
            assert!(is_tc_enabled);
            assert!(is_in_pit);
            assert!(!is_engine_limiter_on);
            assert_eq!(lap_time, 123456);
            assert_eq!(lap_count, 7);
            assert_eq!(gear, -1);
            assert_eq!(f32::from_bits(wheel_angular_speed.front_left), 2.5);
            assert_eq!(f32::from_bits(wheel_angular_speed.rear_right), 4.0);
            assert_eq!(f32::from_bits(suspension_height.front_left), 0.5);
            assert_eq!(f32::from_bits(car_coordinates.front_left), 8.0);
        }
        other => panic!("unexpected decode result: {:?}", other),
    }
}

#[test]
fn truncated_buffer_fails() {
    assert_eq!(
        Event::from_bytes(328, &vec![0u8; 328]),
        Err(ProtocolError::TruncatedBuffer)
    );
    assert_eq!(
        Event::from_bytes(328, &vec![0u8; 331]),
        Err(ProtocolError::TruncatedBuffer)
    );
    assert!(Event::from_bytes(328, &vec![0u8; 332]).is_ok());
    assert_eq!(
        Event::from_bytes(408, &vec![0u8; 400]),
        Err(ProtocolError::TruncatedBuffer)
    );
}

#[test]
fn lap_info_recognized_but_unparsed() {
    let buf = vec![0xABu8; 212];
    assert_eq!(Event::from_bytes(212, &buf), Ok(Event::LapInfo));
}

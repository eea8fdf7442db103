use cherryrgb::packet::{frame, pad_report, DecodeError};
use cherryrgb::{
    calc_checksum, parse_response, Brightness, CherryRgbError, LightingMode, OwnRGB8, Packet,
    Payload, PayloadReadWrite, PayloadType, Speed, ToVec,
};
use binrw::BinReaderExt;
use rgb::{ComponentSlice, RGB8};
use std::io::Cursor;

/// Some captured packets
fn packets() -> Vec<&'static str> {
    //                             brightness
    //     checksum                mode|speed      color
    //        |                     |  |  |         |
    //       vvv                    v  v  v         v
    vec![
        "04 69 01 06 09 00 00 55 00 00 03 02 00 01 FF", //       00 - wave - regular
        "04 6B 01 06 09 00 00 55 00 00 03 04 00 01 FF", //       01 - wave - slow
        "04 67 01 06 09 00 00 55 00 00 03 00 00 01 FF", //       02 - wave - fast
        "04 68 01 06 09 00 00 55 00 00 03 01 00 01 FF", //       03 - wave - another speed
        "04 69 01 06 09 00 00 55 00 01 03 01 00 01 FF", //       04 - spectrum - fast
        "04 68 01 06 09 00 00 55 00 01 03 00 00 01 FF", //       05 - spectrum - fastest
        "04 6C 01 06 09 00 00 55 00 01 03 04 00 01 FF", //       06 - spectrum - slow
        "04 6B 01 06 09 00 00 55 00 01 03 03 00 01 FF", //       07 - breathing
        "04 6C 01 06 09 00 00 55 00 02 03 03 00 01 FF", //       08 - breathing - slow
        "04 74 01 06 09 00 00 55 00 0A 03 03 00 01 FF", //       09 - Rolling
        "04 76 01 06 09 00 00 55 00 0C 03 03 00 01 FF", //       10 - Curve
        "04 79 01 06 09 00 00 55 00 0F 03 03 00 01 FF", //       11 - Scan
        "04 7C 01 06 09 00 00 55 00 12 03 03 00 01 FF", //       12 - Radiation
        "04 EE 01 06 09 00 00 55 00 12 03 03 00 00 7E 00 F4", // 13 - Radiation
        "04 EF 01 06 09 00 00 55 00 13 03 03 00 00 7E 00 F4", // 14 - Ripples - slow
        "04 EC 01 06 09 00 00 55 00 13 03 00 00 00 7E 00 F4", // 15 - Rippples - fast
        "04 EE 01 06 09 00 00 55 00 15 03 00 00 00 7E 00 F4", // 16 - Single Key
        "04 DC 01 06 09 00 00 55 00 03 03 00 00 00 7E 00 F4", // 17 - Static - Purple
        "04 4D 01 06 09 00 00 55 00 03 03 00 00 00 E0 03 00", // 18 - Static - Red
        "04 52 01 06 09 00 00 55 00 08 03 00 00 00 E0 03 00", // 19 - Custom
        // start / end transaction packets
        "04 01 00 01",
        "04 02 00 02",
        // fetch device info packets
        "04 25 00 03 22 00 00",
        "04 3f 00 07 38 00 00",
        "04 77 00 07 38 38 00",
        "04 af 00 07 38 70 00",
        "04 e7 00 07 38 a8 00",
        "04 1f 01 07 38 e0 00",
        "04 58 00 07 38 18 01",
        "04 82 00 07 2a 50 01",
        "04 53 00 1b 38 00 00",
        "04 8b 00 1b 38 38 00",
        "04 99 00 1b 0e 70 00",
        // Unknown
        "04 43 00 0b 38 00 00",
        "04 7b 00 0b 38 38 00",
        "04 b3 00 0b 38 70 00",
        "04 eb 00 0b 38 a8 00",
        "04 23 01 0b 38 e0 00",
        "04 5c 00 0b 38 18 01",
        "04 86 00 0b 2a 50 01",
    ]
}

fn animation(mode: LightingMode, brightness: Brightness, speed: Speed, rainbow: u8) -> Payload {
    Payload::SetAnimation {
        unknown: [0x09, 0x00, 0x00, 0x55, 0x00],
        mode,
        brightness,
        speed,
        pad: 0x0,
        rainbow,
        color: OwnRGB8::new(244, 255, 100),
    }
}

#[test]
fn test_checksum() {
    for (index, &pkt_str) in packets().iter().enumerate() {
        let pkt = hex::decode(pkt_str.replace(' ', "")).expect("Failed to convert pkt hexstream");

        let mut cursor = Cursor::new(&pkt[1..]);
        let expected_checksum: u16 = cursor.read_ne().expect("Failed to read checksum");
        let payload_type: u8 = cursor.read_ne().expect("Failed to read command");
        let calcd_checksum = calc_checksum(payload_type, &pkt[4..]);

        assert_eq!(
            expected_checksum, calcd_checksum,
            "Failed checksum for pkt {} data={:?}",
            index, pkt_str
        );
    }
}

#[test]
fn serialize_rgb8() {
    assert_eq!(RGB8 { r: 232, g: 211, b: 75 }.as_slice(), &[232, 211, 75]);
    assert_eq!(RGB8 { r: 232, g: 0, b: 75 }.as_slice(), &[232, 0, 75]);
    assert_eq!(RGB8 { r: 0, g: 0, b: 75 }.as_slice(), &[0, 0, 75]);
}

#[test]
fn serialize_led_animation_payload() {
    let buf: Vec<u8> = Payload::SetAnimation {
        unknown: [0x09, 0x00, 0x00, 0x55, 0x00],
        mode: LightingMode::Vortex,
        brightness: Brightness::Full,
        speed: Speed::VerySlow,
        pad: 0x0,
        rainbow: 0,
        color: OwnRGB8::new(244, 255, 100),
    }
    .to_vec();
    assert_eq!(
        vec![0x09, 0x00, 0x00, 0x55, 0x00, 0x05, 0x04, 0x04, 0x00, 0x00, 0xF4, 0xFF, 0x64],
        buf
    );
    let buf: Vec<u8> = Payload::SetAnimation {
        unknown: [0x09, 0x00, 0x00, 0x55, 0x00],
        mode: LightingMode::Vortex,
        brightness: Brightness::Full,
        speed: Speed::VerySlow,
        pad: 0x0,
        rainbow: 1,
        color: OwnRGB8::new(244, 255, 100),
    }
    .to_vec();
    assert_eq!(
        vec![0x09, 0x00, 0x00, 0x55, 0x00, 0x05, 0x04, 0x04, 0x00, 0x01, 0xF4, 0xFF, 0x64],
        buf
    );
    let buf: Vec<u8> = Payload::SetAnimation {
        unknown: [0x09, 0x00, 0x00, 0x55, 0x00],
        mode: LightingMode::Rolling,
        brightness: Brightness::Full,
        speed: Speed::VerySlow,
        pad: 0x0,
        rainbow: 0,
        color: OwnRGB8::new(244, 255, 100),
    }
    .to_vec();
    assert_eq!(
        vec![0x09, 0x00, 0x00, 0x55, 0x00, 0x0A, 0x04, 0x04, 0x00, 0x00, 0xF4, 0xFF, 0x64],
        buf
    );
    let buf: Vec<u8> = Payload::SetAnimation {
        unknown: [0x09, 0x00, 0x00, 0x55, 0x00],
        mode: LightingMode::Vortex,
        brightness: Brightness::Full,
        speed: Speed::Medium,
        pad: 0x0,
        rainbow: 0,
        color: OwnRGB8::new(244, 255, 100),
    }
    .to_vec();
    assert_eq!(
        vec![0x09, 0x00, 0x00, 0x55, 0x00, 0x05, 0x04, 0x02, 0x00, 0x00, 0xF4, 0xFF, 0x64],
        buf
    );
    let buf: Vec<u8> = Payload::SetAnimation {
        unknown: [0x09, 0x00, 0x00, 0x55, 0x00],
        mode: LightingMode::Vortex,
        brightness: Brightness::Low,
        speed: Speed::Medium,
        pad: 0x0,
        rainbow: 0,
        color: OwnRGB8::new(244, 255, 100),
    }
    .to_vec();
    assert_eq!(
        vec![0x09, 0x00, 0x00, 0x55, 0x00, 0x05, 0x01, 0x02, 0x00, 0x00, 0xF4, 0xFF, 0x64],
        buf
    );
}

#[test]
fn prep_packet() {
    let packet = Packet::new(Payload::TransactionStart).to_vec();
    assert_eq!(packet[..4], vec![0x04, 0x01, 0x00, 0x01]);

    let packet = Packet::new(Payload::SetAnimation {
        unknown: [0x01, 0x18, 0x00, 0x55, 0x01],
        // Everything after unknown is nulled
        mode: LightingMode::Wave,
        brightness: Brightness::Off,
        speed: Speed::VeryFast,
        pad: 0x0,
        rainbow: 0x0,
        color: OwnRGB8::new(0, 0, 0x42),
    })
    .to_vec();

    assert_eq!(
        packet[..17],
        vec![
            0x04, 0xB7, 0x00, 0x06, 0x01, 0x18, 0x00, 0x55, 0x01, 0x00, 0x00, 0x00, 0x00, 0x00,
            0x00, 0x00, 0x42
        ]
    );
}

#[test]
fn unhandled_packet() {
    let packet = b"\x04\xEE\x01\x42\x09\x00\x00\x55\x00\x12\x03\x03\x00\x00\x7E\x00\xF4";
    let deserialized: Packet<Payload> =
        Packet::from_bytes(&packet[..]).expect("Failed reading unhandled packet");

    assert_eq!(deserialized.checksum(), 0x1EE);
    // Unknown payload types get mapped to 0xFF
    assert_eq!(deserialized.payload().payload_type(), 0xFF);
    match deserialized.payload() {
        Payload::Unhandled { data } => {
            assert_eq!(
                data[..],
                b"\x09\x00\x00\x55\x00\x12\x03\x03\x00\x00\x7E\x00\xF4"[..]
            );
        }
        _ => {
            assert_eq!(1, 2)
        }
    }
}

#[test]
fn checksum_of_read_request_covers_four_bytes() {
    let body = [0x38, 0x00, 0x00, 0x00, 0xAA, 0xBB, 0xCC];
    assert_eq!(calc_checksum(0x07, &body), 0x38 + 0x07);
    assert_eq!(calc_checksum(0x1B, &body), 0x38 + 0x1B);
    assert_eq!(calc_checksum(0x0B, &body), 0x38 + 0xAA + 0xBB + 0xCC + 0x0B);
}

#[test]
fn checksum_of_short_read_request() {
    assert_eq!(calc_checksum(0x07, &[]), 0x07);
    assert_eq!(calc_checksum(0x07, &[1, 2]), 0x0A);
    assert_eq!(calc_checksum(0x1B, &[1, 2, 3]), 0x06 + 0x1B);
}

#[test]
fn checksum_wraps_at_sixteen_bits() {
    let body = vec![0xFFu8; 257];
    // 257 * 255 = 65535, plus the tag 3 wraps to 2
    assert_eq!(calc_checksum(0x03, &body), 2);
}

#[test]
fn every_known_payload_round_trips() {
    let payloads = vec![
        Payload::TransactionStart,
        Payload::TransactionEnd,
        Payload::Unknown3 { unk: 0x22 },
        Payload::Unknown5 { unk: 0x19 },
        Payload::GetKeymap { data_len: 3, data_offset: 0x0138, padding: 7, keymap: vec![1, 2, 3] },
        animation(LightingMode::Rain, Brightness::High, Speed::Fast, 1),
        Payload::SetCustomLED { data_offset: 0x0150, padding: 0, key_leds_data: vec![9; 42] },
        Payload::GetKeyIndexes { data_len: 2, data_offset: 56, padding: 0, key_data: vec![4, 5] },
        Payload::Unhandled { data: vec![1, 2, 3, 4] },
    ];
    for payload in payloads {
        let packet = Packet::new(payload.clone());
        let bytes = packet.to_vec();
        let back: Packet<Payload> = Packet::from_bytes(&bytes).expect("packet is read back");
        assert_eq!(back.payload(), &payload);
        assert_eq!(back.checksum(), packet.checksum());
        assert!(back.verify_checksum().is_ok());
        assert_eq!(Payload::decode(payload.payload_type(), &payload.to_vec()), payload);
    }
}

#[test]
fn known_payload_round_trips_through_report() {
    let payload =
        Payload::GetKeymap { data_len: 56, data_offset: 56, padding: 0, keymap: vec![0xAB; 56] };
    let report = Packet::new(payload.clone()).to_report();
    assert_eq!(report.len(), 64);
    let back = parse_response(&report).expect("report holds a packet");
    assert_eq!(back.payload(), &payload);

    let report = Packet::new(Payload::TransactionStart).to_report();
    let mut expected = vec![0u8; 64];
    expected[0] = 0x04;
    expected[1] = 0x01;
    expected[3] = 0x01;
    assert_eq!(report, expected);
    let back = parse_response(&report).expect("report holds a packet");
    assert_eq!(back.payload(), &Payload::TransactionStart);
}

#[test]
fn set_custom_led_length_is_derived_from_data() {
    let payload = Payload::SetCustomLED { data_offset: 0x0118, padding: 0, key_leds_data: vec![7; 56] };
    let bytes = payload.to_vec();
    assert_eq!(bytes[..4], [0x38, 0x18, 0x01, 0x00]);
    assert_eq!(bytes.len(), 60);
}

#[test]
fn request_with_announced_data_missing_is_unhandled() {
    // a read request announces 56 bytes and carries none
    let request = Payload::GetKeymap { data_len: 56, data_offset: 0, padding: 0, keymap: vec![] };
    let decoded = Payload::decode(0x07, &request.to_vec());
    assert_eq!(decoded, Payload::Unhandled { data: vec![0x38, 0, 0, 0] });
    assert_eq!(decoded.payload_type(), 0xFF);
}

#[test]
fn animation_with_unknown_mode_is_unhandled() {
    let body = [0x09, 0, 0, 0x55, 0, 0x09, 0x04, 0x04, 0, 0, 1, 2, 3];
    assert_eq!(Payload::decode(0x06, &body), Payload::Unhandled { data: body.to_vec() });
    let short = [0x09, 0, 0, 0x55, 0, 0x05, 0x04, 0x04, 0, 0, 1, 2];
    assert_eq!(Payload::decode(0x06, &short), Payload::Unhandled { data: short.to_vec() });
}

#[test]
fn read_through_the_trait_gives_the_same_payload() {
    let body = [0x22];
    assert_eq!(
        <Payload as PayloadReadWrite>::read(0x03, &body),
        Some(Payload::Unknown3 { unk: 0x22 })
    );
    assert_eq!(
        <Payload as PayloadReadWrite>::read(0x03, &[]),
        Some(Payload::Unhandled { data: vec![] })
    );
}

#[test]
fn packet_header_faults() {
    assert_eq!(Packet::<Payload>::from_bytes(&[]).unwrap_err(), DecodeError::UnexpectedEnd);
    assert_eq!(
        Packet::<Payload>::from_bytes(&[0x05, 0x01, 0x00, 0x01]).unwrap_err(),
        DecodeError::BadMagic { found: 0x05 }
    );
    assert_eq!(
        Packet::<Payload>::from_bytes(&[0x05]).unwrap_err(),
        DecodeError::BadMagic { found: 0x05 }
    );
    assert_eq!(
        Packet::<Payload>::from_bytes(&[0x04, 0x01, 0x00]).unwrap_err(),
        DecodeError::UnexpectedEnd
    );
    assert!(parse_response(&[0x00; 64]).is_none());
}

#[test]
fn decoding_does_not_verify_the_checksum() {
    let packet: Packet<Payload> =
        Packet::from_bytes(&[0x04, 0x34, 0x12, 0x03, 0x22]).expect("packet is read");
    assert_eq!(packet.checksum(), 0x1234);
    assert_eq!(packet.payload(), &Payload::Unknown3 { unk: 0x22 });
    match packet.verify_checksum() {
        Err(CherryRgbError::ChecksumError { calculated, expected, data }) => {
            assert_eq!(calculated, 0x25);
            assert_eq!(expected, 0x1234);
            assert_eq!(data, "22");
        }
        other => panic!("unexpected result {:?}", other),
    }
}

#[test]
fn corrupted_body_byte_fails_verification() {
    let good = Packet::new(animation(LightingMode::Wave, Brightness::High, Speed::Medium, 0));
    let bytes = good.to_vec();
    for position in 4..bytes.len() {
        let mut corrupted = bytes.clone();
        corrupted[position] ^= 0x01;
        let packet: Packet<Payload> = Packet::from_bytes(&corrupted).expect("packet is read");
        match packet.verify_checksum() {
            Err(CherryRgbError::ChecksumError { calculated, expected, data }) => {
                assert_ne!(calculated, expected);
                assert_eq!(expected, good.checksum());
                assert_eq!(data, hex::encode(&packet.payload().to_vec()));
            }
            other => panic!("unexpected result {:?} at {}", other, position),
        }
    }
}

#[test]
fn checksum_error_data_is_lower_case_hex() {
    let packet: Packet<Payload> =
        Packet::from_bytes(&[0x04, 0x00, 0x00, 0x42, 0xAB, 0x0F, 0xF0]).expect("packet is read");
    match packet.verify_checksum() {
        Err(CherryRgbError::ChecksumError { calculated, expected, data }) => {
            assert_eq!(data, "ab0ff0");
            assert_eq!(expected, 0);
            assert_eq!(calculated, 0xAB + 0x0F + 0xF0 + 0xFF);
        }
        other => panic!("unexpected result {:?}", other),
    }
}

#[test]
fn frame_and_pad() {
    assert_eq!(frame(0x01EE, 0x06, &[1, 2]), vec![0x04, 0xEE, 0x01, 0x06, 1, 2]);
    let long = vec![0x11u8; 70];
    assert_eq!(pad_report(&long), vec![0x11u8; 64]);
    let mut expected = vec![0u8; 64];
    expected[0] = 9;
    assert_eq!(pad_report(&[9]), expected);
}

#[test]
fn wire_bytes_of_modes_speeds_and_brightness() {
    let modes = [
        (LightingMode::Wave, 0x00u8),
        (LightingMode::Spectrum, 0x01),
        (LightingMode::Breathing, 0x02),
        (LightingMode::Static, 0x03),
        (LightingMode::Radar, 0x04),
        (LightingMode::Vortex, 0x05),
        (LightingMode::Fire, 0x06),
        (LightingMode::Stars, 0x07),
        (LightingMode::Custom, 0x08),
        (LightingMode::Rolling, 0x0A),
        (LightingMode::Rain, 0x0B),
        (LightingMode::Curve, 0x0C),
        (LightingMode::WaveMid, 0x0E),
        (LightingMode::Scan, 0x0F),
        (LightingMode::Radiation, 0x12),
        (LightingMode::Ripples, 0x13),
        (LightingMode::SingleKey, 0x15),
    ];
    for (mode, byte) in modes {
        assert_eq!(mode.to_byte(), byte);
        assert_eq!(LightingMode::from_byte(byte), Some(mode));
    }
    assert_eq!(LightingMode::from_byte(0x09), None);
    assert_eq!(LightingMode::from_byte(0x16), None);
    assert_eq!(Speed::from_byte(4), Some(Speed::VerySlow));
    assert_eq!(Speed::from_byte(5), None);
    assert_eq!(Speed::Fast.to_byte(), 1);
    assert_eq!(Brightness::from_byte(0), Some(Brightness::Off));
    assert_eq!(Brightness::from_byte(5), None);
    assert_eq!(Brightness::Full.to_byte(), 4);
}

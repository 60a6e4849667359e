use msp_codec::commands::MspCommandCode;
use msp_codec::data::MspPacketData;
use msp_codec::packet::{MspPacket, MspPacketDirection, MspPacketParseError};
use msp_codec::parser::MspParser;

#[test]
fn parse_v1() {
    // build packet we expect from drone
    let pkt = MspPacket {
        cmd: MspCommandCode::MSP_FC_VARIANT.to_code(),
        direction: MspPacketDirection::FromFlightController,
        data: MspPacketData(vec![0xbe, 0xef]),
    };

    // serialize this packet
    let mut buf = vec![0u8; pkt.packet_size_bytes()];
    pkt.serialize(&mut buf).unwrap();

    // parse the serialized packet
    let mut parser = MspParser::from_fc();
    let mut result = None;
    for byte in buf {
        if let Ok(Some(pkt)) = parser.parse(byte) {
            result = Some(pkt);
        }
    }
    // assert the parsed pkt against the original packet
    assert_eq!(Some(pkt), result);
}

#[test]
fn parse_v2() {
    // build packet we expect from drone
    let pkt = MspPacket {
        cmd: MspCommandCode::MSP_FC_VARIANT.to_code(),
        direction: MspPacketDirection::FromFlightController,
        data: MspPacketData(vec![0xbe, 0xef]),
    };

    // serialize this packet
    let mut buf = vec![0u8; pkt.packet_size_bytes_v2()];
    pkt.serialize_v2(&mut buf).unwrap();

    // parse the serialized packet
    let mut parser = MspParser::from_fc();
    let mut result = None;
    for byte in buf {
        if let Ok(Some(pkt)) = parser.parse(byte) {
            result = Some(pkt);
        }
    }
    // assert the parsed pkt against the original packet
    assert_eq!(Some(pkt), result);
}

#[test]
fn bad_crc_header() {
    // build packet we expect from drone
    let pkt = MspPacket {
        cmd: MspCommandCode::MSP_FC_VARIANT.to_code(),
        direction: MspPacketDirection::FromFlightController,
        data: MspPacketData(vec![0xbe, 0xef]),
    };

    // serialize this packet
    let mut buf = vec![0u8; pkt.packet_size_bytes()];
    pkt.serialize(&mut buf).unwrap();
    // take last byte and corrupt
    let bad_crc = buf.last_mut().unwrap();
    *bad_crc ^= 0xFF;

    // parse all but last bad byte
    let mut parser = MspParser::from_fc();
    for &b in &buf[..buf.len() - 1] {
        assert_eq!(parser.parse(b).unwrap(), None);
    }
    // parse last value
    let err = parser.parse(buf[buf.len() - 1]).unwrap_err();

    // calculate what the parser *would* have computed
    let expected_crc = {
        let mut crc = buf[3] ^ buf[4];
        for &d in &buf[5..buf.len() - 1] {
            crc ^= d;
        }
        crc
    };

    // assert the parsed pkt against the original packet
    assert_eq!(
        err,
        MspPacketParseError::CrcMismatch { expected: buf[buf.len() - 1], calculated: expected_crc }
    );
}

#[test]
fn corrupted_checksum_then_fresh_frame() {
    // Flipping all bits of the checksum byte of the 8-byte frame from the
    // V1 scenario (0x51 becomes 0xAE) must report exactly that mismatch,
    // and the parser must parse a fresh valid frame immediately afterward.
    let pkt = MspPacket {
        cmd: 2,
        direction: MspPacketDirection::ToFlightController,
        data: MspPacketData(vec![0xbe, 0xef]),
    };
    let mut buf = vec![0u8; pkt.packet_size_bytes()];
    pkt.serialize(&mut buf).unwrap();
    assert_eq!(buf, vec![0x24, 0x4D, 0x3C, 0x02, 0x02, 0xBE, 0xEF, 0x51]);

    let mut corrupted = buf.clone();
    corrupted[7] = 0x51 ^ 0xFF;

    let mut parser = MspParser::to_fc();
    for &b in &corrupted[..7] {
        assert_eq!(parser.parse(b).unwrap(), None);
    }
    let err = parser.parse(corrupted[7]).unwrap_err();
    assert_eq!(err, MspPacketParseError::CrcMismatch { expected: 0xAE, calculated: 0x51 });
    assert!(parser.state_is_between_packets());

    // The same frame, uncorrupted, parses right away.
    let mut result = None;
    for &b in &buf {
        if let Ok(Some(p)) = parser.parse(b) {
            result = Some(p);
        }
    }
    assert_eq!(Some(pkt), result);
}

#[test]
fn partial_feed_yields_no_frame() {
    // Every byte but the last returns no frame; only the final byte
    // completes the packet.
    let pkt = MspPacket {
        cmd: 2,
        direction: MspPacketDirection::ToFlightController,
        data: MspPacketData(vec![0xbe, 0xef]),
    };
    let mut buf = vec![0u8; pkt.packet_size_bytes()];
    pkt.serialize(&mut buf).unwrap();

    let mut parser = MspParser::to_fc();
    for &b in &buf[..buf.len() - 1] {
        assert_eq!(parser.parse(b).unwrap(), None);
    }
    let last = parser.parse(buf[buf.len() - 1]).unwrap();
    assert_eq!(last, Some(pkt));
}

#[test]
fn garbage_before_frame_is_skipped() {
    // Arbitrary noise without a sync byte is consumed silently, and the
    // frame behind it still parses.
    let pkt = MspPacket {
        cmd: 101,
        direction: MspPacketDirection::FromFlightController,
        data: MspPacketData(vec![7, 8, 9]),
    };
    let mut frame = vec![0u8; pkt.packet_size_bytes()];
    pkt.serialize(&mut frame).unwrap();

    let noise: Vec<u8> = vec![0x00, 0xFF, 0x23, 0x25, 0x4D, 0x3C, 0x7A];
    let mut parser = MspParser::from_fc();
    for &b in &noise {
        assert_eq!(parser.parse(b).unwrap(), None);
    }
    let mut result = None;
    for &b in &frame {
        if let Ok(Some(p)) = parser.parse(b) {
            result = Some(p);
        }
    }
    assert_eq!(Some(pkt), result);
}

#[test]
fn invalid_version_tag() {
    let mut parser = MspParser::to_fc();
    assert_eq!(parser.parse(b'$').unwrap(), None);
    assert_eq!(parser.parse(b'Q').unwrap_err(), MspPacketParseError::InvalidHeader2);
    assert!(parser.state_is_between_packets());
}

#[test]
fn invalid_direction_byte() {
    let mut parser = MspParser::to_fc();
    assert_eq!(parser.parse(b'$').unwrap(), None);
    assert_eq!(parser.parse(b'M').unwrap(), None);
    assert_eq!(parser.parse(b'?').unwrap_err(), MspPacketParseError::InvalidDirection);
    assert!(parser.state_is_between_packets());
}

#[test]
fn reset_returns_between_packets() {
    let mut parser = MspParser::default();
    assert!(parser.state_is_between_packets());
    assert_eq!(parser.parse(b'$').unwrap(), None);
    assert!(!parser.state_is_between_packets());
    parser.reset();
    assert!(parser.state_is_between_packets());
}

#[test]
fn back_to_back_frames() {
    // Two frames in a row on one stream, one per revision.
    let first = MspPacket {
        cmd: 2,
        direction: MspPacketDirection::FromFlightController,
        data: MspPacketData(vec![0xAA]),
    };
    let second = MspPacket {
        cmd: 0x2020,
        direction: MspPacketDirection::ToFlightController,
        data: MspPacketData(vec![1, 2]),
    };
    let mut stream = vec![0u8; first.packet_size_bytes()];
    first.serialize(&mut stream).unwrap();
    let mut tail = vec![0u8; second.packet_size_bytes_v2()];
    second.serialize_v2(&mut tail).unwrap();
    stream.extend_from_slice(&tail);

    let mut parser = MspParser::from_fc();
    let mut seen = Vec::new();
    for &b in &stream {
        if let Ok(Some(p)) = parser.parse(b) {
            seen.push(p);
        }
    }
    assert_eq!(seen, vec![first, second]);
}

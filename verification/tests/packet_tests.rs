use msp_codec::data::MspPacketData;
use msp_codec::packet::{MspPacket, MspPacketDirection, MspPacketParseError};
use msp_codec::parser::MspParser;

#[test]
fn test_serialize() {
    let packet = MspPacket {
        cmd: 2,
        direction: MspPacketDirection::ToFlightController,
        data: MspPacketData(vec![0xbe, 0xef]),
    };

    let size = packet.packet_size_bytes();
    assert_eq!(8, size);

    let mut output = vec![0; size];
    packet.serialize(&mut output).unwrap();
    let expected = ['$' as u8, 'M' as u8, '<' as u8, 2, 2, 0xbe, 0xef, 81];
    assert_eq!(&expected, output.as_slice());

    let crc = 2 ^ 2 ^ 0xBE ^ 0xEF;
    assert_eq!(81, crc);

    let mut packet_parsed = None;
    let mut parser = MspParser::new(MspPacketDirection::ToFlightController);
    for b in output {
        let s = parser.parse(b);
        if let Ok(Some(p)) = s {
            packet_parsed = Some(p);
        }
    }

    assert_eq!(packet, packet_parsed.unwrap());
}

fn roundtrip(packet: &MspPacket) {
    let size = packet.packet_size_bytes();
    let mut output = vec![0; size];

    packet.serialize(&mut output).unwrap();

    let mut parser = MspParser::new(MspPacketDirection::ToFlightController);
    let mut packet_parsed = None;
    for b in output {
        let s = parser.parse(b);
        if let Ok(Some(p)) = s {
            packet_parsed = Some(p);
        }
    }
    assert_eq!(packet, &packet_parsed.unwrap());
}

#[test]
fn test_roundtrip() {
    {
        let packet = MspPacket {
            cmd: 1,
            direction: MspPacketDirection::ToFlightController,
            data: MspPacketData(vec![0x00, 0x00, 0x00]),
        };
        roundtrip(&packet);
    }

    {
        let packet = MspPacket {
            cmd: 200,
            direction: MspPacketDirection::FromFlightController,
            data: MspPacketData::new(),
        };
        roundtrip(&packet);
    }

    {
        let packet = MspPacket {
            cmd: 100,
            direction: MspPacketDirection::Unsupported,
            data: MspPacketData(vec![0x44, 0x20, 0x00, 0x80]),
        };
        roundtrip(&packet);
    }
}

#[test]
fn direction_wire_bytes() {
    assert_eq!(MspPacketDirection::ToFlightController.to_byte(), b'<');
    assert_eq!(MspPacketDirection::FromFlightController.to_byte(), b'>');
    assert_eq!(MspPacketDirection::Unsupported.to_byte(), b'!');
}

#[test]
fn serialize_wrong_buffer_size() {
    let packet = MspPacket {
        cmd: 2,
        direction: MspPacketDirection::ToFlightController,
        data: MspPacketData(vec![1, 2, 3]),
    };
    let mut too_small = vec![0u8; 5];
    assert_eq!(
        packet.serialize(&mut too_small),
        Err(MspPacketParseError::OutputBufferSizeMismatch)
    );
    assert_eq!(too_small, vec![0u8; 5]);

    let mut too_small_v2 = vec![0u8; 11];
    assert_eq!(
        packet.serialize_v2(&mut too_small_v2),
        Err(MspPacketParseError::OutputBufferSizeMismatch)
    );
    assert_eq!(too_small_v2, vec![0u8; 11]);
}

#[test]
fn serialize_v1_narrows_command() {
    // V1 carries only the low 8 bits of the command: 515 = 0x0203 goes out
    // as 0x03 and comes back as 3.
    let packet = MspPacket {
        cmd: 515,
        direction: MspPacketDirection::FromFlightController,
        data: MspPacketData::new(),
    };
    let mut output = vec![0u8; packet.packet_size_bytes()];
    packet.serialize(&mut output).unwrap();
    assert_eq!(output[4], 0x03);

    let mut parser = MspParser::from_fc();
    let mut parsed = None;
    for b in output {
        if let Ok(Some(p)) = parser.parse(b) {
            parsed = Some(p);
        }
    }
    assert_eq!(parsed.unwrap().cmd, 3);
}

// A plain reference implementation of CRC-8/DVB-S2 (polynomial 0xD5,
// initial value 0, unreflected, no output XOR), independent of the library.
fn crc8_dvb_s2_reference(bytes: &[u8]) -> u8 {
    let mut crc: u8 = 0;
    for &b in bytes {
        crc ^= b;
        for _ in 0..8 {
            if crc & 0x80 != 0 {
                crc = (crc << 1) ^ 0xD5;
            } else {
                crc <<= 1;
            }
        }
    }
    crc
}

#[test]
fn crc8_dvb_s2_reference_check_value() {
    // The published check value of CRC-8/DVB-S2.
    assert_eq!(crc8_dvb_s2_reference(b"123456789"), 0xBC);
}

#[test]
fn serialize_v2_layout_and_crc() {
    // Command 515 = 0x0203 must appear little-endian as 03 02, and the
    // trailing CRC must match an independent CRC-8/DVB-S2 over the flag,
    // command, length and payload bytes.
    let packet = MspPacket {
        cmd: 515,
        direction: MspPacketDirection::FromFlightController,
        data: MspPacketData(vec![0x44, 0x20, 0x00, 0x80]),
    };
    let size = packet.packet_size_bytes_v2();
    assert_eq!(size, 13);
    let mut output = vec![0u8; size];
    packet.serialize_v2(&mut output).unwrap();

    assert_eq!(output[0], b'$');
    assert_eq!(output[1], b'X');
    assert_eq!(output[2], b'>');
    assert_eq!(output[3], 0x00);
    assert_eq!(&output[4..6], &[0x03, 0x02]);
    assert_eq!(&output[6..8], &[0x04, 0x00]);
    assert_eq!(&output[8..12], &[0x44, 0x20, 0x00, 0x80]);
    assert_eq!(output[12], crc8_dvb_s2_reference(&output[3..12]));
}

#[test]
fn roundtrip_v2() {
    // The V2 path carries the full 16-bit command through serialization and
    // parsing.
    let packet = MspPacket {
        cmd: 515,
        direction: MspPacketDirection::FromFlightController,
        data: MspPacketData(vec![0x44, 0x20, 0x00, 0x80]),
    };
    let mut output = vec![0u8; packet.packet_size_bytes_v2()];
    packet.serialize_v2(&mut output).unwrap();

    let mut parser = MspParser::from_fc();
    let mut parsed = None;
    for b in output {
        if let Ok(Some(p)) = parser.parse(b) {
            parsed = Some(p);
        }
    }
    assert_eq!(packet, parsed.unwrap());
}

#[test]
fn roundtrip_v2_empty_payload() {
    let packet = MspPacket {
        cmd: 0x1003,
        direction: MspPacketDirection::ToFlightController,
        data: MspPacketData::new(),
    };
    let mut output = vec![0u8; packet.packet_size_bytes_v2()];
    packet.serialize_v2(&mut output).unwrap();
    assert_eq!(output.len(), 9);
    assert_eq!(output[0], b'$');

    let mut parser = MspParser::to_fc();
    let mut parsed = None;
    for b in output {
        if let Ok(Some(p)) = parser.parse(b) {
            parsed = Some(p);
        }
    }
    assert_eq!(packet, parsed.unwrap());
}

#[test]
fn payload_accessors() {
    let data = MspPacketData::from_slice(&[1, 2, 3]);
    assert_eq!(data.as_slice(), &[1, 2, 3]);
    assert_eq!(data.len(), 3);
    assert_eq!(data, MspPacketData(vec![1, 2, 3]));
    assert_ne!(data, MspPacketData(vec![1, 2]));
    assert_ne!(data, MspPacketData(vec![1, 2, 4]));
}

use msp_codec::commands::MspCommandCode;
use msp_codec::packet::MspPacketParseError;

#[test]
fn known_codes() {
    assert_eq!(MspCommandCode::MSP_API_VERSION.to_code(), 1);
    assert_eq!(MspCommandCode::MSP_FC_VARIANT.to_code(), 2);
    assert_eq!(MspCommandCode::MSP_STATUS.to_code(), 101);
    assert_eq!(MspCommandCode::MSP_DEBUG.to_code(), 254);
    assert_eq!(MspCommandCode::MSP2_COMMON_SETTING.to_code(), 0x1003);
    assert_eq!(MspCommandCode::MSP2_INAV_SET_SERVO_MIXER.to_code(), 0x2021);
}

#[test]
fn lookup_known_codes() {
    assert_eq!(MspCommandCode::from_code(1), Ok(MspCommandCode::MSP_API_VERSION));
    assert_eq!(MspCommandCode::from_code(2), Ok(MspCommandCode::MSP_FC_VARIANT));
    assert_eq!(MspCommandCode::from_code(0x2021), Ok(MspCommandCode::MSP2_INAV_SET_SERVO_MIXER));
}

#[test]
fn lookup_unknown_code_is_data_not_abort() {
    // An unrecognized numeric code is reported as an explicit outcome that
    // the caller may ignore or log; nothing panics.
    assert_eq!(MspCommandCode::from_code(9999), Err(MspPacketParseError::UnknownCommand));
    assert_eq!(MspCommandCode::from_code(0), Err(MspPacketParseError::UnknownCommand));
    assert_eq!(MspCommandCode::from_code(65535), Err(MspPacketParseError::UnknownCommand));
}

#[test]
fn roundtrip_some_commands() {
    let samples = vec![
        MspCommandCode::MSP_IDENT,
        MspCommandCode::MSP_RAW_IMU,
        MspCommandCode::MSP_SET_RAW_RC,
        MspCommandCode::MSP_EEPROM_WRITE,
        MspCommandCode::MSP2_SERIAL_CONFIG,
    ];
    for c in samples {
        assert_eq!(MspCommandCode::from_code(c.to_code()), Ok(c));
    }
}

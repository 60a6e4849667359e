//! The command registry: a closed set of known command names and their
//! numeric wire codes, as a total mapping from name to code and a partial
//! mapping from code to name. An unknown code is reported to the caller
//! as data, never as an abort.

use vstd::prelude::*;

use crate::packet::MspPacketParseError;

verus! {

/// MSP command values, used for command encapsulation.
#[allow(non_camel_case_types)]
#[derive(Copy, Clone, Debug, PartialEq, Eq, Structural)]
pub enum MspCommandCode {
    MSP_API_VERSION,
    MSP_FC_VARIANT,
    MSP_FC_VERSION,
    MSP_BOARD_INFO,
    MSP_BUILD_INFO,
    MSP_BATTERY_CONFIG,
    MSP_SET_BATTERY_CONFIG,
    MSP_MODE_RANGES,
    MSP_SET_MODE_RANGE,
    MSP_FEATURE,
    MSP_SET_FEATURE,
    MSP_BOARD_ALIGNMENT,
    MSP_SET_BOARD_ALIGNMENT,
    MSP_AMPERAGE_METER_CONFIG,
    MSP_SET_AMPERAGE_METER_CONFIG,
    MSP_MIXER,
    MSP_SET_MIXER,
    MSP_RX_CONFIG,
    MSP_SET_RX_CONFIG,
    MSP_LED_COLORS,
    MSP_SET_LED_COLORS,
    MSP_LED_STRIP_CONFIG,
    MSP_SET_LED_STRIP_CONFIG,
    MSP_RSSI_CONFIG,
    MSP_SET_RSSI_CONFIG,
    MSP_ADJUSTMENT_RANGES,
    MSP_SET_ADJUSTMENT_RANGE,
    MSP_CF_SERIAL_CONFIG,
    MSP_SET_CF_SERIAL_CONFIG,
    MSP_VOLTAGE_METER_CONFIG,
    MSP_SET_VOLTAGE_METER_CONFIG,
    MSP_SONAR,
    MSP_PID_CONTROLLER,
    MSP_SET_PID_CONTROLLER,
    MSP_ARMING_CONFIG,
    MSP_SET_ARMING_CONFIG,
    MSP_DATAFLASH_SUMMARY,
    MSP_DATAFLASH_READ,
    MSP_DATAFLASH_ERASE,
    MSP_LOOP_TIME,
    MSP_SET_LOOP_TIME,
    MSP_FAILSAFE_CONFIG,
    MSP_SET_FAILSAFE_CONFIG,
    MSP_RXFAIL_CONFIG,
    MSP_SET_RXFAIL_CONFIG,
    MSP_SDCARD_SUMMARY,
    MSP_BLACKBOX_CONFIG,
    MSP_SET_BLACKBOX_CONFIG,
    MSP_TRANSPONDER_CONFIG,
    MSP_SET_TRANSPONDER_CONFIG,
    MSP_OSD_CONFIG,
    MSP_SET_OSD_CONFIG,
    MSP_OSD_CHAR_READ,
    MSP_OSD_CHAR_WRITE,
    MSP_LED_STRIP_MODECOLOR,
    MSP_SET_LED_STRIP_MODECOLOR,
    MSP_VOLTAGE_METERS,
    MSP_AMPERAGE_METERS,
    MSP_BATTERY_STATE,
    MSP_MOTOR_CONFIG,
    MSP_OSD_VIDEO_CONFIG,
    MSP_SET_OSD_VIDEO_CONFIG,
    MSP_OSD_VIDEO_STATUS,
    MSP_OSD_ELEMENT_SUMMARY,
    MSP_OSD_LAYOUT_CONFIG,
    MSP_SET_OSD_LAYOUT_CONFIG,
    MSP_IDENT,
    MSP_STATUS,
    MSP_RAW_IMU,
    MSP_SERVO,
    MSP_MOTOR,
    MSP_RC,
    MSP_RAW_GPS,
    MSP_COMP_GPS,
    MSP_ATTITUDE,
    MSP_ALTITUDE,
    MSP_ANALOG,
    MSP_RC_TUNING,
    MSP_PID,
    MSP_BOX,
    MSP_MISC,
    MSP_MOTOR_PINS,
    MSP_BOXNAMES,
    MSP_PIDNAMES,
    MSP_WP,
    MSP_BOXIDS,
    MSP_SERVO_CONFIGURATIONS,
    MSP_MOTOR_3D_CONFIG,
    MSP_RC_DEADBAND,
    MSP_SENSOR_ALIGNMENT,
    MSP_SET_RAW_RC,
    MSP_SET_RAW_GPS,
    MSP_SET_PID,
    MSP_SET_BOX,
    MSP_SET_RC_TUNING,
    MSP_ACC_CALIBRATION,
    MSP_MAG_CALIBRATION,
    MSP_SET_MISC,
    MSP_RESET_CONF,
    MSP_SET_WP,
    MSP_SELECT_SETTING,
    MSP_SET_HEAD,
    MSP_SET_SERVO_CONFIGURATION,
    MSP_SET_MOTOR,
    MSP_SET_3D,
    MSP_SET_RC_DEADBAND,
    MSP_SET_RESET_CURR_PID,
    MSP_SET_SENSOR_ALIGNMENT,
    MSP_SERVO_MIX_RULES,
    MSP_SET_SERVO_MIX_RULE,
    MSP_EEPROM_WRITE,
    MSP_DEBUGMSG,
    MSP_DEBUG,
    MSP_BF_CONFIG,
    MSP_UID,
    MSP_STATUS_EX,
    MSP_ACC_TRIM,
    MSP_SET_ACC_TRIM,
    MSP_GPS_SV_INFO,
    MSP_RX_MAP,
    MSP_SET_RX_MAP,
    MSP_SET_REBOOT,
    MSP_BF_BUILD_INFO,
    MSP_ADVANCED_CONFIG,
    MSP_SET_ADVANCED_CONFIG,
    MSP_FILTER_CONFIG,
    MSP_SET_FILTER_CONFIG,
    MSP_PID_ADVANCED,
    MSP_SET_PID_ADVANCED,
    MSP_SENSOR_CONFIG,
    MSP_SET_SENSOR_CONFIG,
    MSP2_COMMON_SETTING,
    MSP2_COMMON_SET_SETTING,
    MSP2_MOTOR_MIXER,
    MSP2_SET_MOTOR_MIXER,
    MSP2_COMMON_SETTING_INFO,
    MSP2_COMMON_PG_LIST,
    MSP2_SERIAL_CONFIG,
    MSP2_SET_SERIAL_CONFIG,
    MSP2_INAV_OSD_LAYOUTS,
    MSP2_INAV_OSD_SET_LAYOUT_ITEM,
    MSP2_INAV_OSD_ALARMS,
    MSP2_INAV_OSD_SET_ALARMS,
    MSP2_INAV_OSD_PREFERENCES,
    MSP2_INAV_OSD_SET_PREFERENCES,
    MSP2_INAV_SERVO_MIXER,
    MSP2_INAV_SET_SERVO_MIXER,
}

impl MspCommandCode {
    /// The numeric code this command is written as on the wire.
    pub open spec fn spec_code(self) -> u16 {
        match self {
            MspCommandCode::MSP_API_VERSION => 1,
            MspCommandCode::MSP_FC_VARIANT => 2,
            MspCommandCode::MSP_FC_VERSION => 3,
            MspCommandCode::MSP_BOARD_INFO => 4,
            MspCommandCode::MSP_BUILD_INFO => 5,
            MspCommandCode::MSP_BATTERY_CONFIG => 32,
            MspCommandCode::MSP_SET_BATTERY_CONFIG => 33,
            MspCommandCode::MSP_MODE_RANGES => 34,
            MspCommandCode::MSP_SET_MODE_RANGE => 35,
            MspCommandCode::MSP_FEATURE => 36,
            MspCommandCode::MSP_SET_FEATURE => 37,
            MspCommandCode::MSP_BOARD_ALIGNMENT => 38,
            MspCommandCode::MSP_SET_BOARD_ALIGNMENT => 39,
            MspCommandCode::MSP_AMPERAGE_METER_CONFIG => 40,
            MspCommandCode::MSP_SET_AMPERAGE_METER_CONFIG => 41,
            MspCommandCode::MSP_MIXER => 42,
            MspCommandCode::MSP_SET_MIXER => 43,
            MspCommandCode::MSP_RX_CONFIG => 44,
            MspCommandCode::MSP_SET_RX_CONFIG => 45,
            MspCommandCode::MSP_LED_COLORS => 46,
            MspCommandCode::MSP_SET_LED_COLORS => 47,
            MspCommandCode::MSP_LED_STRIP_CONFIG => 48,
            MspCommandCode::MSP_SET_LED_STRIP_CONFIG => 49,
            MspCommandCode::MSP_RSSI_CONFIG => 50,
            MspCommandCode::MSP_SET_RSSI_CONFIG => 51,
            MspCommandCode::MSP_ADJUSTMENT_RANGES => 52,
            MspCommandCode::MSP_SET_ADJUSTMENT_RANGE => 53,
            MspCommandCode::MSP_CF_SERIAL_CONFIG => 54,
            MspCommandCode::MSP_SET_CF_SERIAL_CONFIG => 55,
            MspCommandCode::MSP_VOLTAGE_METER_CONFIG => 56,
            MspCommandCode::MSP_SET_VOLTAGE_METER_CONFIG => 57,
            MspCommandCode::MSP_SONAR => 58,
            MspCommandCode::MSP_PID_CONTROLLER => 59,
            MspCommandCode::MSP_SET_PID_CONTROLLER => 60,
            MspCommandCode::MSP_ARMING_CONFIG => 61,
            MspCommandCode::MSP_SET_ARMING_CONFIG => 62,
            MspCommandCode::MSP_DATAFLASH_SUMMARY => 70,
            MspCommandCode::MSP_DATAFLASH_READ => 71,
            MspCommandCode::MSP_DATAFLASH_ERASE => 72,
            MspCommandCode::MSP_LOOP_TIME => 73,
            MspCommandCode::MSP_SET_LOOP_TIME => 74,
            MspCommandCode::MSP_FAILSAFE_CONFIG => 75,
            MspCommandCode::MSP_SET_FAILSAFE_CONFIG => 76,
            MspCommandCode::MSP_RXFAIL_CONFIG => 77,
            MspCommandCode::MSP_SET_RXFAIL_CONFIG => 78,
            MspCommandCode::MSP_SDCARD_SUMMARY => 79,
            MspCommandCode::MSP_BLACKBOX_CONFIG => 80,
            MspCommandCode::MSP_SET_BLACKBOX_CONFIG => 81,
            MspCommandCode::MSP_TRANSPONDER_CONFIG => 82,
            MspCommandCode::MSP_SET_TRANSPONDER_CONFIG => 83,
            MspCommandCode::MSP_OSD_CONFIG => 84,
            MspCommandCode::MSP_SET_OSD_CONFIG => 85,
            MspCommandCode::MSP_OSD_CHAR_READ => 86,
            MspCommandCode::MSP_OSD_CHAR_WRITE => 87,
            MspCommandCode::MSP_LED_STRIP_MODECOLOR => 127,
            MspCommandCode::MSP_SET_LED_STRIP_MODECOLOR => 221,
            MspCommandCode::MSP_VOLTAGE_METERS => 128,
            MspCommandCode::MSP_AMPERAGE_METERS => 129,
            MspCommandCode::MSP_BATTERY_STATE => 130,
            MspCommandCode::MSP_MOTOR_CONFIG => 131,
            MspCommandCode::MSP_OSD_VIDEO_CONFIG => 180,
            MspCommandCode::MSP_SET_OSD_VIDEO_CONFIG => 181,
            MspCommandCode::MSP_OSD_VIDEO_STATUS => 182,
            MspCommandCode::MSP_OSD_ELEMENT_SUMMARY => 183,
            MspCommandCode::MSP_OSD_LAYOUT_CONFIG => 184,
            MspCommandCode::MSP_SET_OSD_LAYOUT_CONFIG => 185,
            MspCommandCode::MSP_IDENT => 100,
            MspCommandCode::MSP_STATUS => 101,
            MspCommandCode::MSP_RAW_IMU => 102,
            MspCommandCode::MSP_SERVO => 103,
            MspCommandCode::MSP_MOTOR => 104,
            MspCommandCode::MSP_RC => 105,
            MspCommandCode::MSP_RAW_GPS => 106,
            MspCommandCode::MSP_COMP_GPS => 107,
            MspCommandCode::MSP_ATTITUDE => 108,
            MspCommandCode::MSP_ALTITUDE => 109,
            MspCommandCode::MSP_ANALOG => 110,
            MspCommandCode::MSP_RC_TUNING => 111,
            MspCommandCode::MSP_PID => 112,
            MspCommandCode::MSP_BOX => 113,
            MspCommandCode::MSP_MISC => 114,
            MspCommandCode::MSP_MOTOR_PINS => 115,
            MspCommandCode::MSP_BOXNAMES => 116,
            MspCommandCode::MSP_PIDNAMES => 117,
            MspCommandCode::MSP_WP => 118,
            MspCommandCode::MSP_BOXIDS => 119,
            MspCommandCode::MSP_SERVO_CONFIGURATIONS => 120,
            MspCommandCode::MSP_MOTOR_3D_CONFIG => 124,
            MspCommandCode::MSP_RC_DEADBAND => 125,
            MspCommandCode::MSP_SENSOR_ALIGNMENT => 126,
            MspCommandCode::MSP_SET_RAW_RC => 200,
            MspCommandCode::MSP_SET_RAW_GPS => 201,
            MspCommandCode::MSP_SET_PID => 202,
            MspCommandCode::MSP_SET_BOX => 203,
            MspCommandCode::MSP_SET_RC_TUNING => 204,
            MspCommandCode::MSP_ACC_CALIBRATION => 205,
            MspCommandCode::MSP_MAG_CALIBRATION => 206,
            MspCommandCode::MSP_SET_MISC => 207,
            MspCommandCode::MSP_RESET_CONF => 208,
            MspCommandCode::MSP_SET_WP => 209,
            MspCommandCode::MSP_SELECT_SETTING => 210,
            MspCommandCode::MSP_SET_HEAD => 211,
            MspCommandCode::MSP_SET_SERVO_CONFIGURATION => 212,
            MspCommandCode::MSP_SET_MOTOR => 214,
            MspCommandCode::MSP_SET_3D => 217,
            MspCommandCode::MSP_SET_RC_DEADBAND => 218,
            MspCommandCode::MSP_SET_RESET_CURR_PID => 219,
            MspCommandCode::MSP_SET_SENSOR_ALIGNMENT => 220,
            MspCommandCode::MSP_SERVO_MIX_RULES => 241,
            MspCommandCode::MSP_SET_SERVO_MIX_RULE => 242,
            MspCommandCode::MSP_EEPROM_WRITE => 250,
            MspCommandCode::MSP_DEBUGMSG => 253,
            MspCommandCode::MSP_DEBUG => 254,
            MspCommandCode::MSP_BF_CONFIG => 66,
            MspCommandCode::MSP_UID => 160,
            MspCommandCode::MSP_STATUS_EX => 150,
            MspCommandCode::MSP_ACC_TRIM => 240,
            MspCommandCode::MSP_SET_ACC_TRIM => 239,
            MspCommandCode::MSP_GPS_SV_INFO => 164,
            MspCommandCode::MSP_RX_MAP => 64,
            MspCommandCode::MSP_SET_RX_MAP => 65,
            MspCommandCode::MSP_SET_REBOOT => 68,
            MspCommandCode::MSP_BF_BUILD_INFO => 69,
            MspCommandCode::MSP_ADVANCED_CONFIG => 90,
            MspCommandCode::MSP_SET_ADVANCED_CONFIG => 91,
            MspCommandCode::MSP_FILTER_CONFIG => 92,
            MspCommandCode::MSP_SET_FILTER_CONFIG => 93,
            MspCommandCode::MSP_PID_ADVANCED => 94,
            MspCommandCode::MSP_SET_PID_ADVANCED => 95,
            MspCommandCode::MSP_SENSOR_CONFIG => 96,
            MspCommandCode::MSP_SET_SENSOR_CONFIG => 97,
            MspCommandCode::MSP2_COMMON_SETTING => 0x1003,
            MspCommandCode::MSP2_COMMON_SET_SETTING => 0x1004,
            MspCommandCode::MSP2_MOTOR_MIXER => 0x1005,
            MspCommandCode::MSP2_SET_MOTOR_MIXER => 0x1006,
            MspCommandCode::MSP2_COMMON_SETTING_INFO => 0x1007,
            MspCommandCode::MSP2_COMMON_PG_LIST => 0x1008,
            MspCommandCode::MSP2_SERIAL_CONFIG => 0x1009,
            MspCommandCode::MSP2_SET_SERIAL_CONFIG => 0x100A,
            MspCommandCode::MSP2_INAV_OSD_LAYOUTS => 0x2012,
            MspCommandCode::MSP2_INAV_OSD_SET_LAYOUT_ITEM => 0x2013,
            MspCommandCode::MSP2_INAV_OSD_ALARMS => 0x2014,
            MspCommandCode::MSP2_INAV_OSD_SET_ALARMS => 0x2015,
            MspCommandCode::MSP2_INAV_OSD_PREFERENCES => 0x2016,
            MspCommandCode::MSP2_INAV_OSD_SET_PREFERENCES => 0x2017,
            MspCommandCode::MSP2_INAV_SERVO_MIXER => 0x2020,
            MspCommandCode::MSP2_INAV_SET_SERVO_MIXER => 0x2021,
        }
    }

    /// Total mapping from command name to numeric wire code.
    pub fn to_code(&self) -> (r: u16)
        ensures
            r == self.spec_code(),
    {
        match *self {
            MspCommandCode::MSP_API_VERSION => 1,
            MspCommandCode::MSP_FC_VARIANT => 2,
            MspCommandCode::MSP_FC_VERSION => 3,
            MspCommandCode::MSP_BOARD_INFO => 4,
            MspCommandCode::MSP_BUILD_INFO => 5,
            MspCommandCode::MSP_BATTERY_CONFIG => 32,
            MspCommandCode::MSP_SET_BATTERY_CONFIG => 33,
            MspCommandCode::MSP_MODE_RANGES => 34,
            MspCommandCode::MSP_SET_MODE_RANGE => 35,
            MspCommandCode::MSP_FEATURE => 36,
            MspCommandCode::MSP_SET_FEATURE => 37,
            MspCommandCode::MSP_BOARD_ALIGNMENT => 38,
            MspCommandCode::MSP_SET_BOARD_ALIGNMENT => 39,
            MspCommandCode::MSP_AMPERAGE_METER_CONFIG => 40,
            MspCommandCode::MSP_SET_AMPERAGE_METER_CONFIG => 41,
            MspCommandCode::MSP_MIXER => 42,
            MspCommandCode::MSP_SET_MIXER => 43,
            MspCommandCode::MSP_RX_CONFIG => 44,
            MspCommandCode::MSP_SET_RX_CONFIG => 45,
            MspCommandCode::MSP_LED_COLORS => 46,
            MspCommandCode::MSP_SET_LED_COLORS => 47,
            MspCommandCode::MSP_LED_STRIP_CONFIG => 48,
            MspCommandCode::MSP_SET_LED_STRIP_CONFIG => 49,
            MspCommandCode::MSP_RSSI_CONFIG => 50,
            MspCommandCode::MSP_SET_RSSI_CONFIG => 51,
            MspCommandCode::MSP_ADJUSTMENT_RANGES => 52,
            MspCommandCode::MSP_SET_ADJUSTMENT_RANGE => 53,
            MspCommandCode::MSP_CF_SERIAL_CONFIG => 54,
            MspCommandCode::MSP_SET_CF_SERIAL_CONFIG => 55,
            MspCommandCode::MSP_VOLTAGE_METER_CONFIG => 56,
            MspCommandCode::MSP_SET_VOLTAGE_METER_CONFIG => 57,
            MspCommandCode::MSP_SONAR => 58,
            MspCommandCode::MSP_PID_CONTROLLER => 59,
            MspCommandCode::MSP_SET_PID_CONTROLLER => 60,
            MspCommandCode::MSP_ARMING_CONFIG => 61,
            MspCommandCode::MSP_SET_ARMING_CONFIG => 62,
            MspCommandCode::MSP_DATAFLASH_SUMMARY => 70,
            MspCommandCode::MSP_DATAFLASH_READ => 71,
            MspCommandCode::MSP_DATAFLASH_ERASE => 72,
            MspCommandCode::MSP_LOOP_TIME => 73,
            MspCommandCode::MSP_SET_LOOP_TIME => 74,
            MspCommandCode::MSP_FAILSAFE_CONFIG => 75,
            MspCommandCode::MSP_SET_FAILSAFE_CONFIG => 76,
            MspCommandCode::MSP_RXFAIL_CONFIG => 77,
            MspCommandCode::MSP_SET_RXFAIL_CONFIG => 78,
            MspCommandCode::MSP_SDCARD_SUMMARY => 79,
            MspCommandCode::MSP_BLACKBOX_CONFIG => 80,
            MspCommandCode::MSP_SET_BLACKBOX_CONFIG => 81,
            MspCommandCode::MSP_TRANSPONDER_CONFIG => 82,
            MspCommandCode::MSP_SET_TRANSPONDER_CONFIG => 83,
            MspCommandCode::MSP_OSD_CONFIG => 84,
            MspCommandCode::MSP_SET_OSD_CONFIG => 85,
            MspCommandCode::MSP_OSD_CHAR_READ => 86,
            MspCommandCode::MSP_OSD_CHAR_WRITE => 87,
            MspCommandCode::MSP_LED_STRIP_MODECOLOR => 127,
            MspCommandCode::MSP_SET_LED_STRIP_MODECOLOR => 221,
            MspCommandCode::MSP_VOLTAGE_METERS => 128,
            MspCommandCode::MSP_AMPERAGE_METERS => 129,
            MspCommandCode::MSP_BATTERY_STATE => 130,
            MspCommandCode::MSP_MOTOR_CONFIG => 131,
            MspCommandCode::MSP_OSD_VIDEO_CONFIG => 180,
            MspCommandCode::MSP_SET_OSD_VIDEO_CONFIG => 181,
            MspCommandCode::MSP_OSD_VIDEO_STATUS => 182,
            MspCommandCode::MSP_OSD_ELEMENT_SUMMARY => 183,
            MspCommandCode::MSP_OSD_LAYOUT_CONFIG => 184,
            MspCommandCode::MSP_SET_OSD_LAYOUT_CONFIG => 185,
            MspCommandCode::MSP_IDENT => 100,
            MspCommandCode::MSP_STATUS => 101,
            MspCommandCode::MSP_RAW_IMU => 102,
            MspCommandCode::MSP_SERVO => 103,
            MspCommandCode::MSP_MOTOR => 104,
            MspCommandCode::MSP_RC => 105,
            MspCommandCode::MSP_RAW_GPS => 106,
            MspCommandCode::MSP_COMP_GPS => 107,
            MspCommandCode::MSP_ATTITUDE => 108,
            MspCommandCode::MSP_ALTITUDE => 109,
            MspCommandCode::MSP_ANALOG => 110,
            MspCommandCode::MSP_RC_TUNING => 111,
            MspCommandCode::MSP_PID => 112,
            MspCommandCode::MSP_BOX => 113,
            MspCommandCode::MSP_MISC => 114,
            MspCommandCode::MSP_MOTOR_PINS => 115,
            MspCommandCode::MSP_BOXNAMES => 116,
            MspCommandCode::MSP_PIDNAMES => 117,
            MspCommandCode::MSP_WP => 118,
            MspCommandCode::MSP_BOXIDS => 119,
            MspCommandCode::MSP_SERVO_CONFIGURATIONS => 120,
            MspCommandCode::MSP_MOTOR_3D_CONFIG => 124,
            MspCommandCode::MSP_RC_DEADBAND => 125,
            MspCommandCode::MSP_SENSOR_ALIGNMENT => 126,
            MspCommandCode::MSP_SET_RAW_RC => 200,
            MspCommandCode::MSP_SET_RAW_GPS => 201,
            MspCommandCode::MSP_SET_PID => 202,
            MspCommandCode::MSP_SET_BOX => 203,
            MspCommandCode::MSP_SET_RC_TUNING => 204,
            MspCommandCode::MSP_ACC_CALIBRATION => 205,
            MspCommandCode::MSP_MAG_CALIBRATION => 206,
            MspCommandCode::MSP_SET_MISC => 207,
            MspCommandCode::MSP_RESET_CONF => 208,
            MspCommandCode::MSP_SET_WP => 209,
            MspCommandCode::MSP_SELECT_SETTING => 210,
            MspCommandCode::MSP_SET_HEAD => 211,
            MspCommandCode::MSP_SET_SERVO_CONFIGURATION => 212,
            MspCommandCode::MSP_SET_MOTOR => 214,
            MspCommandCode::MSP_SET_3D => 217,
            MspCommandCode::MSP_SET_RC_DEADBAND => 218,
            MspCommandCode::MSP_SET_RESET_CURR_PID => 219,
            MspCommandCode::MSP_SET_SENSOR_ALIGNMENT => 220,
            MspCommandCode::MSP_SERVO_MIX_RULES => 241,
            MspCommandCode::MSP_SET_SERVO_MIX_RULE => 242,
            MspCommandCode::MSP_EEPROM_WRITE => 250,
            MspCommandCode::MSP_DEBUGMSG => 253,
            MspCommandCode::MSP_DEBUG => 254,
            MspCommandCode::MSP_BF_CONFIG => 66,
            MspCommandCode::MSP_UID => 160,
            MspCommandCode::MSP_STATUS_EX => 150,
            MspCommandCode::MSP_ACC_TRIM => 240,
            MspCommandCode::MSP_SET_ACC_TRIM => 239,
            MspCommandCode::MSP_GPS_SV_INFO => 164,
            MspCommandCode::MSP_RX_MAP => 64,
            MspCommandCode::MSP_SET_RX_MAP => 65,
            MspCommandCode::MSP_SET_REBOOT => 68,
            MspCommandCode::MSP_BF_BUILD_INFO => 69,
            MspCommandCode::MSP_ADVANCED_CONFIG => 90,
            MspCommandCode::MSP_SET_ADVANCED_CONFIG => 91,
            MspCommandCode::MSP_FILTER_CONFIG => 92,
            MspCommandCode::MSP_SET_FILTER_CONFIG => 93,
            MspCommandCode::MSP_PID_ADVANCED => 94,
            MspCommandCode::MSP_SET_PID_ADVANCED => 95,
            MspCommandCode::MSP_SENSOR_CONFIG => 96,
            MspCommandCode::MSP_SET_SENSOR_CONFIG => 97,
            MspCommandCode::MSP2_COMMON_SETTING => 0x1003,
            MspCommandCode::MSP2_COMMON_SET_SETTING => 0x1004,
            MspCommandCode::MSP2_MOTOR_MIXER => 0x1005,
            MspCommandCode::MSP2_SET_MOTOR_MIXER => 0x1006,
            MspCommandCode::MSP2_COMMON_SETTING_INFO => 0x1007,
            MspCommandCode::MSP2_COMMON_PG_LIST => 0x1008,
            MspCommandCode::MSP2_SERIAL_CONFIG => 0x1009,
            MspCommandCode::MSP2_SET_SERIAL_CONFIG => 0x100A,
            MspCommandCode::MSP2_INAV_OSD_LAYOUTS => 0x2012,
            MspCommandCode::MSP2_INAV_OSD_SET_LAYOUT_ITEM => 0x2013,
            MspCommandCode::MSP2_INAV_OSD_ALARMS => 0x2014,
            MspCommandCode::MSP2_INAV_OSD_SET_ALARMS => 0x2015,
            MspCommandCode::MSP2_INAV_OSD_PREFERENCES => 0x2016,
            MspCommandCode::MSP2_INAV_OSD_SET_PREFERENCES => 0x2017,
            MspCommandCode::MSP2_INAV_SERVO_MIXER => 0x2020,
            MspCommandCode::MSP2_INAV_SET_SERVO_MIXER => 0x2021,
        }
    }

    /// The command a numeric code stands for, if the registry knows it.
    pub open spec fn spec_from_code(v: u16) -> Option<MspCommandCode> {
        if v == 1 {
            Some(MspCommandCode::MSP_API_VERSION)
        } else if v == 2 {
            Some(MspCommandCode::MSP_FC_VARIANT)
        } else if v == 3 {
            Some(MspCommandCode::MSP_FC_VERSION)
        } else if v == 4 {
            Some(MspCommandCode::MSP_BOARD_INFO)
        } else if v == 5 {
            Some(MspCommandCode::MSP_BUILD_INFO)
        } else if v == 32 {
            Some(MspCommandCode::MSP_BATTERY_CONFIG)
        } else if v == 33 {
            Some(MspCommandCode::MSP_SET_BATTERY_CONFIG)
        } else if v == 34 {
            Some(MspCommandCode::MSP_MODE_RANGES)
        } else if v == 35 {
            Some(MspCommandCode::MSP_SET_MODE_RANGE)
        } else if v == 36 {
            Some(MspCommandCode::MSP_FEATURE)
        } else if v == 37 {
            Some(MspCommandCode::MSP_SET_FEATURE)
        } else if v == 38 {
            Some(MspCommandCode::MSP_BOARD_ALIGNMENT)
        } else if v == 39 {
            Some(MspCommandCode::MSP_SET_BOARD_ALIGNMENT)
        } else if v == 40 {
            Some(MspCommandCode::MSP_AMPERAGE_METER_CONFIG)
        } else if v == 41 {
            Some(MspCommandCode::MSP_SET_AMPERAGE_METER_CONFIG)
        } else if v == 42 {
            Some(MspCommandCode::MSP_MIXER)
        } else if v == 43 {
            Some(MspCommandCode::MSP_SET_MIXER)
        } else if v == 44 {
            Some(MspCommandCode::MSP_RX_CONFIG)
        } else if v == 45 {
            Some(MspCommandCode::MSP_SET_RX_CONFIG)
        } else if v == 46 {
            Some(MspCommandCode::MSP_LED_COLORS)
        } else if v == 47 {
            Some(MspCommandCode::MSP_SET_LED_COLORS)
        } else if v == 48 {
            Some(MspCommandCode::MSP_LED_STRIP_CONFIG)
        } else if v == 49 {
            Some(MspCommandCode::MSP_SET_LED_STRIP_CONFIG)
        } else if v == 50 {
            Some(MspCommandCode::MSP_RSSI_CONFIG)
        } else if v == 51 {
            Some(MspCommandCode::MSP_SET_RSSI_CONFIG)
        } else if v == 52 {
            Some(MspCommandCode::MSP_ADJUSTMENT_RANGES)
        } else if v == 53 {
            Some(MspCommandCode::MSP_SET_ADJUSTMENT_RANGE)
        } else if v == 54 {
            Some(MspCommandCode::MSP_CF_SERIAL_CONFIG)
        } else if v == 55 {
            Some(MspCommandCode::MSP_SET_CF_SERIAL_CONFIG)
        } else if v == 56 {
            Some(MspCommandCode::MSP_VOLTAGE_METER_CONFIG)
        } else if v == 57 {
            Some(MspCommandCode::MSP_SET_VOLTAGE_METER_CONFIG)
        } else if v == 58 {
            Some(MspCommandCode::MSP_SONAR)
        } else if v == 59 {
            Some(MspCommandCode::MSP_PID_CONTROLLER)
        } else if v == 60 {
            Some(MspCommandCode::MSP_SET_PID_CONTROLLER)
        } else if v == 61 {
            Some(MspCommandCode::MSP_ARMING_CONFIG)
        } else if v == 62 {
            Some(MspCommandCode::MSP_SET_ARMING_CONFIG)
        } else if v == 70 {
            Some(MspCommandCode::MSP_DATAFLASH_SUMMARY)
        } else if v == 71 {
            Some(MspCommandCode::MSP_DATAFLASH_READ)
        } else if v == 72 {
            Some(MspCommandCode::MSP_DATAFLASH_ERASE)
        } else if v == 73 {
            Some(MspCommandCode::MSP_LOOP_TIME)
        } else if v == 74 {
            Some(MspCommandCode::MSP_SET_LOOP_TIME)
        } else if v == 75 {
            Some(MspCommandCode::MSP_FAILSAFE_CONFIG)
        } else if v == 76 {
            Some(MspCommandCode::MSP_SET_FAILSAFE_CONFIG)
        } else if v == 77 {
            Some(MspCommandCode::MSP_RXFAIL_CONFIG)
        } else if v == 78 {
            Some(MspCommandCode::MSP_SET_RXFAIL_CONFIG)
        } else if v == 79 {
            Some(MspCommandCode::MSP_SDCARD_SUMMARY)
        } else if v == 80 {
            Some(MspCommandCode::MSP_BLACKBOX_CONFIG)
        } else if v == 81 {
            Some(MspCommandCode::MSP_SET_BLACKBOX_CONFIG)
        } else if v == 82 {
            Some(MspCommandCode::MSP_TRANSPONDER_CONFIG)
        } else if v == 83 {
            Some(MspCommandCode::MSP_SET_TRANSPONDER_CONFIG)
        } else if v == 84 {
            Some(MspCommandCode::MSP_OSD_CONFIG)
        } else if v == 85 {
            Some(MspCommandCode::MSP_SET_OSD_CONFIG)
        } else if v == 86 {
            Some(MspCommandCode::MSP_OSD_CHAR_READ)
        } else if v == 87 {
            Some(MspCommandCode::MSP_OSD_CHAR_WRITE)
        } else if v == 127 {
            Some(MspCommandCode::MSP_LED_STRIP_MODECOLOR)
        } else if v == 221 {
            Some(MspCommandCode::MSP_SET_LED_STRIP_MODECOLOR)
        } else if v == 128 {
            Some(MspCommandCode::MSP_VOLTAGE_METERS)
        } else if v == 129 {
            Some(MspCommandCode::MSP_AMPERAGE_METERS)
        } else if v == 130 {
            Some(MspCommandCode::MSP_BATTERY_STATE)
        } else if v == 131 {
            Some(MspCommandCode::MSP_MOTOR_CONFIG)
        } else if v == 180 {
            Some(MspCommandCode::MSP_OSD_VIDEO_CONFIG)
        } else if v == 181 {
            Some(MspCommandCode::MSP_SET_OSD_VIDEO_CONFIG)
        } else if v == 182 {
            Some(MspCommandCode::MSP_OSD_VIDEO_STATUS)
        } else if v == 183 {
            Some(MspCommandCode::MSP_OSD_ELEMENT_SUMMARY)
        } else if v == 184 {
            Some(MspCommandCode::MSP_OSD_LAYOUT_CONFIG)
        } else if v == 185 {
            Some(MspCommandCode::MSP_SET_OSD_LAYOUT_CONFIG)
        } else if v == 100 {
            Some(MspCommandCode::MSP_IDENT)
        } else if v == 101 {
            Some(MspCommandCode::MSP_STATUS)
        } else if v == 102 {
            Some(MspCommandCode::MSP_RAW_IMU)
        } else if v == 103 {
            Some(MspCommandCode::MSP_SERVO)
        } else if v == 104 {
            Some(MspCommandCode::MSP_MOTOR)
        } else if v == 105 {
            Some(MspCommandCode::MSP_RC)
        } else if v == 106 {
            Some(MspCommandCode::MSP_RAW_GPS)
        } else if v == 107 {
            Some(MspCommandCode::MSP_COMP_GPS)
        } else if v == 108 {
            Some(MspCommandCode::MSP_ATTITUDE)
        } else if v == 109 {
            Some(MspCommandCode::MSP_ALTITUDE)
        } else if v == 110 {
            Some(MspCommandCode::MSP_ANALOG)
        } else if v == 111 {
            Some(MspCommandCode::MSP_RC_TUNING)
        } else if v == 112 {
            Some(MspCommandCode::MSP_PID)
        } else if v == 113 {
            Some(MspCommandCode::MSP_BOX)
        } else if v == 114 {
            Some(MspCommandCode::MSP_MISC)
        } else if v == 115 {
            Some(MspCommandCode::MSP_MOTOR_PINS)
        } else if v == 116 {
            Some(MspCommandCode::MSP_BOXNAMES)
        } else if v == 117 {
            Some(MspCommandCode::MSP_PIDNAMES)
        } else if v == 118 {
            Some(MspCommandCode::MSP_WP)
        } else if v == 119 {
            Some(MspCommandCode::MSP_BOXIDS)
        } else if v == 120 {
            Some(MspCommandCode::MSP_SERVO_CONFIGURATIONS)
        } else if v == 124 {
            Some(MspCommandCode::MSP_MOTOR_3D_CONFIG)
        } else if v == 125 {
            Some(MspCommandCode::MSP_RC_DEADBAND)
        } else if v == 126 {
            Some(MspCommandCode::MSP_SENSOR_ALIGNMENT)
        } else if v == 200 {
            Some(MspCommandCode::MSP_SET_RAW_RC)
        } else if v == 201 {
            Some(MspCommandCode::MSP_SET_RAW_GPS)
        } else if v == 202 {
            Some(MspCommandCode::MSP_SET_PID)
        } else if v == 203 {
            Some(MspCommandCode::MSP_SET_BOX)
        } else if v == 204 {
            Some(MspCommandCode::MSP_SET_RC_TUNING)
        } else if v == 205 {
            Some(MspCommandCode::MSP_ACC_CALIBRATION)
        } else if v == 206 {
            Some(MspCommandCode::MSP_MAG_CALIBRATION)
        } else if v == 207 {
            Some(MspCommandCode::MSP_SET_MISC)
        } else if v == 208 {
            Some(MspCommandCode::MSP_RESET_CONF)
        } else if v == 209 {
            Some(MspCommandCode::MSP_SET_WP)
        } else if v == 210 {
            Some(MspCommandCode::MSP_SELECT_SETTING)
        } else if v == 211 {
            Some(MspCommandCode::MSP_SET_HEAD)
        } else if v == 212 {
            Some(MspCommandCode::MSP_SET_SERVO_CONFIGURATION)
        } else if v == 214 {
            Some(MspCommandCode::MSP_SET_MOTOR)
        } else if v == 217 {
            Some(MspCommandCode::MSP_SET_3D)
        } else if v == 218 {
            Some(MspCommandCode::MSP_SET_RC_DEADBAND)
        } else if v == 219 {
            Some(MspCommandCode::MSP_SET_RESET_CURR_PID)
        } else if v == 220 {
            Some(MspCommandCode::MSP_SET_SENSOR_ALIGNMENT)
        } else if v == 241 {
            Some(MspCommandCode::MSP_SERVO_MIX_RULES)
        } else if v == 242 {
            Some(MspCommandCode::MSP_SET_SERVO_MIX_RULE)
        } else if v == 250 {
            Some(MspCommandCode::MSP_EEPROM_WRITE)
        } else if v == 253 {
            Some(MspCommandCode::MSP_DEBUGMSG)
        } else if v == 254 {
            Some(MspCommandCode::MSP_DEBUG)
        } else if v == 66 {
            Some(MspCommandCode::MSP_BF_CONFIG)
        } else if v == 160 {
            Some(MspCommandCode::MSP_UID)
        } else if v == 150 {
            Some(MspCommandCode::MSP_STATUS_EX)
        } else if v == 240 {
            Some(MspCommandCode::MSP_ACC_TRIM)
        } else if v == 239 {
            Some(MspCommandCode::MSP_SET_ACC_TRIM)
        } else if v == 164 {
            Some(MspCommandCode::MSP_GPS_SV_INFO)
        } else if v == 64 {
            Some(MspCommandCode::MSP_RX_MAP)
        } else if v == 65 {
            Some(MspCommandCode::MSP_SET_RX_MAP)
        } else if v == 68 {
            Some(MspCommandCode::MSP_SET_REBOOT)
        } else if v == 69 {
            Some(MspCommandCode::MSP_BF_BUILD_INFO)
        } else if v == 90 {
            Some(MspCommandCode::MSP_ADVANCED_CONFIG)
        } else if v == 91 {
            Some(MspCommandCode::MSP_SET_ADVANCED_CONFIG)
        } else if v == 92 {
            Some(MspCommandCode::MSP_FILTER_CONFIG)
        } else if v == 93 {
            Some(MspCommandCode::MSP_SET_FILTER_CONFIG)
        } else if v == 94 {
            Some(MspCommandCode::MSP_PID_ADVANCED)
        } else if v == 95 {
            Some(MspCommandCode::MSP_SET_PID_ADVANCED)
        } else if v == 96 {
            Some(MspCommandCode::MSP_SENSOR_CONFIG)
        } else if v == 97 {
            Some(MspCommandCode::MSP_SET_SENSOR_CONFIG)
        } else if v == 0x1003 {
            Some(MspCommandCode::MSP2_COMMON_SETTING)
        } else if v == 0x1004 {
            Some(MspCommandCode::MSP2_COMMON_SET_SETTING)
        } else if v == 0x1005 {
            Some(MspCommandCode::MSP2_MOTOR_MIXER)
        } else if v == 0x1006 {
            Some(MspCommandCode::MSP2_SET_MOTOR_MIXER)
        } else if v == 0x1007 {
            Some(MspCommandCode::MSP2_COMMON_SETTING_INFO)
        } else if v == 0x1008 {
            Some(MspCommandCode::MSP2_COMMON_PG_LIST)
        } else if v == 0x1009 {
            Some(MspCommandCode::MSP2_SERIAL_CONFIG)
        } else if v == 0x100A {
            Some(MspCommandCode::MSP2_SET_SERIAL_CONFIG)
        } else if v == 0x2012 {
            Some(MspCommandCode::MSP2_INAV_OSD_LAYOUTS)
        } else if v == 0x2013 {
            Some(MspCommandCode::MSP2_INAV_OSD_SET_LAYOUT_ITEM)
        } else if v == 0x2014 {
            Some(MspCommandCode::MSP2_INAV_OSD_ALARMS)
        } else if v == 0x2015 {
            Some(MspCommandCode::MSP2_INAV_OSD_SET_ALARMS)
        } else if v == 0x2016 {
            Some(MspCommandCode::MSP2_INAV_OSD_PREFERENCES)
        } else if v == 0x2017 {
            Some(MspCommandCode::MSP2_INAV_OSD_SET_PREFERENCES)
        } else if v == 0x2020 {
            Some(MspCommandCode::MSP2_INAV_SERVO_MIXER)
        } else if v == 0x2021 {
            Some(MspCommandCode::MSP2_INAV_SET_SERVO_MIXER)
        } else {
            None
        }
    }

    /// Partial mapping from numeric wire code to command name. A code the
    /// registry does not know yields `UnknownCommand`: data for the caller
    /// to ignore, log or escalate, never an abort.
    pub fn from_code(v: u16) -> (r: Result<MspCommandCode, MspPacketParseError>)
        ensures
            match r {
                Ok(c) => Self::spec_from_code(v) == Some(c),
                Err(e) => e == MspPacketParseError::UnknownCommand
                    && Self::spec_from_code(v) == None::<MspCommandCode>,
            },
    {
        match v {
            1 => Ok(MspCommandCode::MSP_API_VERSION),
            2 => Ok(MspCommandCode::MSP_FC_VARIANT),
            3 => Ok(MspCommandCode::MSP_FC_VERSION),
            4 => Ok(MspCommandCode::MSP_BOARD_INFO),
            5 => Ok(MspCommandCode::MSP_BUILD_INFO),
            32 => Ok(MspCommandCode::MSP_BATTERY_CONFIG),
            33 => Ok(MspCommandCode::MSP_SET_BATTERY_CONFIG),
            34 => Ok(MspCommandCode::MSP_MODE_RANGES),
            35 => Ok(MspCommandCode::MSP_SET_MODE_RANGE),
            36 => Ok(MspCommandCode::MSP_FEATURE),
            37 => Ok(MspCommandCode::MSP_SET_FEATURE),
            38 => Ok(MspCommandCode::MSP_BOARD_ALIGNMENT),
            39 => Ok(MspCommandCode::MSP_SET_BOARD_ALIGNMENT),
            40 => Ok(MspCommandCode::MSP_AMPERAGE_METER_CONFIG),
            41 => Ok(MspCommandCode::MSP_SET_AMPERAGE_METER_CONFIG),
            42 => Ok(MspCommandCode::MSP_MIXER),
            43 => Ok(MspCommandCode::MSP_SET_MIXER),
            44 => Ok(MspCommandCode::MSP_RX_CONFIG),
            45 => Ok(MspCommandCode::MSP_SET_RX_CONFIG),
            46 => Ok(MspCommandCode::MSP_LED_COLORS),
            47 => Ok(MspCommandCode::MSP_SET_LED_COLORS),
            48 => Ok(MspCommandCode::MSP_LED_STRIP_CONFIG),
            49 => Ok(MspCommandCode::MSP_SET_LED_STRIP_CONFIG),
            50 => Ok(MspCommandCode::MSP_RSSI_CONFIG),
            51 => Ok(MspCommandCode::MSP_SET_RSSI_CONFIG),
            52 => Ok(MspCommandCode::MSP_ADJUSTMENT_RANGES),
            53 => Ok(MspCommandCode::MSP_SET_ADJUSTMENT_RANGE),
            54 => Ok(MspCommandCode::MSP_CF_SERIAL_CONFIG),
            55 => Ok(MspCommandCode::MSP_SET_CF_SERIAL_CONFIG),
            56 => Ok(MspCommandCode::MSP_VOLTAGE_METER_CONFIG),
            57 => Ok(MspCommandCode::MSP_SET_VOLTAGE_METER_CONFIG),
            58 => Ok(MspCommandCode::MSP_SONAR),
            59 => Ok(MspCommandCode::MSP_PID_CONTROLLER),
            60 => Ok(MspCommandCode::MSP_SET_PID_CONTROLLER),
            61 => Ok(MspCommandCode::MSP_ARMING_CONFIG),
            62 => Ok(MspCommandCode::MSP_SET_ARMING_CONFIG),
            70 => Ok(MspCommandCode::MSP_DATAFLASH_SUMMARY),
            71 => Ok(MspCommandCode::MSP_DATAFLASH_READ),
            72 => Ok(MspCommandCode::MSP_DATAFLASH_ERASE),
            73 => Ok(MspCommandCode::MSP_LOOP_TIME),
            74 => Ok(MspCommandCode::MSP_SET_LOOP_TIME),
            75 => Ok(MspCommandCode::MSP_FAILSAFE_CONFIG),
            76 => Ok(MspCommandCode::MSP_SET_FAILSAFE_CONFIG),
            77 => Ok(MspCommandCode::MSP_RXFAIL_CONFIG),
            78 => Ok(MspCommandCode::MSP_SET_RXFAIL_CONFIG),
            79 => Ok(MspCommandCode::MSP_SDCARD_SUMMARY),
            80 => Ok(MspCommandCode::MSP_BLACKBOX_CONFIG),
            81 => Ok(MspCommandCode::MSP_SET_BLACKBOX_CONFIG),
            82 => Ok(MspCommandCode::MSP_TRANSPONDER_CONFIG),
            83 => Ok(MspCommandCode::MSP_SET_TRANSPONDER_CONFIG),
            84 => Ok(MspCommandCode::MSP_OSD_CONFIG),
            85 => Ok(MspCommandCode::MSP_SET_OSD_CONFIG),
            86 => Ok(MspCommandCode::MSP_OSD_CHAR_READ),
            87 => Ok(MspCommandCode::MSP_OSD_CHAR_WRITE),
            127 => Ok(MspCommandCode::MSP_LED_STRIP_MODECOLOR),
            221 => Ok(MspCommandCode::MSP_SET_LED_STRIP_MODECOLOR),
            128 => Ok(MspCommandCode::MSP_VOLTAGE_METERS),
            129 => Ok(MspCommandCode::MSP_AMPERAGE_METERS),
            130 => Ok(MspCommandCode::MSP_BATTERY_STATE),
            131 => Ok(MspCommandCode::MSP_MOTOR_CONFIG),
            180 => Ok(MspCommandCode::MSP_OSD_VIDEO_CONFIG),
            181 => Ok(MspCommandCode::MSP_SET_OSD_VIDEO_CONFIG),
            182 => Ok(MspCommandCode::MSP_OSD_VIDEO_STATUS),
            183 => Ok(MspCommandCode::MSP_OSD_ELEMENT_SUMMARY),
            184 => Ok(MspCommandCode::MSP_OSD_LAYOUT_CONFIG),
            185 => Ok(MspCommandCode::MSP_SET_OSD_LAYOUT_CONFIG),
            100 => Ok(MspCommandCode::MSP_IDENT),
            101 => Ok(MspCommandCode::MSP_STATUS),
            102 => Ok(MspCommandCode::MSP_RAW_IMU),
            103 => Ok(MspCommandCode::MSP_SERVO),
            104 => Ok(MspCommandCode::MSP_MOTOR),
            105 => Ok(MspCommandCode::MSP_RC),
            106 => Ok(MspCommandCode::MSP_RAW_GPS),
            107 => Ok(MspCommandCode::MSP_COMP_GPS),
            108 => Ok(MspCommandCode::MSP_ATTITUDE),
            109 => Ok(MspCommandCode::MSP_ALTITUDE),
            110 => Ok(MspCommandCode::MSP_ANALOG),
            111 => Ok(MspCommandCode::MSP_RC_TUNING),
            112 => Ok(MspCommandCode::MSP_PID),
            113 => Ok(MspCommandCode::MSP_BOX),
            114 => Ok(MspCommandCode::MSP_MISC),
            115 => Ok(MspCommandCode::MSP_MOTOR_PINS),
            116 => Ok(MspCommandCode::MSP_BOXNAMES),
            117 => Ok(MspCommandCode::MSP_PIDNAMES),
            118 => Ok(MspCommandCode::MSP_WP),
            119 => Ok(MspCommandCode::MSP_BOXIDS),
            120 => Ok(MspCommandCode::MSP_SERVO_CONFIGURATIONS),
            124 => Ok(MspCommandCode::MSP_MOTOR_3D_CONFIG),
            125 => Ok(MspCommandCode::MSP_RC_DEADBAND),
            126 => Ok(MspCommandCode::MSP_SENSOR_ALIGNMENT),
            200 => Ok(MspCommandCode::MSP_SET_RAW_RC),
            201 => Ok(MspCommandCode::MSP_SET_RAW_GPS),
            202 => Ok(MspCommandCode::MSP_SET_PID),
            203 => Ok(MspCommandCode::MSP_SET_BOX),
            204 => Ok(MspCommandCode::MSP_SET_RC_TUNING),
            205 => Ok(MspCommandCode::MSP_ACC_CALIBRATION),
            206 => Ok(MspCommandCode::MSP_MAG_CALIBRATION),
            207 => Ok(MspCommandCode::MSP_SET_MISC),
            208 => Ok(MspCommandCode::MSP_RESET_CONF),
            209 => Ok(MspCommandCode::MSP_SET_WP),
            210 => Ok(MspCommandCode::MSP_SELECT_SETTING),
            211 => Ok(MspCommandCode::MSP_SET_HEAD),
            212 => Ok(MspCommandCode::MSP_SET_SERVO_CONFIGURATION),
            214 => Ok(MspCommandCode::MSP_SET_MOTOR),
            217 => Ok(MspCommandCode::MSP_SET_3D),
            218 => Ok(MspCommandCode::MSP_SET_RC_DEADBAND),
            219 => Ok(MspCommandCode::MSP_SET_RESET_CURR_PID),
            220 => Ok(MspCommandCode::MSP_SET_SENSOR_ALIGNMENT),
            241 => Ok(MspCommandCode::MSP_SERVO_MIX_RULES),
            242 => Ok(MspCommandCode::MSP_SET_SERVO_MIX_RULE),
            250 => Ok(MspCommandCode::MSP_EEPROM_WRITE),
            253 => Ok(MspCommandCode::MSP_DEBUGMSG),
            254 => Ok(MspCommandCode::MSP_DEBUG),
            66 => Ok(MspCommandCode::MSP_BF_CONFIG),
            160 => Ok(MspCommandCode::MSP_UID),
            150 => Ok(MspCommandCode::MSP_STATUS_EX),
            240 => Ok(MspCommandCode::MSP_ACC_TRIM),
            239 => Ok(MspCommandCode::MSP_SET_ACC_TRIM),
            164 => Ok(MspCommandCode::MSP_GPS_SV_INFO),
            64 => Ok(MspCommandCode::MSP_RX_MAP),
            65 => Ok(MspCommandCode::MSP_SET_RX_MAP),
            68 => Ok(MspCommandCode::MSP_SET_REBOOT),
            69 => Ok(MspCommandCode::MSP_BF_BUILD_INFO),
            90 => Ok(MspCommandCode::MSP_ADVANCED_CONFIG),
            91 => Ok(MspCommandCode::MSP_SET_ADVANCED_CONFIG),
            92 => Ok(MspCommandCode::MSP_FILTER_CONFIG),
            93 => Ok(MspCommandCode::MSP_SET_FILTER_CONFIG),
            94 => Ok(MspCommandCode::MSP_PID_ADVANCED),
            95 => Ok(MspCommandCode::MSP_SET_PID_ADVANCED),
            96 => Ok(MspCommandCode::MSP_SENSOR_CONFIG),
            97 => Ok(MspCommandCode::MSP_SET_SENSOR_CONFIG),
            0x1003 => Ok(MspCommandCode::MSP2_COMMON_SETTING),
            0x1004 => Ok(MspCommandCode::MSP2_COMMON_SET_SETTING),
            0x1005 => Ok(MspCommandCode::MSP2_MOTOR_MIXER),
            0x1006 => Ok(MspCommandCode::MSP2_SET_MOTOR_MIXER),
            0x1007 => Ok(MspCommandCode::MSP2_COMMON_SETTING_INFO),
            0x1008 => Ok(MspCommandCode::MSP2_COMMON_PG_LIST),
            0x1009 => Ok(MspCommandCode::MSP2_SERIAL_CONFIG),
            0x100A => Ok(MspCommandCode::MSP2_SET_SERIAL_CONFIG),
            0x2012 => Ok(MspCommandCode::MSP2_INAV_OSD_LAYOUTS),
            0x2013 => Ok(MspCommandCode::MSP2_INAV_OSD_SET_LAYOUT_ITEM),
            0x2014 => Ok(MspCommandCode::MSP2_INAV_OSD_ALARMS),
            0x2015 => Ok(MspCommandCode::MSP2_INAV_OSD_SET_ALARMS),
            0x2016 => Ok(MspCommandCode::MSP2_INAV_OSD_PREFERENCES),
            0x2017 => Ok(MspCommandCode::MSP2_INAV_OSD_SET_PREFERENCES),
            0x2020 => Ok(MspCommandCode::MSP2_INAV_SERVO_MIXER),
            0x2021 => Ok(MspCommandCode::MSP2_INAV_SET_SERVO_MIXER),
            _ => Err(MspPacketParseError::UnknownCommand),
        }
    }
}

/// The registry is consistent: reading a command's own code back through
/// the partial mapping yields that command again.
pub proof fn lemma_registry_roundtrip(c: MspCommandCode)
    ensures
        MspCommandCode::spec_from_code(c.spec_code()) == Some(c),
{
}

/// The registry is sound: whatever command the partial mapping yields for
/// a code carries exactly that code.
pub proof fn lemma_registry_sound(v: u16)
    ensures
        match MspCommandCode::spec_from_code(v) {
            Some(c) => c.spec_code() == v,
            None => true,
        },
{
}

} // verus!

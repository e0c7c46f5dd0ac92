use vstd::prelude::*;
use crate::operation::Operation;

verus! {

/// Every PMBus command code, one variant per byte value in declaration
/// order, so the variant's discriminant is the code itself.  Codes the
/// protocol table leaves unassigned carry a reserved variant of their
/// own: every byte maps to exactly one variant, never to absence.
#[derive(Copy, Clone, Debug, PartialEq, Eq, Structural)]
#[allow(non_camel_case_types)]
pub enum CommandCode {
    PAGE,
    OPERATION,
    ON_OFF_CONFIG,
    CLEAR_FAULTS,
    PHASE,
    PAGE_PLUS_WRITE,
    PAGE_PLUS_READ,
    ZONE_CONFIG,
    ZONE_ACTIVE,
    Reserved09,
    Reserved0A,
    Reserved0B,
    Reserved0C,
    Reserved0D,
    Reserved0E,
    Reserved0F,
    WRITE_PROTECT,
    STORE_DEFAULT_ALL,
    RESTORE_DEFAULT_ALL,
    STORE_DEFAULT_CODE,
    RESTORE_DEFAULT_CODE,
    STORE_USER_ALL,
    RESTORE_USER_ALL,
    STORE_USER_CODE,
    RESTORE_USER_CODE,
    CAPABILITY,
    QUERY,
    SMBALERT_MASK,
    Reserved1C,
    Reserved1D,
    Reserved1E,
    Reserved1F,
    VOUT_MODE,
    VOUT_COMMAND,
    VOUT_TRIM,
    VOUT_CAL_OFFSET,
    VOUT_MAX,
    VOUT_MARGIN_HIGH,
    VOUT_MARGIN_LOW,
    VOUT_TRANSITION_RATE,
    VOUT_DROOP,
    VOUT_SCALE_LOOP,
    VOUT_SCALE_MONITOR,
    VOUT_MIN,
    Reserved2C,
    Reserved2D,
    Reserved2E,
    Reserved2F,
    COEFFICIENTS,
    POUT_MAX,
    MAX_DUTY,
    FREQUENCY_SWITCH,
    POWER_MODE,
    VIN_ON,
    VIN_OFF,
    INTERLEAVE,
    IOUT_CAL_GAIN,
    IOUT_CAL_OFFSET,
    FAN_CONFIG_1_2,
    FAN_COMMAND_1,
    FAN_COMMAND_2,
    FAN_CONFIG_3_4,
    FAN_COMMAND_3,
    FAN_COMMAND_4,
    VOUT_OV_FAULT_LIMIT,
    VOUT_OV_FAULT_RESPONSE,
    VOUT_OV_WARN_LIMIT,
    VOUT_UV_WARN_LIMIT,
    VOUT_UV_FAULT_LIMIT,
    VOUT_UV_FAULT_RESPONSE,
    IOUT_OC_FAULT_LIMIT,
    IOUT_OC_FAULT_RESPONSE,
    IOUT_OC_LV_FAULT_LIMIT,
    IOUT_OC_LV_FAULT_RESPONSE,
    IOUT_OC_WARN_LIMIT,
    IOUT_UC_FAULT_LIMIT,
    IOUT_UC_FAULT_RESPONSE,
    Reserved4D,
    Reserved4E,
    OT_FAULT_LIMIT,
    OT_FAULT_RESPONSE,
    OT_WARN_LIMIT,
    UT_WARN_LIMIT,
    UT_FAULT_LIMIT,
    UT_FAULT_RESPONSE,
    VIN_OV_FAULT_LIMIT,
    VIN_OV_FAULT_RESPONSE,
    VIN_OV_WARN_LIMIT,
    VIN_UV_WARN_LIMIT,
    VIN_UV_FAULT_LIMIT,
    VIN_UV_FAULT_RESPONSE,
    IIN_OC_FAULT_LIMIT,
    IIN_OC_FAULT_RESPONSE,
    IIN_OC_WARN_LIMIT,
    POWER_GOOD_ON,
    POWER_GOOD_OFF,
    TON_DELAY,
    TON_RISE,
    TON_MAX_FAULT_LIMIT,
    TON_MAX_FAULT_RESPONSE,
    TOFF_DELAY,
    TOFF_FALL,
    TOFF_MAX_WARN_LIMIT,
    Deprecated,
    POUT_OP_FAULT_LIMIT,
    POUT_OP_FAULT_RESPONSE,
    POUT_OP_WARN_LIMIT,
    PIN_OP_WARN_LIMIT,
    Reserved6C,
    Reserved6D,
    Reserved6E,
    Reserved6F,
    Reserved70,
    Reserved71,
    Reserved72,
    Reserved73,
    Reserved74,
    Reserved75,
    Reserved76,
    Reserved77,
    STATUS_BYTE,
    STATUS_WORD,
    STATUS_VOUT,
    STATUS_IOUT,
    STATUS_INPUT,
    STATUS_TEMPERATURE,
    STATUS_CML,
    STATUS_OTHER,
    STATUS_MFR_SPECIFIC,
    STATUS_FANS_1_2,
    STATUS_FANS_3_4,
    READ_KWH_IN,
    READ_KWH_OUT,
    READ_KWH_CONFIG,
    READ_EIN,
    READ_EOUT,
    READ_VIN,
    READ_IIN,
    READ_VCAP,
    READ_VOUT,
    READ_IOUT,
    READ_TEMPERATURE_1,
    READ_TEMPERATURE_2,
    READ_TEMPERATURE_3,
    READ_FAN_SPEED_1,
    READ_FAN_SPEED_2,
    READ_FAN_SPEED_3,
    READ_FAN_SPEED_4,
    READ_DUTY_CYCLE,
    READ_FREQUENCY,
    READ_POUT,
    READ_PIN,
    PMBUS_REVISION,
    MFR_ID,
    MFR_MODEL,
    MFR_REVISION,
    MFR_LOCATION,
    MFR_DATE,
    MFR_SERIAL,
    APP_PROFILE_SUPPORT,
    MFR_VIN_MIN,
    MFR_VIN_MAX,
    MFR_IIN_MAX,
    MFR_PIN_MAX,
    MFR_VOUT_MIN,
    MFR_VOUT_MAX,
    MFR_IOUT_MAX,
    MFR_POUT_MAX,
    MFR_TAMBIENT_MAX,
    MFR_TAMBIENT_MIN,
    MFR_EFFICIENCY_LL,
    MFR_EFFICIENCY_HL,
    MFR_PIN_ACCURACY,
    IC_DEVICE_ID,
    IC_DEVICE_REV,
    ReservedAF,
    USER_DATA_00,
    USER_DATA_01,
    USER_DATA_02,
    USER_DATA_03,
    USER_DATA_04,
    USER_DATA_05,
    USER_DATA_06,
    USER_DATA_07,
    USER_DATA_08,
    USER_DATA_09,
    USER_DATA_10,
    USER_DATA_11,
    USER_DATA_12,
    USER_DATA_13,
    USER_DATA_14,
    USER_DATA_15,
    MFR_MAX_TEMP_1,
    MFR_MAX_TEMP_2,
    MFR_MAX_TEMP_3,
    ReservedC3,
    MFR_SPECIFIC_C4,
    MFR_SPECIFIC_C5,
    MFR_SPECIFIC_C6,
    MFR_SPECIFIC_C7,
    MFR_SPECIFIC_C8,
    MFR_SPECIFIC_C9,
    MFR_SPECIFIC_CA,
    MFR_SPECIFIC_CB,
    MFR_SPECIFIC_CC,
    MFR_SPECIFIC_CD,
    MFR_SPECIFIC_CE,
    MFR_SPECIFIC_CF,
    MFR_SPECIFIC_D0,
    MFR_SPECIFIC_D1,
    MFR_SPECIFIC_D2,
    MFR_SPECIFIC_D3,
    MFR_SPECIFIC_D4,
    MFR_SPECIFIC_D5,
    MFR_SPECIFIC_D6,
    MFR_SPECIFIC_D7,
    MFR_SPECIFIC_D8,
    MFR_SPECIFIC_D9,
    MFR_SPECIFIC_DA,
    MFR_SPECIFIC_DB,
    MFR_SPECIFIC_DC,
    MFR_SPECIFIC_DD,
    MFR_SPECIFIC_DE,
    MFR_SPECIFIC_DF,
    MFR_SPECIFIC_E0,
    MFR_SPECIFIC_E1,
    MFR_SPECIFIC_E2,
    MFR_SPECIFIC_E3,
    MFR_SPECIFIC_E4,
    MFR_SPECIFIC_E5,
    MFR_SPECIFIC_E6,
    MFR_SPECIFIC_E7,
    MFR_SPECIFIC_E8,
    MFR_SPECIFIC_E9,
    MFR_SPECIFIC_EA,
    MFR_SPECIFIC_EB,
    MFR_SPECIFIC_EC,
    MFR_SPECIFIC_ED,
    MFR_SPECIFIC_EE,
    MFR_SPECIFIC_EF,
    MFR_SPECIFIC_F0,
    MFR_SPECIFIC_F1,
    MFR_SPECIFIC_F2,
    MFR_SPECIFIC_F3,
    MFR_SPECIFIC_F4,
    MFR_SPECIFIC_F5,
    MFR_SPECIFIC_F6,
    MFR_SPECIFIC_F7,
    MFR_SPECIFIC_F8,
    MFR_SPECIFIC_F9,
    MFR_SPECIFIC_FA,
    MFR_SPECIFIC_FB,
    MFR_SPECIFIC_FC,
    MFR_SPECIFIC_FD,
    MFR_SPECIFIC_COMMAND_EXT,
    PMBUS_COMMAND_EXT,
}

/// The byte value of a command code.
pub open spec fn code_spec(c: CommandCode) -> u8 {
    match c {
        CommandCode::PAGE => 0x00,
        CommandCode::OPERATION => 0x01,
        CommandCode::ON_OFF_CONFIG => 0x02,
        CommandCode::CLEAR_FAULTS => 0x03,
        CommandCode::PHASE => 0x04,
        CommandCode::PAGE_PLUS_WRITE => 0x05,
        CommandCode::PAGE_PLUS_READ => 0x06,
        CommandCode::ZONE_CONFIG => 0x07,
        CommandCode::ZONE_ACTIVE => 0x08,
        CommandCode::Reserved09 => 0x09,
        CommandCode::Reserved0A => 0x0a,
        CommandCode::Reserved0B => 0x0b,
        CommandCode::Reserved0C => 0x0c,
        CommandCode::Reserved0D => 0x0d,
        CommandCode::Reserved0E => 0x0e,
        CommandCode::Reserved0F => 0x0f,
        CommandCode::WRITE_PROTECT => 0x10,
        CommandCode::STORE_DEFAULT_ALL => 0x11,
        CommandCode::RESTORE_DEFAULT_ALL => 0x12,
        CommandCode::STORE_DEFAULT_CODE => 0x13,
        CommandCode::RESTORE_DEFAULT_CODE => 0x14,
        CommandCode::STORE_USER_ALL => 0x15,
        CommandCode::RESTORE_USER_ALL => 0x16,
        CommandCode::STORE_USER_CODE => 0x17,
        CommandCode::RESTORE_USER_CODE => 0x18,
        CommandCode::CAPABILITY => 0x19,
        CommandCode::QUERY => 0x1a,
        CommandCode::SMBALERT_MASK => 0x1b,
        CommandCode::Reserved1C => 0x1c,
        CommandCode::Reserved1D => 0x1d,
        CommandCode::Reserved1E => 0x1e,
        CommandCode::Reserved1F => 0x1f,
        CommandCode::VOUT_MODE => 0x20,
        CommandCode::VOUT_COMMAND => 0x21,
        CommandCode::VOUT_TRIM => 0x22,
        CommandCode::VOUT_CAL_OFFSET => 0x23,
        CommandCode::VOUT_MAX => 0x24,
        CommandCode::VOUT_MARGIN_HIGH => 0x25,
        CommandCode::VOUT_MARGIN_LOW => 0x26,
        CommandCode::VOUT_TRANSITION_RATE => 0x27,
        CommandCode::VOUT_DROOP => 0x28,
        CommandCode::VOUT_SCALE_LOOP => 0x29,
        CommandCode::VOUT_SCALE_MONITOR => 0x2a,
        CommandCode::VOUT_MIN => 0x2b,
        CommandCode::Reserved2C => 0x2c,
        CommandCode::Reserved2D => 0x2d,
        CommandCode::Reserved2E => 0x2e,
        CommandCode::Reserved2F => 0x2f,
        CommandCode::COEFFICIENTS => 0x30,
        CommandCode::POUT_MAX => 0x31,
        CommandCode::MAX_DUTY => 0x32,
        CommandCode::FREQUENCY_SWITCH => 0x33,
        CommandCode::POWER_MODE => 0x34,
        CommandCode::VIN_ON => 0x35,
        CommandCode::VIN_OFF => 0x36,
        CommandCode::INTERLEAVE => 0x37,
        CommandCode::IOUT_CAL_GAIN => 0x38,
        CommandCode::IOUT_CAL_OFFSET => 0x39,
        CommandCode::FAN_CONFIG_1_2 => 0x3a,
        CommandCode::FAN_COMMAND_1 => 0x3b,
        CommandCode::FAN_COMMAND_2 => 0x3c,
        CommandCode::FAN_CONFIG_3_4 => 0x3d,
        CommandCode::FAN_COMMAND_3 => 0x3e,
        CommandCode::FAN_COMMAND_4 => 0x3f,
        CommandCode::VOUT_OV_FAULT_LIMIT => 0x40,
        CommandCode::VOUT_OV_FAULT_RESPONSE => 0x41,
        CommandCode::VOUT_OV_WARN_LIMIT => 0x42,
        CommandCode::VOUT_UV_WARN_LIMIT => 0x43,
        CommandCode::VOUT_UV_FAULT_LIMIT => 0x44,
        CommandCode::VOUT_UV_FAULT_RESPONSE => 0x45,
        CommandCode::IOUT_OC_FAULT_LIMIT => 0x46,
        CommandCode::IOUT_OC_FAULT_RESPONSE => 0x47,
        CommandCode::IOUT_OC_LV_FAULT_LIMIT => 0x48,
        CommandCode::IOUT_OC_LV_FAULT_RESPONSE => 0x49,
        CommandCode::IOUT_OC_WARN_LIMIT => 0x4a,
        CommandCode::IOUT_UC_FAULT_LIMIT => 0x4b,
        CommandCode::IOUT_UC_FAULT_RESPONSE => 0x4c,
        CommandCode::Reserved4D => 0x4d,
        CommandCode::Reserved4E => 0x4e,
        CommandCode::OT_FAULT_LIMIT => 0x4f,
        CommandCode::OT_FAULT_RESPONSE => 0x50,
        CommandCode::OT_WARN_LIMIT => 0x51,
        CommandCode::UT_WARN_LIMIT => 0x52,
        CommandCode::UT_FAULT_LIMIT => 0x53,
        CommandCode::UT_FAULT_RESPONSE => 0x54,
        CommandCode::VIN_OV_FAULT_LIMIT => 0x55,
        CommandCode::VIN_OV_FAULT_RESPONSE => 0x56,
        CommandCode::VIN_OV_WARN_LIMIT => 0x57,
        CommandCode::VIN_UV_WARN_LIMIT => 0x58,
        CommandCode::VIN_UV_FAULT_LIMIT => 0x59,
        CommandCode::VIN_UV_FAULT_RESPONSE => 0x5a,
        CommandCode::IIN_OC_FAULT_LIMIT => 0x5b,
        CommandCode::IIN_OC_FAULT_RESPONSE => 0x5c,
        CommandCode::IIN_OC_WARN_LIMIT => 0x5d,
        CommandCode::POWER_GOOD_ON => 0x5e,
        CommandCode::POWER_GOOD_OFF => 0x5f,
        CommandCode::TON_DELAY => 0x60,
        CommandCode::TON_RISE => 0x61,
        CommandCode::TON_MAX_FAULT_LIMIT => 0x62,
        CommandCode::TON_MAX_FAULT_RESPONSE => 0x63,
        CommandCode::TOFF_DELAY => 0x64,
        CommandCode::TOFF_FALL => 0x65,
        CommandCode::TOFF_MAX_WARN_LIMIT => 0x66,
        CommandCode::Deprecated => 0x67,
        CommandCode::POUT_OP_FAULT_LIMIT => 0x68,
        CommandCode::POUT_OP_FAULT_RESPONSE => 0x69,
        CommandCode::POUT_OP_WARN_LIMIT => 0x6a,
        CommandCode::PIN_OP_WARN_LIMIT => 0x6b,
        CommandCode::Reserved6C => 0x6c,
        CommandCode::Reserved6D => 0x6d,
        CommandCode::Reserved6E => 0x6e,
        CommandCode::Reserved6F => 0x6f,
        CommandCode::Reserved70 => 0x70,
        CommandCode::Reserved71 => 0x71,
        CommandCode::Reserved72 => 0x72,
        CommandCode::Reserved73 => 0x73,
        CommandCode::Reserved74 => 0x74,
        CommandCode::Reserved75 => 0x75,
        CommandCode::Reserved76 => 0x76,
        CommandCode::Reserved77 => 0x77,
        CommandCode::STATUS_BYTE => 0x78,
        CommandCode::STATUS_WORD => 0x79,
        CommandCode::STATUS_VOUT => 0x7a,
        CommandCode::STATUS_IOUT => 0x7b,
        CommandCode::STATUS_INPUT => 0x7c,
        CommandCode::STATUS_TEMPERATURE => 0x7d,
        CommandCode::STATUS_CML => 0x7e,
        CommandCode::STATUS_OTHER => 0x7f,
        CommandCode::STATUS_MFR_SPECIFIC => 0x80,
        CommandCode::STATUS_FANS_1_2 => 0x81,
        CommandCode::STATUS_FANS_3_4 => 0x82,
        CommandCode::READ_KWH_IN => 0x83,
        CommandCode::READ_KWH_OUT => 0x84,
        CommandCode::READ_KWH_CONFIG => 0x85,
        CommandCode::READ_EIN => 0x86,
        CommandCode::READ_EOUT => 0x87,
        CommandCode::READ_VIN => 0x88,
        CommandCode::READ_IIN => 0x89,
        CommandCode::READ_VCAP => 0x8a,
        CommandCode::READ_VOUT => 0x8b,
        CommandCode::READ_IOUT => 0x8c,
        CommandCode::READ_TEMPERATURE_1 => 0x8d,
        CommandCode::READ_TEMPERATURE_2 => 0x8e,
        CommandCode::READ_TEMPERATURE_3 => 0x8f,
        CommandCode::READ_FAN_SPEED_1 => 0x90,
        CommandCode::READ_FAN_SPEED_2 => 0x91,
        CommandCode::READ_FAN_SPEED_3 => 0x92,
        CommandCode::READ_FAN_SPEED_4 => 0x93,
        CommandCode::READ_DUTY_CYCLE => 0x94,
        CommandCode::READ_FREQUENCY => 0x95,
        CommandCode::READ_POUT => 0x96,
        CommandCode::READ_PIN => 0x97,
        CommandCode::PMBUS_REVISION => 0x98,
        CommandCode::MFR_ID => 0x99,
        CommandCode::MFR_MODEL => 0x9a,
        CommandCode::MFR_REVISION => 0x9b,
        CommandCode::MFR_LOCATION => 0x9c,
        CommandCode::MFR_DATE => 0x9d,
        CommandCode::MFR_SERIAL => 0x9e,
        CommandCode::APP_PROFILE_SUPPORT => 0x9f,
        CommandCode::MFR_VIN_MIN => 0xa0,
        CommandCode::MFR_VIN_MAX => 0xa1,
        CommandCode::MFR_IIN_MAX => 0xa2,
        CommandCode::MFR_PIN_MAX => 0xa3,
        CommandCode::MFR_VOUT_MIN => 0xa4,
        CommandCode::MFR_VOUT_MAX => 0xa5,
        CommandCode::MFR_IOUT_MAX => 0xa6,
        CommandCode::MFR_POUT_MAX => 0xa7,
        CommandCode::MFR_TAMBIENT_MAX => 0xa8,
        CommandCode::MFR_TAMBIENT_MIN => 0xa9,
        CommandCode::MFR_EFFICIENCY_LL => 0xaa,
        CommandCode::MFR_EFFICIENCY_HL => 0xab,
        CommandCode::MFR_PIN_ACCURACY => 0xac,
        CommandCode::IC_DEVICE_ID => 0xad,
        CommandCode::IC_DEVICE_REV => 0xae,
        CommandCode::ReservedAF => 0xaf,
        CommandCode::USER_DATA_00 => 0xb0,
        CommandCode::USER_DATA_01 => 0xb1,
        CommandCode::USER_DATA_02 => 0xb2,
        CommandCode::USER_DATA_03 => 0xb3,
        CommandCode::USER_DATA_04 => 0xb4,
        CommandCode::USER_DATA_05 => 0xb5,
        CommandCode::USER_DATA_06 => 0xb6,
        CommandCode::USER_DATA_07 => 0xb7,
        CommandCode::USER_DATA_08 => 0xb8,
        CommandCode::USER_DATA_09 => 0xb9,
        CommandCode::USER_DATA_10 => 0xba,
        CommandCode::USER_DATA_11 => 0xbb,
        CommandCode::USER_DATA_12 => 0xbc,
        CommandCode::USER_DATA_13 => 0xbd,
        CommandCode::USER_DATA_14 => 0xbe,
        CommandCode::USER_DATA_15 => 0xbf,
        CommandCode::MFR_MAX_TEMP_1 => 0xc0,
        CommandCode::MFR_MAX_TEMP_2 => 0xc1,
        CommandCode::MFR_MAX_TEMP_3 => 0xc2,
        CommandCode::ReservedC3 => 0xc3,
        CommandCode::MFR_SPECIFIC_C4 => 0xc4,
        CommandCode::MFR_SPECIFIC_C5 => 0xc5,
        CommandCode::MFR_SPECIFIC_C6 => 0xc6,
        CommandCode::MFR_SPECIFIC_C7 => 0xc7,
        CommandCode::MFR_SPECIFIC_C8 => 0xc8,
        CommandCode::MFR_SPECIFIC_C9 => 0xc9,
        CommandCode::MFR_SPECIFIC_CA => 0xca,
        CommandCode::MFR_SPECIFIC_CB => 0xcb,
        CommandCode::MFR_SPECIFIC_CC => 0xcc,
        CommandCode::MFR_SPECIFIC_CD => 0xcd,
        CommandCode::MFR_SPECIFIC_CE => 0xce,
        CommandCode::MFR_SPECIFIC_CF => 0xcf,
        CommandCode::MFR_SPECIFIC_D0 => 0xd0,
        CommandCode::MFR_SPECIFIC_D1 => 0xd1,
        CommandCode::MFR_SPECIFIC_D2 => 0xd2,
        CommandCode::MFR_SPECIFIC_D3 => 0xd3,
        CommandCode::MFR_SPECIFIC_D4 => 0xd4,
        CommandCode::MFR_SPECIFIC_D5 => 0xd5,
        CommandCode::MFR_SPECIFIC_D6 => 0xd6,
        CommandCode::MFR_SPECIFIC_D7 => 0xd7,
        CommandCode::MFR_SPECIFIC_D8 => 0xd8,
        CommandCode::MFR_SPECIFIC_D9 => 0xd9,
        CommandCode::MFR_SPECIFIC_DA => 0xda,
        CommandCode::MFR_SPECIFIC_DB => 0xdb,
        CommandCode::MFR_SPECIFIC_DC => 0xdc,
        CommandCode::MFR_SPECIFIC_DD => 0xdd,
        CommandCode::MFR_SPECIFIC_DE => 0xde,
        CommandCode::MFR_SPECIFIC_DF => 0xdf,
        CommandCode::MFR_SPECIFIC_E0 => 0xe0,
        CommandCode::MFR_SPECIFIC_E1 => 0xe1,
        CommandCode::MFR_SPECIFIC_E2 => 0xe2,
        CommandCode::MFR_SPECIFIC_E3 => 0xe3,
        CommandCode::MFR_SPECIFIC_E4 => 0xe4,
        CommandCode::MFR_SPECIFIC_E5 => 0xe5,
        CommandCode::MFR_SPECIFIC_E6 => 0xe6,
        CommandCode::MFR_SPECIFIC_E7 => 0xe7,
        CommandCode::MFR_SPECIFIC_E8 => 0xe8,
        CommandCode::MFR_SPECIFIC_E9 => 0xe9,
        CommandCode::MFR_SPECIFIC_EA => 0xea,
        CommandCode::MFR_SPECIFIC_EB => 0xeb,
        CommandCode::MFR_SPECIFIC_EC => 0xec,
        CommandCode::MFR_SPECIFIC_ED => 0xed,
        CommandCode::MFR_SPECIFIC_EE => 0xee,
        CommandCode::MFR_SPECIFIC_EF => 0xef,
        CommandCode::MFR_SPECIFIC_F0 => 0xf0,
        CommandCode::MFR_SPECIFIC_F1 => 0xf1,
        CommandCode::MFR_SPECIFIC_F2 => 0xf2,
        CommandCode::MFR_SPECIFIC_F3 => 0xf3,
        CommandCode::MFR_SPECIFIC_F4 => 0xf4,
        CommandCode::MFR_SPECIFIC_F5 => 0xf5,
        CommandCode::MFR_SPECIFIC_F6 => 0xf6,
        CommandCode::MFR_SPECIFIC_F7 => 0xf7,
        CommandCode::MFR_SPECIFIC_F8 => 0xf8,
        CommandCode::MFR_SPECIFIC_F9 => 0xf9,
        CommandCode::MFR_SPECIFIC_FA => 0xfa,
        CommandCode::MFR_SPECIFIC_FB => 0xfb,
        CommandCode::MFR_SPECIFIC_FC => 0xfc,
        CommandCode::MFR_SPECIFIC_FD => 0xfd,
        CommandCode::MFR_SPECIFIC_COMMAND_EXT => 0xfe,
        CommandCode::PMBUS_COMMAND_EXT => 0xff,
    }
}

/// The bus operation that writes a command.
pub open spec fn write_op_spec(c: CommandCode) -> Operation {
    match c {
        CommandCode::PAGE => Operation::WriteByte,
        CommandCode::OPERATION => Operation::WriteByte,
        CommandCode::ON_OFF_CONFIG => Operation::WriteByte,
        CommandCode::CLEAR_FAULTS => Operation::SendByte,
        CommandCode::PHASE => Operation::WriteByte,
        CommandCode::PAGE_PLUS_WRITE => Operation::WriteBlock,
        CommandCode::PAGE_PLUS_READ => Operation::Illegal,
        CommandCode::ZONE_CONFIG => Operation::WriteWord,
        CommandCode::ZONE_ACTIVE => Operation::WriteWord,
        CommandCode::Reserved09 => Operation::Unknown,
        CommandCode::Reserved0A => Operation::Unknown,
        CommandCode::Reserved0B => Operation::Unknown,
        CommandCode::Reserved0C => Operation::Unknown,
        CommandCode::Reserved0D => Operation::Unknown,
        CommandCode::Reserved0E => Operation::Unknown,
        CommandCode::Reserved0F => Operation::Unknown,
        CommandCode::WRITE_PROTECT => Operation::WriteByte,
        CommandCode::STORE_DEFAULT_ALL => Operation::SendByte,
        CommandCode::RESTORE_DEFAULT_ALL => Operation::SendByte,
        CommandCode::STORE_DEFAULT_CODE => Operation::WriteByte,
        CommandCode::RESTORE_DEFAULT_CODE => Operation::WriteByte,
        CommandCode::STORE_USER_ALL => Operation::SendByte,
        CommandCode::RESTORE_USER_ALL => Operation::SendByte,
        CommandCode::STORE_USER_CODE => Operation::WriteByte,
        CommandCode::RESTORE_USER_CODE => Operation::WriteByte,
        CommandCode::CAPABILITY => Operation::Illegal,
        CommandCode::QUERY => Operation::Illegal,
        CommandCode::SMBALERT_MASK => Operation::WriteWord,
        CommandCode::Reserved1C => Operation::Unknown,
        CommandCode::Reserved1D => Operation::Unknown,
        CommandCode::Reserved1E => Operation::Unknown,
        CommandCode::Reserved1F => Operation::Unknown,
        CommandCode::VOUT_MODE => Operation::WriteByte,
        CommandCode::VOUT_COMMAND => Operation::WriteWord,
        CommandCode::VOUT_TRIM => Operation::WriteWord,
        CommandCode::VOUT_CAL_OFFSET => Operation::WriteWord,
        CommandCode::VOUT_MAX => Operation::WriteWord,
        CommandCode::VOUT_MARGIN_HIGH => Operation::WriteWord,
        CommandCode::VOUT_MARGIN_LOW => Operation::WriteWord,
        CommandCode::VOUT_TRANSITION_RATE => Operation::WriteWord,
        CommandCode::VOUT_DROOP => Operation::WriteWord,
        CommandCode::VOUT_SCALE_LOOP => Operation::WriteWord,
        CommandCode::VOUT_SCALE_MONITOR => Operation::WriteWord,
        CommandCode::VOUT_MIN => Operation::WriteWord,
        CommandCode::Reserved2C => Operation::Unknown,
        CommandCode::Reserved2D => Operation::Unknown,
        CommandCode::Reserved2E => Operation::Unknown,
        CommandCode::Reserved2F => Operation::Unknown,
        CommandCode::COEFFICIENTS => Operation::Illegal,
        CommandCode::POUT_MAX => Operation::WriteWord,
        CommandCode::MAX_DUTY => Operation::WriteWord,
        CommandCode::FREQUENCY_SWITCH => Operation::WriteWord,
        CommandCode::POWER_MODE => Operation::WriteByte,
        CommandCode::VIN_ON => Operation::WriteWord,
        CommandCode::VIN_OFF => Operation::WriteWord,
        CommandCode::INTERLEAVE => Operation::WriteWord,
        CommandCode::IOUT_CAL_GAIN => Operation::WriteWord,
        CommandCode::IOUT_CAL_OFFSET => Operation::WriteWord,
        CommandCode::FAN_CONFIG_1_2 => Operation::WriteByte,
        CommandCode::FAN_COMMAND_1 => Operation::WriteWord,
        CommandCode::FAN_COMMAND_2 => Operation::WriteWord,
        CommandCode::FAN_CONFIG_3_4 => Operation::WriteByte,
        CommandCode::FAN_COMMAND_3 => Operation::WriteWord,
        CommandCode::FAN_COMMAND_4 => Operation::WriteWord,
        CommandCode::VOUT_OV_FAULT_LIMIT => Operation::WriteWord,
        CommandCode::VOUT_OV_FAULT_RESPONSE => Operation::WriteByte,
        CommandCode::VOUT_OV_WARN_LIMIT => Operation::WriteWord,
        CommandCode::VOUT_UV_WARN_LIMIT => Operation::WriteWord,
        CommandCode::VOUT_UV_FAULT_LIMIT => Operation::WriteWord,
        CommandCode::VOUT_UV_FAULT_RESPONSE => Operation::WriteByte,
        CommandCode::IOUT_OC_FAULT_LIMIT => Operation::WriteWord,
        CommandCode::IOUT_OC_FAULT_RESPONSE => Operation::WriteByte,
        CommandCode::IOUT_OC_LV_FAULT_LIMIT => Operation::WriteWord,
        CommandCode::IOUT_OC_LV_FAULT_RESPONSE => Operation::WriteByte,
        CommandCode::IOUT_OC_WARN_LIMIT => Operation::WriteWord,
        CommandCode::IOUT_UC_FAULT_LIMIT => Operation::WriteWord,
        CommandCode::IOUT_UC_FAULT_RESPONSE => Operation::WriteByte,
        CommandCode::Reserved4D => Operation::Unknown,
        CommandCode::Reserved4E => Operation::Unknown,
        CommandCode::OT_FAULT_LIMIT => Operation::WriteWord,
        CommandCode::OT_FAULT_RESPONSE => Operation::WriteByte,
        CommandCode::OT_WARN_LIMIT => Operation::WriteWord,
        CommandCode::UT_WARN_LIMIT => Operation::WriteWord,
        CommandCode::UT_FAULT_LIMIT => Operation::WriteWord,
        CommandCode::UT_FAULT_RESPONSE => Operation::WriteByte,
        CommandCode::VIN_OV_FAULT_LIMIT => Operation::WriteWord,
        CommandCode::VIN_OV_FAULT_RESPONSE => Operation::WriteByte,
        CommandCode::VIN_OV_WARN_LIMIT => Operation::WriteWord,
        CommandCode::VIN_UV_WARN_LIMIT => Operation::WriteWord,
        CommandCode::VIN_UV_FAULT_LIMIT => Operation::WriteWord,
        CommandCode::VIN_UV_FAULT_RESPONSE => Operation::WriteByte,
        CommandCode::IIN_OC_FAULT_LIMIT => Operation::WriteWord,
        CommandCode::IIN_OC_FAULT_RESPONSE => Operation::WriteByte,
        CommandCode::IIN_OC_WARN_LIMIT => Operation::WriteWord,
        CommandCode::POWER_GOOD_ON => Operation::WriteWord,
        CommandCode::POWER_GOOD_OFF => Operation::WriteWord,
        CommandCode::TON_DELAY => Operation::WriteWord,
        CommandCode::TON_RISE => Operation::WriteWord,
        CommandCode::TON_MAX_FAULT_LIMIT => Operation::WriteWord,
        CommandCode::TON_MAX_FAULT_RESPONSE => Operation::WriteByte,
        CommandCode::TOFF_DELAY => Operation::WriteWord,
        CommandCode::TOFF_FALL => Operation::WriteWord,
        CommandCode::TOFF_MAX_WARN_LIMIT => Operation::WriteWord,
        CommandCode::Deprecated => Operation::Unknown,
        CommandCode::POUT_OP_FAULT_LIMIT => Operation::WriteWord,
        CommandCode::POUT_OP_FAULT_RESPONSE => Operation::WriteByte,
        CommandCode::POUT_OP_WARN_LIMIT => Operation::WriteWord,
        CommandCode::PIN_OP_WARN_LIMIT => Operation::WriteWord,
        CommandCode::Reserved6C => Operation::Unknown,
        CommandCode::Reserved6D => Operation::Unknown,
        CommandCode::Reserved6E => Operation::Unknown,
        CommandCode::Reserved6F => Operation::Unknown,
        CommandCode::Reserved70 => Operation::Unknown,
        CommandCode::Reserved71 => Operation::Unknown,
        CommandCode::Reserved72 => Operation::Unknown,
        CommandCode::Reserved73 => Operation::Unknown,
        CommandCode::Reserved74 => Operation::Unknown,
        CommandCode::Reserved75 => Operation::Unknown,
        CommandCode::Reserved76 => Operation::Unknown,
        CommandCode::Reserved77 => Operation::Unknown,
        CommandCode::STATUS_BYTE => Operation::WriteByte,
        CommandCode::STATUS_WORD => Operation::WriteWord,
        CommandCode::STATUS_VOUT => Operation::WriteByte,
        CommandCode::STATUS_IOUT => Operation::WriteByte,
        CommandCode::STATUS_INPUT => Operation::WriteByte,
        CommandCode::STATUS_TEMPERATURE => Operation::WriteByte,
        CommandCode::STATUS_CML => Operation::WriteByte,
        CommandCode::STATUS_OTHER => Operation::WriteByte,
        CommandCode::STATUS_MFR_SPECIFIC => Operation::WriteByte,
        CommandCode::STATUS_FANS_1_2 => Operation::WriteByte,
        CommandCode::STATUS_FANS_3_4 => Operation::WriteByte,
        CommandCode::READ_KWH_IN => Operation::Illegal,
        CommandCode::READ_KWH_OUT => Operation::Illegal,
        CommandCode::READ_KWH_CONFIG => Operation::WriteWord,
        CommandCode::READ_EIN => Operation::Illegal,
        CommandCode::READ_EOUT => Operation::Illegal,
        CommandCode::READ_VIN => Operation::Illegal,
        CommandCode::READ_IIN => Operation::Illegal,
        CommandCode::READ_VCAP => Operation::Illegal,
        CommandCode::READ_VOUT => Operation::Illegal,
        CommandCode::READ_IOUT => Operation::Illegal,
        CommandCode::READ_TEMPERATURE_1 => Operation::Illegal,
        CommandCode::READ_TEMPERATURE_2 => Operation::Illegal,
        CommandCode::READ_TEMPERATURE_3 => Operation::Illegal,
        CommandCode::READ_FAN_SPEED_1 => Operation::Illegal,
        CommandCode::READ_FAN_SPEED_2 => Operation::Illegal,
        CommandCode::READ_FAN_SPEED_3 => Operation::Illegal,
        CommandCode::READ_FAN_SPEED_4 => Operation::Illegal,
        CommandCode::READ_DUTY_CYCLE => Operation::Illegal,
        CommandCode::READ_FREQUENCY => Operation::Illegal,
        CommandCode::READ_POUT => Operation::Illegal,
        CommandCode::READ_PIN => Operation::Illegal,
        CommandCode::PMBUS_REVISION => Operation::Illegal,
        CommandCode::MFR_ID => Operation::WriteBlock,
        CommandCode::MFR_MODEL => Operation::WriteBlock,
        CommandCode::MFR_REVISION => Operation::WriteBlock,
        CommandCode::MFR_LOCATION => Operation::WriteBlock,
        CommandCode::MFR_DATE => Operation::WriteBlock,
        CommandCode::MFR_SERIAL => Operation::WriteBlock,
        CommandCode::APP_PROFILE_SUPPORT => Operation::Illegal,
        CommandCode::MFR_VIN_MIN => Operation::Illegal,
        CommandCode::MFR_VIN_MAX => Operation::Illegal,
        CommandCode::MFR_IIN_MAX => Operation::Illegal,
        CommandCode::MFR_PIN_MAX => Operation::Illegal,
        CommandCode::MFR_VOUT_MIN => Operation::Illegal,
        CommandCode::MFR_VOUT_MAX => Operation::Illegal,
        CommandCode::MFR_IOUT_MAX => Operation::Illegal,
        CommandCode::MFR_POUT_MAX => Operation::Illegal,
        CommandCode::MFR_TAMBIENT_MAX => Operation::Illegal,
        CommandCode::MFR_TAMBIENT_MIN => Operation::Illegal,
        CommandCode::MFR_EFFICIENCY_LL => Operation::Illegal,
        CommandCode::MFR_EFFICIENCY_HL => Operation::Illegal,
        CommandCode::MFR_PIN_ACCURACY => Operation::Illegal,
        CommandCode::IC_DEVICE_ID => Operation::Illegal,
        CommandCode::IC_DEVICE_REV => Operation::Illegal,
        CommandCode::ReservedAF => Operation::Unknown,
        CommandCode::USER_DATA_00 => Operation::WriteBlock,
        CommandCode::USER_DATA_01 => Operation::WriteBlock,
        CommandCode::USER_DATA_02 => Operation::WriteBlock,
        CommandCode::USER_DATA_03 => Operation::WriteBlock,
        CommandCode::USER_DATA_04 => Operation::WriteBlock,
        CommandCode::USER_DATA_05 => Operation::WriteBlock,
        CommandCode::USER_DATA_06 => Operation::WriteBlock,
        CommandCode::USER_DATA_07 => Operation::WriteBlock,
        CommandCode::USER_DATA_08 => Operation::WriteBlock,
        CommandCode::USER_DATA_09 => Operation::WriteBlock,
        CommandCode::USER_DATA_10 => Operation::WriteBlock,
        CommandCode::USER_DATA_11 => Operation::WriteBlock,
        CommandCode::USER_DATA_12 => Operation::WriteBlock,
        CommandCode::USER_DATA_13 => Operation::WriteBlock,
        CommandCode::USER_DATA_14 => Operation::WriteBlock,
        CommandCode::USER_DATA_15 => Operation::WriteBlock,
        CommandCode::MFR_MAX_TEMP_1 => Operation::WriteWord,
        CommandCode::MFR_MAX_TEMP_2 => Operation::WriteWord,
        CommandCode::MFR_MAX_TEMP_3 => Operation::WriteWord,
        CommandCode::ReservedC3 => Operation::Unknown,
        CommandCode::MFR_SPECIFIC_C4 => Operation::MfrDefined,
        CommandCode::MFR_SPECIFIC_C5 => Operation::MfrDefined,
        CommandCode::MFR_SPECIFIC_C6 => Operation::MfrDefined,
        CommandCode::MFR_SPECIFIC_C7 => Operation::MfrDefined,
        CommandCode::MFR_SPECIFIC_C8 => Operation::MfrDefined,
        CommandCode::MFR_SPECIFIC_C9 => Operation::MfrDefined,
        CommandCode::MFR_SPECIFIC_CA => Operation::MfrDefined,
        CommandCode::MFR_SPECIFIC_CB => Operation::MfrDefined,
        CommandCode::MFR_SPECIFIC_CC => Operation::MfrDefined,
        CommandCode::MFR_SPECIFIC_CD => Operation::MfrDefined,
        CommandCode::MFR_SPECIFIC_CE => Operation::MfrDefined,
        CommandCode::MFR_SPECIFIC_CF => Operation::MfrDefined,
        CommandCode::MFR_SPECIFIC_D0 => Operation::MfrDefined,
        CommandCode::MFR_SPECIFIC_D1 => Operation::MfrDefined,
        CommandCode::MFR_SPECIFIC_D2 => Operation::MfrDefined,
        CommandCode::MFR_SPECIFIC_D3 => Operation::MfrDefined,
        CommandCode::MFR_SPECIFIC_D4 => Operation::MfrDefined,
        CommandCode::MFR_SPECIFIC_D5 => Operation::MfrDefined,
        CommandCode::MFR_SPECIFIC_D6 => Operation::MfrDefined,
        CommandCode::MFR_SPECIFIC_D7 => Operation::MfrDefined,
        CommandCode::MFR_SPECIFIC_D8 => Operation::MfrDefined,
        CommandCode::MFR_SPECIFIC_D9 => Operation::MfrDefined,
        CommandCode::MFR_SPECIFIC_DA => Operation::MfrDefined,
        CommandCode::MFR_SPECIFIC_DB => Operation::MfrDefined,
        CommandCode::MFR_SPECIFIC_DC => Operation::MfrDefined,
        CommandCode::MFR_SPECIFIC_DD => Operation::MfrDefined,
        CommandCode::MFR_SPECIFIC_DE => Operation::MfrDefined,
        CommandCode::MFR_SPECIFIC_DF => Operation::MfrDefined,
        CommandCode::MFR_SPECIFIC_E0 => Operation::MfrDefined,
        CommandCode::MFR_SPECIFIC_E1 => Operation::MfrDefined,
        CommandCode::MFR_SPECIFIC_E2 => Operation::MfrDefined,
        CommandCode::MFR_SPECIFIC_E3 => Operation::MfrDefined,
        CommandCode::MFR_SPECIFIC_E4 => Operation::MfrDefined,
        CommandCode::MFR_SPECIFIC_E5 => Operation::MfrDefined,
        CommandCode::MFR_SPECIFIC_E6 => Operation::MfrDefined,
        CommandCode::MFR_SPECIFIC_E7 => Operation::MfrDefined,
        CommandCode::MFR_SPECIFIC_E8 => Operation::MfrDefined,
        CommandCode::MFR_SPECIFIC_E9 => Operation::MfrDefined,
        CommandCode::MFR_SPECIFIC_EA => Operation::MfrDefined,
        CommandCode::MFR_SPECIFIC_EB => Operation::MfrDefined,
        CommandCode::MFR_SPECIFIC_EC => Operation::MfrDefined,
        CommandCode::MFR_SPECIFIC_ED => Operation::MfrDefined,
        CommandCode::MFR_SPECIFIC_EE => Operation::MfrDefined,
        CommandCode::MFR_SPECIFIC_EF => Operation::MfrDefined,
        CommandCode::MFR_SPECIFIC_F0 => Operation::MfrDefined,
        CommandCode::MFR_SPECIFIC_F1 => Operation::MfrDefined,
        CommandCode::MFR_SPECIFIC_F2 => Operation::MfrDefined,
        CommandCode::MFR_SPECIFIC_F3 => Operation::MfrDefined,
        CommandCode::MFR_SPECIFIC_F4 => Operation::MfrDefined,
        CommandCode::MFR_SPECIFIC_F5 => Operation::MfrDefined,
        CommandCode::MFR_SPECIFIC_F6 => Operation::MfrDefined,
        CommandCode::MFR_SPECIFIC_F7 => Operation::MfrDefined,
        CommandCode::MFR_SPECIFIC_F8 => Operation::MfrDefined,
        CommandCode::MFR_SPECIFIC_F9 => Operation::MfrDefined,
        CommandCode::MFR_SPECIFIC_FA => Operation::MfrDefined,
        CommandCode::MFR_SPECIFIC_FB => Operation::MfrDefined,
        CommandCode::MFR_SPECIFIC_FC => Operation::MfrDefined,
        CommandCode::MFR_SPECIFIC_FD => Operation::MfrDefined,
        CommandCode::MFR_SPECIFIC_COMMAND_EXT => Operation::Extended,
        CommandCode::PMBUS_COMMAND_EXT => Operation::Extended,
    }
}

/// The bus operation that reads a command.
pub open spec fn read_op_spec(c: CommandCode) -> Operation {
    match c {
        CommandCode::PAGE => Operation::ReadByte,
        CommandCode::OPERATION => Operation::ReadByte,
        CommandCode::ON_OFF_CONFIG => Operation::ReadByte,
        CommandCode::CLEAR_FAULTS => Operation::Illegal,
        CommandCode::PHASE => Operation::ReadByte,
        CommandCode::PAGE_PLUS_WRITE => Operation::Illegal,
        CommandCode::PAGE_PLUS_READ => Operation::ProcessCall,
        CommandCode::ZONE_CONFIG => Operation::ReadWord,
        CommandCode::ZONE_ACTIVE => Operation::ReadWord,
        CommandCode::Reserved09 => Operation::Unknown,
        CommandCode::Reserved0A => Operation::Unknown,
        CommandCode::Reserved0B => Operation::Unknown,
        CommandCode::Reserved0C => Operation::Unknown,
        CommandCode::Reserved0D => Operation::Unknown,
        CommandCode::Reserved0E => Operation::Unknown,
        CommandCode::Reserved0F => Operation::Unknown,
        CommandCode::WRITE_PROTECT => Operation::ReadByte,
        CommandCode::STORE_DEFAULT_ALL => Operation::Illegal,
        CommandCode::RESTORE_DEFAULT_ALL => Operation::Illegal,
        CommandCode::STORE_DEFAULT_CODE => Operation::Illegal,
        CommandCode::RESTORE_DEFAULT_CODE => Operation::Illegal,
        CommandCode::STORE_USER_ALL => Operation::Illegal,
        CommandCode::RESTORE_USER_ALL => Operation::Illegal,
        CommandCode::STORE_USER_CODE => Operation::Illegal,
        CommandCode::RESTORE_USER_CODE => Operation::Illegal,
        CommandCode::CAPABILITY => Operation::ReadByte,
        CommandCode::QUERY => Operation::ProcessCall,
        CommandCode::SMBALERT_MASK => Operation::ProcessCall,
        CommandCode::Reserved1C => Operation::Unknown,
        CommandCode::Reserved1D => Operation::Unknown,
        CommandCode::Reserved1E => Operation::Unknown,
        CommandCode::Reserved1F => Operation::Unknown,
        CommandCode::VOUT_MODE => Operation::ReadByte,
        CommandCode::VOUT_COMMAND => Operation::ReadWord,
        CommandCode::VOUT_TRIM => Operation::ReadWord,
        CommandCode::VOUT_CAL_OFFSET => Operation::ReadWord,
        CommandCode::VOUT_MAX => Operation::ReadWord,
        CommandCode::VOUT_MARGIN_HIGH => Operation::ReadWord,
        CommandCode::VOUT_MARGIN_LOW => Operation::ReadWord,
        CommandCode::VOUT_TRANSITION_RATE => Operation::ReadWord,
        CommandCode::VOUT_DROOP => Operation::ReadWord,
        CommandCode::VOUT_SCALE_LOOP => Operation::ReadWord,
        CommandCode::VOUT_SCALE_MONITOR => Operation::ReadWord,
        CommandCode::VOUT_MIN => Operation::ReadWord,
        CommandCode::Reserved2C => Operation::Unknown,
        CommandCode::Reserved2D => Operation::Unknown,
        CommandCode::Reserved2E => Operation::Unknown,
        CommandCode::Reserved2F => Operation::Unknown,
        CommandCode::COEFFICIENTS => Operation::ProcessCall,
        CommandCode::POUT_MAX => Operation::ReadWord,
        CommandCode::MAX_DUTY => Operation::ReadWord,
        CommandCode::FREQUENCY_SWITCH => Operation::ReadWord,
        CommandCode::POWER_MODE => Operation::ReadByte,
        CommandCode::VIN_ON => Operation::ReadWord,
        CommandCode::VIN_OFF => Operation::ReadWord,
        CommandCode::INTERLEAVE => Operation::ReadWord,
        CommandCode::IOUT_CAL_GAIN => Operation::ReadWord,
        CommandCode::IOUT_CAL_OFFSET => Operation::ReadWord,
        CommandCode::FAN_CONFIG_1_2 => Operation::ReadByte,
        CommandCode::FAN_COMMAND_1 => Operation::ReadWord,
        CommandCode::FAN_COMMAND_2 => Operation::ReadWord,
        CommandCode::FAN_CONFIG_3_4 => Operation::ReadByte,
        CommandCode::FAN_COMMAND_3 => Operation::ReadWord,
        CommandCode::FAN_COMMAND_4 => Operation::ReadWord,
        CommandCode::VOUT_OV_FAULT_LIMIT => Operation::ReadWord,
        CommandCode::VOUT_OV_FAULT_RESPONSE => Operation::ReadByte,
        CommandCode::VOUT_OV_WARN_LIMIT => Operation::ReadWord,
        CommandCode::VOUT_UV_WARN_LIMIT => Operation::ReadWord,
        CommandCode::VOUT_UV_FAULT_LIMIT => Operation::ReadWord,
        CommandCode::VOUT_UV_FAULT_RESPONSE => Operation::ReadByte,
        CommandCode::IOUT_OC_FAULT_LIMIT => Operation::ReadWord,
        CommandCode::IOUT_OC_FAULT_RESPONSE => Operation::ReadByte,
        CommandCode::IOUT_OC_LV_FAULT_LIMIT => Operation::ReadWord,
        CommandCode::IOUT_OC_LV_FAULT_RESPONSE => Operation::ReadByte,
        CommandCode::IOUT_OC_WARN_LIMIT => Operation::ReadWord,
        CommandCode::IOUT_UC_FAULT_LIMIT => Operation::ReadWord,
        CommandCode::IOUT_UC_FAULT_RESPONSE => Operation::ReadByte,
        CommandCode::Reserved4D => Operation::Unknown,
        CommandCode::Reserved4E => Operation::Unknown,
        CommandCode::OT_FAULT_LIMIT => Operation::ReadWord,
        CommandCode::OT_FAULT_RESPONSE => Operation::ReadByte,
        CommandCode::OT_WARN_LIMIT => Operation::ReadWord,
        CommandCode::UT_WARN_LIMIT => Operation::ReadWord,
        CommandCode::UT_FAULT_LIMIT => Operation::ReadWord,
        CommandCode::UT_FAULT_RESPONSE => Operation::ReadByte,
        CommandCode::VIN_OV_FAULT_LIMIT => Operation::ReadWord,
        CommandCode::VIN_OV_FAULT_RESPONSE => Operation::ReadByte,
        CommandCode::VIN_OV_WARN_LIMIT => Operation::ReadWord,
        CommandCode::VIN_UV_WARN_LIMIT => Operation::ReadWord,
        CommandCode::VIN_UV_FAULT_LIMIT => Operation::ReadWord,
        CommandCode::VIN_UV_FAULT_RESPONSE => Operation::ReadByte,
        CommandCode::IIN_OC_FAULT_LIMIT => Operation::ReadWord,
        CommandCode::IIN_OC_FAULT_RESPONSE => Operation::ReadByte,
        CommandCode::IIN_OC_WARN_LIMIT => Operation::ReadWord,
        CommandCode::POWER_GOOD_ON => Operation::ReadWord,
        CommandCode::POWER_GOOD_OFF => Operation::ReadWord,
        CommandCode::TON_DELAY => Operation::ReadWord,
        CommandCode::TON_RISE => Operation::ReadWord,
        CommandCode::TON_MAX_FAULT_LIMIT => Operation::ReadWord,
        CommandCode::TON_MAX_FAULT_RESPONSE => Operation::ReadByte,
        CommandCode::TOFF_DELAY => Operation::ReadWord,
        CommandCode::TOFF_FALL => Operation::ReadWord,
        CommandCode::TOFF_MAX_WARN_LIMIT => Operation::ReadWord,
        CommandCode::Deprecated => Operation::Unknown,
        CommandCode::POUT_OP_FAULT_LIMIT => Operation::ReadWord,
        CommandCode::POUT_OP_FAULT_RESPONSE => Operation::ReadByte,
        CommandCode::POUT_OP_WARN_LIMIT => Operation::ReadWord,
        CommandCode::PIN_OP_WARN_LIMIT => Operation::ReadWord,
        CommandCode::Reserved6C => Operation::Unknown,
        CommandCode::Reserved6D => Operation::Unknown,
        CommandCode::Reserved6E => Operation::Unknown,
        CommandCode::Reserved6F => Operation::Unknown,
        CommandCode::Reserved70 => Operation::Unknown,
        CommandCode::Reserved71 => Operation::Unknown,
        CommandCode::Reserved72 => Operation::Unknown,
        CommandCode::Reserved73 => Operation::Unknown,
        CommandCode::Reserved74 => Operation::Unknown,
        CommandCode::Reserved75 => Operation::Unknown,
        CommandCode::Reserved76 => Operation::Unknown,
        CommandCode::Reserved77 => Operation::Unknown,
        CommandCode::STATUS_BYTE => Operation::ReadByte,
        CommandCode::STATUS_WORD => Operation::ReadWord,
        CommandCode::STATUS_VOUT => Operation::ReadByte,
        CommandCode::STATUS_IOUT => Operation::ReadByte,
        CommandCode::STATUS_INPUT => Operation::ReadByte,
        CommandCode::STATUS_TEMPERATURE => Operation::ReadByte,
        CommandCode::STATUS_CML => Operation::ReadByte,
        CommandCode::STATUS_OTHER => Operation::ReadByte,
        CommandCode::STATUS_MFR_SPECIFIC => Operation::ReadByte,
        CommandCode::STATUS_FANS_1_2 => Operation::ReadByte,
        CommandCode::STATUS_FANS_3_4 => Operation::ReadByte,
        CommandCode::READ_KWH_IN => Operation::ReadWord32,
        CommandCode::READ_KWH_OUT => Operation::ReadWord32,
        CommandCode::READ_KWH_CONFIG => Operation::ReadWord,
        CommandCode::READ_EIN => Operation::ReadBlock,
        CommandCode::READ_EOUT => Operation::ReadBlock,
        CommandCode::READ_VIN => Operation::ReadWord,
        CommandCode::READ_IIN => Operation::ReadWord,
        CommandCode::READ_VCAP => Operation::ReadWord,
        CommandCode::READ_VOUT => Operation::ReadWord,
        CommandCode::READ_IOUT => Operation::ReadWord,
        CommandCode::READ_TEMPERATURE_1 => Operation::ReadWord,
        CommandCode::READ_TEMPERATURE_2 => Operation::ReadWord,
        CommandCode::READ_TEMPERATURE_3 => Operation::ReadWord,
        CommandCode::READ_FAN_SPEED_1 => Operation::ReadWord,
        CommandCode::READ_FAN_SPEED_2 => Operation::ReadWord,
        CommandCode::READ_FAN_SPEED_3 => Operation::ReadWord,
        CommandCode::READ_FAN_SPEED_4 => Operation::ReadWord,
        CommandCode::READ_DUTY_CYCLE => Operation::ReadWord,
        CommandCode::READ_FREQUENCY => Operation::ReadWord,
        CommandCode::READ_POUT => Operation::ReadWord,
        CommandCode::READ_PIN => Operation::ReadWord,
        CommandCode::PMBUS_REVISION => Operation::ReadByte,
        CommandCode::MFR_ID => Operation::ReadBlock,
        CommandCode::MFR_MODEL => Operation::ReadBlock,
        CommandCode::MFR_REVISION => Operation::ReadBlock,
        CommandCode::MFR_LOCATION => Operation::ReadBlock,
        CommandCode::MFR_DATE => Operation::ReadBlock,
        CommandCode::MFR_SERIAL => Operation::ReadBlock,
        CommandCode::APP_PROFILE_SUPPORT => Operation::ReadBlock,
        CommandCode::MFR_VIN_MIN => Operation::ReadWord,
        CommandCode::MFR_VIN_MAX => Operation::ReadWord,
        CommandCode::MFR_IIN_MAX => Operation::ReadWord,
        CommandCode::MFR_PIN_MAX => Operation::ReadWord,
        CommandCode::MFR_VOUT_MIN => Operation::ReadWord,
        CommandCode::MFR_VOUT_MAX => Operation::ReadWord,
        CommandCode::MFR_IOUT_MAX => Operation::ReadWord,
        CommandCode::MFR_POUT_MAX => Operation::ReadWord,
        CommandCode::MFR_TAMBIENT_MAX => Operation::ReadWord,
        CommandCode::MFR_TAMBIENT_MIN => Operation::ReadWord,
        CommandCode::MFR_EFFICIENCY_LL => Operation::ReadBlock,
        CommandCode::MFR_EFFICIENCY_HL => Operation::ReadBlock,
        CommandCode::MFR_PIN_ACCURACY => Operation::ReadByte,
        CommandCode::IC_DEVICE_ID => Operation::ReadBlock,
        CommandCode::IC_DEVICE_REV => Operation::ReadBlock,
        CommandCode::ReservedAF => Operation::Unknown,
        CommandCode::USER_DATA_00 => Operation::ReadBlock,
        CommandCode::USER_DATA_01 => Operation::ReadBlock,
        CommandCode::USER_DATA_02 => Operation::ReadBlock,
        CommandCode::USER_DATA_03 => Operation::ReadBlock,
        CommandCode::USER_DATA_04 => Operation::ReadBlock,
        CommandCode::USER_DATA_05 => Operation::ReadBlock,
        CommandCode::USER_DATA_06 => Operation::ReadBlock,
        CommandCode::USER_DATA_07 => Operation::ReadBlock,
        CommandCode::USER_DATA_08 => Operation::ReadBlock,
        CommandCode::USER_DATA_09 => Operation::ReadBlock,
        CommandCode::USER_DATA_10 => Operation::ReadBlock,
        CommandCode::USER_DATA_11 => Operation::ReadBlock,
        CommandCode::USER_DATA_12 => Operation::ReadBlock,
        CommandCode::USER_DATA_13 => Operation::ReadBlock,
        CommandCode::USER_DATA_14 => Operation::ReadBlock,
        CommandCode::USER_DATA_15 => Operation::ReadBlock,
        CommandCode::MFR_MAX_TEMP_1 => Operation::ReadWord,
        CommandCode::MFR_MAX_TEMP_2 => Operation::ReadWord,
        CommandCode::MFR_MAX_TEMP_3 => Operation::ReadWord,
        CommandCode::ReservedC3 => Operation::Unknown,
        CommandCode::MFR_SPECIFIC_C4 => Operation::MfrDefined,
        CommandCode::MFR_SPECIFIC_C5 => Operation::MfrDefined,
        CommandCode::MFR_SPECIFIC_C6 => Operation::MfrDefined,
        CommandCode::MFR_SPECIFIC_C7 => Operation::MfrDefined,
        CommandCode::MFR_SPECIFIC_C8 => Operation::MfrDefined,
        CommandCode::MFR_SPECIFIC_C9 => Operation::MfrDefined,
        CommandCode::MFR_SPECIFIC_CA => Operation::MfrDefined,
        CommandCode::MFR_SPECIFIC_CB => Operation::MfrDefined,
        CommandCode::MFR_SPECIFIC_CC => Operation::MfrDefined,
        CommandCode::MFR_SPECIFIC_CD => Operation::MfrDefined,
        CommandCode::MFR_SPECIFIC_CE => Operation::MfrDefined,
        CommandCode::MFR_SPECIFIC_CF => Operation::MfrDefined,
        CommandCode::MFR_SPECIFIC_D0 => Operation::MfrDefined,
        CommandCode::MFR_SPECIFIC_D1 => Operation::MfrDefined,
        CommandCode::MFR_SPECIFIC_D2 => Operation::MfrDefined,
        CommandCode::MFR_SPECIFIC_D3 => Operation::MfrDefined,
        CommandCode::MFR_SPECIFIC_D4 => Operation::MfrDefined,
        CommandCode::MFR_SPECIFIC_D5 => Operation::MfrDefined,
        CommandCode::MFR_SPECIFIC_D6 => Operation::MfrDefined,
        CommandCode::MFR_SPECIFIC_D7 => Operation::MfrDefined,
        CommandCode::MFR_SPECIFIC_D8 => Operation::MfrDefined,
        CommandCode::MFR_SPECIFIC_D9 => Operation::MfrDefined,
        CommandCode::MFR_SPECIFIC_DA => Operation::MfrDefined,
        CommandCode::MFR_SPECIFIC_DB => Operation::MfrDefined,
        CommandCode::MFR_SPECIFIC_DC => Operation::MfrDefined,
        CommandCode::MFR_SPECIFIC_DD => Operation::MfrDefined,
        CommandCode::MFR_SPECIFIC_DE => Operation::MfrDefined,
        CommandCode::MFR_SPECIFIC_DF => Operation::MfrDefined,
        CommandCode::MFR_SPECIFIC_E0 => Operation::MfrDefined,
        CommandCode::MFR_SPECIFIC_E1 => Operation::MfrDefined,
        CommandCode::MFR_SPECIFIC_E2 => Operation::MfrDefined,
        CommandCode::MFR_SPECIFIC_E3 => Operation::MfrDefined,
        CommandCode::MFR_SPECIFIC_E4 => Operation::MfrDefined,
        CommandCode::MFR_SPECIFIC_E5 => Operation::MfrDefined,
        CommandCode::MFR_SPECIFIC_E6 => Operation::MfrDefined,
        CommandCode::MFR_SPECIFIC_E7 => Operation::MfrDefined,
        CommandCode::MFR_SPECIFIC_E8 => Operation::MfrDefined,
        CommandCode::MFR_SPECIFIC_E9 => Operation::MfrDefined,
        CommandCode::MFR_SPECIFIC_EA => Operation::MfrDefined,
        CommandCode::MFR_SPECIFIC_EB => Operation::MfrDefined,
        CommandCode::MFR_SPECIFIC_EC => Operation::MfrDefined,
        CommandCode::MFR_SPECIFIC_ED => Operation::MfrDefined,
        CommandCode::MFR_SPECIFIC_EE => Operation::MfrDefined,
        CommandCode::MFR_SPECIFIC_EF => Operation::MfrDefined,
        CommandCode::MFR_SPECIFIC_F0 => Operation::MfrDefined,
        CommandCode::MFR_SPECIFIC_F1 => Operation::MfrDefined,
        CommandCode::MFR_SPECIFIC_F2 => Operation::MfrDefined,
        CommandCode::MFR_SPECIFIC_F3 => Operation::MfrDefined,
        CommandCode::MFR_SPECIFIC_F4 => Operation::MfrDefined,
        CommandCode::MFR_SPECIFIC_F5 => Operation::MfrDefined,
        CommandCode::MFR_SPECIFIC_F6 => Operation::MfrDefined,
        CommandCode::MFR_SPECIFIC_F7 => Operation::MfrDefined,
        CommandCode::MFR_SPECIFIC_F8 => Operation::MfrDefined,
        CommandCode::MFR_SPECIFIC_F9 => Operation::MfrDefined,
        CommandCode::MFR_SPECIFIC_FA => Operation::MfrDefined,
        CommandCode::MFR_SPECIFIC_FB => Operation::MfrDefined,
        CommandCode::MFR_SPECIFIC_FC => Operation::MfrDefined,
        CommandCode::MFR_SPECIFIC_FD => Operation::MfrDefined,
        CommandCode::MFR_SPECIFIC_COMMAND_EXT => Operation::Extended,
        CommandCode::PMBUS_COMMAND_EXT => Operation::Extended,
    }
}

/// The command code a byte value stands for.
pub open spec fn from_code_spec(code: u8) -> CommandCode {
    match code {
        0x00 => CommandCode::PAGE,
        0x01 => CommandCode::OPERATION,
        0x02 => CommandCode::ON_OFF_CONFIG,
        0x03 => CommandCode::CLEAR_FAULTS,
        0x04 => CommandCode::PHASE,
        0x05 => CommandCode::PAGE_PLUS_WRITE,
        0x06 => CommandCode::PAGE_PLUS_READ,
        0x07 => CommandCode::ZONE_CONFIG,
        0x08 => CommandCode::ZONE_ACTIVE,
        0x09 => CommandCode::Reserved09,
        0x0a => CommandCode::Reserved0A,
        0x0b => CommandCode::Reserved0B,
        0x0c => CommandCode::Reserved0C,
        0x0d => CommandCode::Reserved0D,
        0x0e => CommandCode::Reserved0E,
        0x0f => CommandCode::Reserved0F,
        0x10 => CommandCode::WRITE_PROTECT,
        0x11 => CommandCode::STORE_DEFAULT_ALL,
        0x12 => CommandCode::RESTORE_DEFAULT_ALL,
        0x13 => CommandCode::STORE_DEFAULT_CODE,
        0x14 => CommandCode::RESTORE_DEFAULT_CODE,
        0x15 => CommandCode::STORE_USER_ALL,
        0x16 => CommandCode::RESTORE_USER_ALL,
        0x17 => CommandCode::STORE_USER_CODE,
        0x18 => CommandCode::RESTORE_USER_CODE,
        0x19 => CommandCode::CAPABILITY,
        0x1a => CommandCode::QUERY,
        0x1b => CommandCode::SMBALERT_MASK,
        0x1c => CommandCode::Reserved1C,
        0x1d => CommandCode::Reserved1D,
        0x1e => CommandCode::Reserved1E,
        0x1f => CommandCode::Reserved1F,
        0x20 => CommandCode::VOUT_MODE,
        0x21 => CommandCode::VOUT_COMMAND,
        0x22 => CommandCode::VOUT_TRIM,
        0x23 => CommandCode::VOUT_CAL_OFFSET,
        0x24 => CommandCode::VOUT_MAX,
        0x25 => CommandCode::VOUT_MARGIN_HIGH,
        0x26 => CommandCode::VOUT_MARGIN_LOW,
        0x27 => CommandCode::VOUT_TRANSITION_RATE,
        0x28 => CommandCode::VOUT_DROOP,
        0x29 => CommandCode::VOUT_SCALE_LOOP,
        0x2a => CommandCode::VOUT_SCALE_MONITOR,
        0x2b => CommandCode::VOUT_MIN,
        0x2c => CommandCode::Reserved2C,
        0x2d => CommandCode::Reserved2D,
        0x2e => CommandCode::Reserved2E,
        0x2f => CommandCode::Reserved2F,
        0x30 => CommandCode::COEFFICIENTS,
        0x31 => CommandCode::POUT_MAX,
        0x32 => CommandCode::MAX_DUTY,
        0x33 => CommandCode::FREQUENCY_SWITCH,
        0x34 => CommandCode::POWER_MODE,
        0x35 => CommandCode::VIN_ON,
        0x36 => CommandCode::VIN_OFF,
        0x37 => CommandCode::INTERLEAVE,
        0x38 => CommandCode::IOUT_CAL_GAIN,
        0x39 => CommandCode::IOUT_CAL_OFFSET,
        0x3a => CommandCode::FAN_CONFIG_1_2,
        0x3b => CommandCode::FAN_COMMAND_1,
        0x3c => CommandCode::FAN_COMMAND_2,
        0x3d => CommandCode::FAN_CONFIG_3_4,
        0x3e => CommandCode::FAN_COMMAND_3,
        0x3f => CommandCode::FAN_COMMAND_4,
        0x40 => CommandCode::VOUT_OV_FAULT_LIMIT,
        0x41 => CommandCode::VOUT_OV_FAULT_RESPONSE,
        0x42 => CommandCode::VOUT_OV_WARN_LIMIT,
        0x43 => CommandCode::VOUT_UV_WARN_LIMIT,
        0x44 => CommandCode::VOUT_UV_FAULT_LIMIT,
        0x45 => CommandCode::VOUT_UV_FAULT_RESPONSE,
        0x46 => CommandCode::IOUT_OC_FAULT_LIMIT,
        0x47 => CommandCode::IOUT_OC_FAULT_RESPONSE,
        0x48 => CommandCode::IOUT_OC_LV_FAULT_LIMIT,
        0x49 => CommandCode::IOUT_OC_LV_FAULT_RESPONSE,
        0x4a => CommandCode::IOUT_OC_WARN_LIMIT,
        0x4b => CommandCode::IOUT_UC_FAULT_LIMIT,
        0x4c => CommandCode::IOUT_UC_FAULT_RESPONSE,
        0x4d => CommandCode::Reserved4D,
        0x4e => CommandCode::Reserved4E,
        0x4f => CommandCode::OT_FAULT_LIMIT,
        0x50 => CommandCode::OT_FAULT_RESPONSE,
        0x51 => CommandCode::OT_WARN_LIMIT,
        0x52 => CommandCode::UT_WARN_LIMIT,
        0x53 => CommandCode::UT_FAULT_LIMIT,
        0x54 => CommandCode::UT_FAULT_RESPONSE,
        0x55 => CommandCode::VIN_OV_FAULT_LIMIT,
        0x56 => CommandCode::VIN_OV_FAULT_RESPONSE,
        0x57 => CommandCode::VIN_OV_WARN_LIMIT,
        0x58 => CommandCode::VIN_UV_WARN_LIMIT,
        0x59 => CommandCode::VIN_UV_FAULT_LIMIT,
        0x5a => CommandCode::VIN_UV_FAULT_RESPONSE,
        0x5b => CommandCode::IIN_OC_FAULT_LIMIT,
        0x5c => CommandCode::IIN_OC_FAULT_RESPONSE,
        0x5d => CommandCode::IIN_OC_WARN_LIMIT,
        0x5e => CommandCode::POWER_GOOD_ON,
        0x5f => CommandCode::POWER_GOOD_OFF,
        0x60 => CommandCode::TON_DELAY,
        0x61 => CommandCode::TON_RISE,
        0x62 => CommandCode::TON_MAX_FAULT_LIMIT,
        0x63 => CommandCode::TON_MAX_FAULT_RESPONSE,
        0x64 => CommandCode::TOFF_DELAY,
        0x65 => CommandCode::TOFF_FALL,
        0x66 => CommandCode::TOFF_MAX_WARN_LIMIT,
        0x67 => CommandCode::Deprecated,
        0x68 => CommandCode::POUT_OP_FAULT_LIMIT,
        0x69 => CommandCode::POUT_OP_FAULT_RESPONSE,
        0x6a => CommandCode::POUT_OP_WARN_LIMIT,
        0x6b => CommandCode::PIN_OP_WARN_LIMIT,
        0x6c => CommandCode::Reserved6C,
        0x6d => CommandCode::Reserved6D,
        0x6e => CommandCode::Reserved6E,
        0x6f => CommandCode::Reserved6F,
        0x70 => CommandCode::Reserved70,
        0x71 => CommandCode::Reserved71,
        0x72 => CommandCode::Reserved72,
        0x73 => CommandCode::Reserved73,
        0x74 => CommandCode::Reserved74,
        0x75 => CommandCode::Reserved75,
        0x76 => CommandCode::Reserved76,
        0x77 => CommandCode::Reserved77,
        0x78 => CommandCode::STATUS_BYTE,
        0x79 => CommandCode::STATUS_WORD,
        0x7a => CommandCode::STATUS_VOUT,
        0x7b => CommandCode::STATUS_IOUT,
        0x7c => CommandCode::STATUS_INPUT,
        0x7d => CommandCode::STATUS_TEMPERATURE,
        0x7e => CommandCode::STATUS_CML,
        0x7f => CommandCode::STATUS_OTHER,
        0x80 => CommandCode::STATUS_MFR_SPECIFIC,
        0x81 => CommandCode::STATUS_FANS_1_2,
        0x82 => CommandCode::STATUS_FANS_3_4,
        0x83 => CommandCode::READ_KWH_IN,
        0x84 => CommandCode::READ_KWH_OUT,
        0x85 => CommandCode::READ_KWH_CONFIG,
        0x86 => CommandCode::READ_EIN,
        0x87 => CommandCode::READ_EOUT,
        0x88 => CommandCode::READ_VIN,
        0x89 => CommandCode::READ_IIN,
        0x8a => CommandCode::READ_VCAP,
        0x8b => CommandCode::READ_VOUT,
        0x8c => CommandCode::READ_IOUT,
        0x8d => CommandCode::READ_TEMPERATURE_1,
        0x8e => CommandCode::READ_TEMPERATURE_2,
        0x8f => CommandCode::READ_TEMPERATURE_3,
        0x90 => CommandCode::READ_FAN_SPEED_1,
        0x91 => CommandCode::READ_FAN_SPEED_2,
        0x92 => CommandCode::READ_FAN_SPEED_3,
        0x93 => CommandCode::READ_FAN_SPEED_4,
        0x94 => CommandCode::READ_DUTY_CYCLE,
        0x95 => CommandCode::READ_FREQUENCY,
        0x96 => CommandCode::READ_POUT,
        0x97 => CommandCode::READ_PIN,
        0x98 => CommandCode::PMBUS_REVISION,
        0x99 => CommandCode::MFR_ID,
        0x9a => CommandCode::MFR_MODEL,
        0x9b => CommandCode::MFR_REVISION,
        0x9c => CommandCode::MFR_LOCATION,
        0x9d => CommandCode::MFR_DATE,
        0x9e => CommandCode::MFR_SERIAL,
        0x9f => CommandCode::APP_PROFILE_SUPPORT,
        0xa0 => CommandCode::MFR_VIN_MIN,
        0xa1 => CommandCode::MFR_VIN_MAX,
        0xa2 => CommandCode::MFR_IIN_MAX,
        0xa3 => CommandCode::MFR_PIN_MAX,
        0xa4 => CommandCode::MFR_VOUT_MIN,
        0xa5 => CommandCode::MFR_VOUT_MAX,
        0xa6 => CommandCode::MFR_IOUT_MAX,
        0xa7 => CommandCode::MFR_POUT_MAX,
        0xa8 => CommandCode::MFR_TAMBIENT_MAX,
        0xa9 => CommandCode::MFR_TAMBIENT_MIN,
        0xaa => CommandCode::MFR_EFFICIENCY_LL,
        0xab => CommandCode::MFR_EFFICIENCY_HL,
        0xac => CommandCode::MFR_PIN_ACCURACY,
        0xad => CommandCode::IC_DEVICE_ID,
        0xae => CommandCode::IC_DEVICE_REV,
        0xaf => CommandCode::ReservedAF,
        0xb0 => CommandCode::USER_DATA_00,
        0xb1 => CommandCode::USER_DATA_01,
        0xb2 => CommandCode::USER_DATA_02,
        0xb3 => CommandCode::USER_DATA_03,
        0xb4 => CommandCode::USER_DATA_04,
        0xb5 => CommandCode::USER_DATA_05,
        0xb6 => CommandCode::USER_DATA_06,
        0xb7 => CommandCode::USER_DATA_07,
        0xb8 => CommandCode::USER_DATA_08,
        0xb9 => CommandCode::USER_DATA_09,
        0xba => CommandCode::USER_DATA_10,
        0xbb => CommandCode::USER_DATA_11,
        0xbc => CommandCode::USER_DATA_12,
        0xbd => CommandCode::USER_DATA_13,
        0xbe => CommandCode::USER_DATA_14,
        0xbf => CommandCode::USER_DATA_15,
        0xc0 => CommandCode::MFR_MAX_TEMP_1,
        0xc1 => CommandCode::MFR_MAX_TEMP_2,
        0xc2 => CommandCode::MFR_MAX_TEMP_3,
        0xc3 => CommandCode::ReservedC3,
        0xc4 => CommandCode::MFR_SPECIFIC_C4,
        0xc5 => CommandCode::MFR_SPECIFIC_C5,
        0xc6 => CommandCode::MFR_SPECIFIC_C6,
        0xc7 => CommandCode::MFR_SPECIFIC_C7,
        0xc8 => CommandCode::MFR_SPECIFIC_C8,
        0xc9 => CommandCode::MFR_SPECIFIC_C9,
        0xca => CommandCode::MFR_SPECIFIC_CA,
        0xcb => CommandCode::MFR_SPECIFIC_CB,
        0xcc => CommandCode::MFR_SPECIFIC_CC,
        0xcd => CommandCode::MFR_SPECIFIC_CD,
        0xce => CommandCode::MFR_SPECIFIC_CE,
        0xcf => CommandCode::MFR_SPECIFIC_CF,
        0xd0 => CommandCode::MFR_SPECIFIC_D0,
        0xd1 => CommandCode::MFR_SPECIFIC_D1,
        0xd2 => CommandCode::MFR_SPECIFIC_D2,
        0xd3 => CommandCode::MFR_SPECIFIC_D3,
        0xd4 => CommandCode::MFR_SPECIFIC_D4,
        0xd5 => CommandCode::MFR_SPECIFIC_D5,
        0xd6 => CommandCode::MFR_SPECIFIC_D6,
        0xd7 => CommandCode::MFR_SPECIFIC_D7,
        0xd8 => CommandCode::MFR_SPECIFIC_D8,
        0xd9 => CommandCode::MFR_SPECIFIC_D9,
        0xda => CommandCode::MFR_SPECIFIC_DA,
        0xdb => CommandCode::MFR_SPECIFIC_DB,
        0xdc => CommandCode::MFR_SPECIFIC_DC,
        0xdd => CommandCode::MFR_SPECIFIC_DD,
        0xde => CommandCode::MFR_SPECIFIC_DE,
        0xdf => CommandCode::MFR_SPECIFIC_DF,
        0xe0 => CommandCode::MFR_SPECIFIC_E0,
        0xe1 => CommandCode::MFR_SPECIFIC_E1,
        0xe2 => CommandCode::MFR_SPECIFIC_E2,
        0xe3 => CommandCode::MFR_SPECIFIC_E3,
        0xe4 => CommandCode::MFR_SPECIFIC_E4,
        0xe5 => CommandCode::MFR_SPECIFIC_E5,
        0xe6 => CommandCode::MFR_SPECIFIC_E6,
        0xe7 => CommandCode::MFR_SPECIFIC_E7,
        0xe8 => CommandCode::MFR_SPECIFIC_E8,
        0xe9 => CommandCode::MFR_SPECIFIC_E9,
        0xea => CommandCode::MFR_SPECIFIC_EA,
        0xeb => CommandCode::MFR_SPECIFIC_EB,
        0xec => CommandCode::MFR_SPECIFIC_EC,
        0xed => CommandCode::MFR_SPECIFIC_ED,
        0xee => CommandCode::MFR_SPECIFIC_EE,
        0xef => CommandCode::MFR_SPECIFIC_EF,
        0xf0 => CommandCode::MFR_SPECIFIC_F0,
        0xf1 => CommandCode::MFR_SPECIFIC_F1,
        0xf2 => CommandCode::MFR_SPECIFIC_F2,
        0xf3 => CommandCode::MFR_SPECIFIC_F3,
        0xf4 => CommandCode::MFR_SPECIFIC_F4,
        0xf5 => CommandCode::MFR_SPECIFIC_F5,
        0xf6 => CommandCode::MFR_SPECIFIC_F6,
        0xf7 => CommandCode::MFR_SPECIFIC_F7,
        0xf8 => CommandCode::MFR_SPECIFIC_F8,
        0xf9 => CommandCode::MFR_SPECIFIC_F9,
        0xfa => CommandCode::MFR_SPECIFIC_FA,
        0xfb => CommandCode::MFR_SPECIFIC_FB,
        0xfc => CommandCode::MFR_SPECIFIC_FC,
        0xfd => CommandCode::MFR_SPECIFIC_FD,
        0xfe => CommandCode::MFR_SPECIFIC_COMMAND_EXT,
        _ => CommandCode::PMBUS_COMMAND_EXT,
    }
}

/// The canonical name of a command code.
pub open spec fn name_spec(c: CommandCode) -> &'static str {
    match c {
        CommandCode::PAGE => "PAGE",
        CommandCode::OPERATION => "OPERATION",
        CommandCode::ON_OFF_CONFIG => "ON_OFF_CONFIG",
        CommandCode::CLEAR_FAULTS => "CLEAR_FAULTS",
        CommandCode::PHASE => "PHASE",
        CommandCode::PAGE_PLUS_WRITE => "PAGE_PLUS_WRITE",
        CommandCode::PAGE_PLUS_READ => "PAGE_PLUS_READ",
        CommandCode::ZONE_CONFIG => "ZONE_CONFIG",
        CommandCode::ZONE_ACTIVE => "ZONE_ACTIVE",
        CommandCode::Reserved09 => "Reserved09",
        CommandCode::Reserved0A => "Reserved0A",
        CommandCode::Reserved0B => "Reserved0B",
        CommandCode::Reserved0C => "Reserved0C",
        CommandCode::Reserved0D => "Reserved0D",
        CommandCode::Reserved0E => "Reserved0E",
        CommandCode::Reserved0F => "Reserved0F",
        CommandCode::WRITE_PROTECT => "WRITE_PROTECT",
        CommandCode::STORE_DEFAULT_ALL => "STORE_DEFAULT_ALL",
        CommandCode::RESTORE_DEFAULT_ALL => "RESTORE_DEFAULT_ALL",
        CommandCode::STORE_DEFAULT_CODE => "STORE_DEFAULT_CODE",
        CommandCode::RESTORE_DEFAULT_CODE => "RESTORE_DEFAULT_CODE",
        CommandCode::STORE_USER_ALL => "STORE_USER_ALL",
        CommandCode::RESTORE_USER_ALL => "RESTORE_USER_ALL",
        CommandCode::STORE_USER_CODE => "STORE_USER_CODE",
        CommandCode::RESTORE_USER_CODE => "RESTORE_USER_CODE",
        CommandCode::CAPABILITY => "CAPABILITY",
        CommandCode::QUERY => "QUERY",
        CommandCode::SMBALERT_MASK => "SMBALERT_MASK",
        CommandCode::Reserved1C => "Reserved1C",
        CommandCode::Reserved1D => "Reserved1D",
        CommandCode::Reserved1E => "Reserved1E",
        CommandCode::Reserved1F => "Reserved1F",
        CommandCode::VOUT_MODE => "VOUT_MODE",
        CommandCode::VOUT_COMMAND => "VOUT_COMMAND",
        CommandCode::VOUT_TRIM => "VOUT_TRIM",
        CommandCode::VOUT_CAL_OFFSET => "VOUT_CAL_OFFSET",
        CommandCode::VOUT_MAX => "VOUT_MAX",
        CommandCode::VOUT_MARGIN_HIGH => "VOUT_MARGIN_HIGH",
        CommandCode::VOUT_MARGIN_LOW => "VOUT_MARGIN_LOW",
        CommandCode::VOUT_TRANSITION_RATE => "VOUT_TRANSITION_RATE",
        CommandCode::VOUT_DROOP => "VOUT_DROOP",
        CommandCode::VOUT_SCALE_LOOP => "VOUT_SCALE_LOOP",
        CommandCode::VOUT_SCALE_MONITOR => "VOUT_SCALE_MONITOR",
        CommandCode::VOUT_MIN => "VOUT_MIN",
        CommandCode::Reserved2C => "Reserved2C",
        CommandCode::Reserved2D => "Reserved2D",
        CommandCode::Reserved2E => "Reserved2E",
        CommandCode::Reserved2F => "Reserved2F",
        CommandCode::COEFFICIENTS => "COEFFICIENTS",
        CommandCode::POUT_MAX => "POUT_MAX",
        CommandCode::MAX_DUTY => "MAX_DUTY",
        CommandCode::FREQUENCY_SWITCH => "FREQUENCY_SWITCH",
        CommandCode::POWER_MODE => "POWER_MODE",
        CommandCode::VIN_ON => "VIN_ON",
        CommandCode::VIN_OFF => "VIN_OFF",
        CommandCode::INTERLEAVE => "INTERLEAVE",
        CommandCode::IOUT_CAL_GAIN => "IOUT_CAL_GAIN",
        CommandCode::IOUT_CAL_OFFSET => "IOUT_CAL_OFFSET",
        CommandCode::FAN_CONFIG_1_2 => "FAN_CONFIG_1_2",
        CommandCode::FAN_COMMAND_1 => "FAN_COMMAND_1",
        CommandCode::FAN_COMMAND_2 => "FAN_COMMAND_2",
        CommandCode::FAN_CONFIG_3_4 => "FAN_CONFIG_3_4",
        CommandCode::FAN_COMMAND_3 => "FAN_COMMAND_3",
        CommandCode::FAN_COMMAND_4 => "FAN_COMMAND_4",
        CommandCode::VOUT_OV_FAULT_LIMIT => "VOUT_OV_FAULT_LIMIT",
        CommandCode::VOUT_OV_FAULT_RESPONSE => "VOUT_OV_FAULT_RESPONSE",
        CommandCode::VOUT_OV_WARN_LIMIT => "VOUT_OV_WARN_LIMIT",
        CommandCode::VOUT_UV_WARN_LIMIT => "VOUT_UV_WARN_LIMIT",
        CommandCode::VOUT_UV_FAULT_LIMIT => "VOUT_UV_FAULT_LIMIT",
        CommandCode::VOUT_UV_FAULT_RESPONSE => "VOUT_UV_FAULT_RESPONSE",
        CommandCode::IOUT_OC_FAULT_LIMIT => "IOUT_OC_FAULT_LIMIT",
        CommandCode::IOUT_OC_FAULT_RESPONSE => "IOUT_OC_FAULT_RESPONSE",
        CommandCode::IOUT_OC_LV_FAULT_LIMIT => "IOUT_OC_LV_FAULT_LIMIT",
        CommandCode::IOUT_OC_LV_FAULT_RESPONSE => "IOUT_OC_LV_FAULT_RESPONSE",
        CommandCode::IOUT_OC_WARN_LIMIT => "IOUT_OC_WARN_LIMIT",
        CommandCode::IOUT_UC_FAULT_LIMIT => "IOUT_UC_FAULT_LIMIT",
        CommandCode::IOUT_UC_FAULT_RESPONSE => "IOUT_UC_FAULT_RESPONSE",
        CommandCode::Reserved4D => "Reserved4D",
        CommandCode::Reserved4E => "Reserved4E",
        CommandCode::OT_FAULT_LIMIT => "OT_FAULT_LIMIT",
        CommandCode::OT_FAULT_RESPONSE => "OT_FAULT_RESPONSE",
        CommandCode::OT_WARN_LIMIT => "OT_WARN_LIMIT",
        CommandCode::UT_WARN_LIMIT => "UT_WARN_LIMIT",
        CommandCode::UT_FAULT_LIMIT => "UT_FAULT_LIMIT",
        CommandCode::UT_FAULT_RESPONSE => "UT_FAULT_RESPONSE",
        CommandCode::VIN_OV_FAULT_LIMIT => "VIN_OV_FAULT_LIMIT",
        CommandCode::VIN_OV_FAULT_RESPONSE => "VIN_OV_FAULT_RESPONSE",
        CommandCode::VIN_OV_WARN_LIMIT => "VIN_OV_WARN_LIMIT",
        CommandCode::VIN_UV_WARN_LIMIT => "VIN_UV_WARN_LIMIT",
        CommandCode::VIN_UV_FAULT_LIMIT => "VIN_UV_FAULT_LIMIT",
        CommandCode::VIN_UV_FAULT_RESPONSE => "VIN_UV_FAULT_RESPONSE",
        CommandCode::IIN_OC_FAULT_LIMIT => "IIN_OC_FAULT_LIMIT",
        CommandCode::IIN_OC_FAULT_RESPONSE => "IIN_OC_FAULT_RESPONSE",
        CommandCode::IIN_OC_WARN_LIMIT => "IIN_OC_WARN_LIMIT",
        CommandCode::POWER_GOOD_ON => "POWER_GOOD_ON",
        CommandCode::POWER_GOOD_OFF => "POWER_GOOD_OFF",
        CommandCode::TON_DELAY => "TON_DELAY",
        CommandCode::TON_RISE => "TON_RISE",
        CommandCode::TON_MAX_FAULT_LIMIT => "TON_MAX_FAULT_LIMIT",
        CommandCode::TON_MAX_FAULT_RESPONSE => "TON_MAX_FAULT_RESPONSE",
        CommandCode::TOFF_DELAY => "TOFF_DELAY",
        CommandCode::TOFF_FALL => "TOFF_FALL",
        CommandCode::TOFF_MAX_WARN_LIMIT => "TOFF_MAX_WARN_LIMIT",
        CommandCode::Deprecated => "Deprecated",
        CommandCode::POUT_OP_FAULT_LIMIT => "POUT_OP_FAULT_LIMIT",
        CommandCode::POUT_OP_FAULT_RESPONSE => "POUT_OP_FAULT_RESPONSE",
        CommandCode::POUT_OP_WARN_LIMIT => "POUT_OP_WARN_LIMIT",
        CommandCode::PIN_OP_WARN_LIMIT => "PIN_OP_WARN_LIMIT",
        CommandCode::Reserved6C => "Reserved6C",
        CommandCode::Reserved6D => "Reserved6D",
        CommandCode::Reserved6E => "Reserved6E",
        CommandCode::Reserved6F => "Reserved6F",
        CommandCode::Reserved70 => "Reserved70",
        CommandCode::Reserved71 => "Reserved71",
        CommandCode::Reserved72 => "Reserved72",
        CommandCode::Reserved73 => "Reserved73",
        CommandCode::Reserved74 => "Reserved74",
        CommandCode::Reserved75 => "Reserved75",
        CommandCode::Reserved76 => "Reserved76",
        CommandCode::Reserved77 => "Reserved77",
        CommandCode::STATUS_BYTE => "STATUS_BYTE",
        CommandCode::STATUS_WORD => "STATUS_WORD",
        CommandCode::STATUS_VOUT => "STATUS_VOUT",
        CommandCode::STATUS_IOUT => "STATUS_IOUT",
        CommandCode::STATUS_INPUT => "STATUS_INPUT",
        CommandCode::STATUS_TEMPERATURE => "STATUS_TEMPERATURE",
        CommandCode::STATUS_CML => "STATUS_CML",
        CommandCode::STATUS_OTHER => "STATUS_OTHER",
        CommandCode::STATUS_MFR_SPECIFIC => "STATUS_MFR_SPECIFIC",
        CommandCode::STATUS_FANS_1_2 => "STATUS_FANS_1_2",
        CommandCode::STATUS_FANS_3_4 => "STATUS_FANS_3_4",
        CommandCode::READ_KWH_IN => "READ_KWH_IN",
        CommandCode::READ_KWH_OUT => "READ_KWH_OUT",
        CommandCode::READ_KWH_CONFIG => "READ_KWH_CONFIG",
        CommandCode::READ_EIN => "READ_EIN",
        CommandCode::READ_EOUT => "READ_EOUT",
        CommandCode::READ_VIN => "READ_VIN",
        CommandCode::READ_IIN => "READ_IIN",
        CommandCode::READ_VCAP => "READ_VCAP",
        CommandCode::READ_VOUT => "READ_VOUT",
        CommandCode::READ_IOUT => "READ_IOUT",
        CommandCode::READ_TEMPERATURE_1 => "READ_TEMPERATURE_1",
        CommandCode::READ_TEMPERATURE_2 => "READ_TEMPERATURE_2",
        CommandCode::READ_TEMPERATURE_3 => "READ_TEMPERATURE_3",
        CommandCode::READ_FAN_SPEED_1 => "READ_FAN_SPEED_1",
        CommandCode::READ_FAN_SPEED_2 => "READ_FAN_SPEED_2",
        CommandCode::READ_FAN_SPEED_3 => "READ_FAN_SPEED_3",
        CommandCode::READ_FAN_SPEED_4 => "READ_FAN_SPEED_4",
        CommandCode::READ_DUTY_CYCLE => "READ_DUTY_CYCLE",
        CommandCode::READ_FREQUENCY => "READ_FREQUENCY",
        CommandCode::READ_POUT => "READ_POUT",
        CommandCode::READ_PIN => "READ_PIN",
        CommandCode::PMBUS_REVISION => "PMBUS_REVISION",
        CommandCode::MFR_ID => "MFR_ID",
        CommandCode::MFR_MODEL => "MFR_MODEL",
        CommandCode::MFR_REVISION => "MFR_REVISION",
        CommandCode::MFR_LOCATION => "MFR_LOCATION",
        CommandCode::MFR_DATE => "MFR_DATE",
        CommandCode::MFR_SERIAL => "MFR_SERIAL",
        CommandCode::APP_PROFILE_SUPPORT => "APP_PROFILE_SUPPORT",
        CommandCode::MFR_VIN_MIN => "MFR_VIN_MIN",
        CommandCode::MFR_VIN_MAX => "MFR_VIN_MAX",
        CommandCode::MFR_IIN_MAX => "MFR_IIN_MAX",
        CommandCode::MFR_PIN_MAX => "MFR_PIN_MAX",
        CommandCode::MFR_VOUT_MIN => "MFR_VOUT_MIN",
        CommandCode::MFR_VOUT_MAX => "MFR_VOUT_MAX",
        CommandCode::MFR_IOUT_MAX => "MFR_IOUT_MAX",
        CommandCode::MFR_POUT_MAX => "MFR_POUT_MAX",
        CommandCode::MFR_TAMBIENT_MAX => "MFR_TAMBIENT_MAX",
        CommandCode::MFR_TAMBIENT_MIN => "MFR_TAMBIENT_MIN",
        CommandCode::MFR_EFFICIENCY_LL => "MFR_EFFICIENCY_LL",
        CommandCode::MFR_EFFICIENCY_HL => "MFR_EFFICIENCY_HL",
        CommandCode::MFR_PIN_ACCURACY => "MFR_PIN_ACCURACY",
        CommandCode::IC_DEVICE_ID => "IC_DEVICE_ID",
        CommandCode::IC_DEVICE_REV => "IC_DEVICE_REV",
        CommandCode::ReservedAF => "ReservedAF",
        CommandCode::USER_DATA_00 => "USER_DATA_00",
        CommandCode::USER_DATA_01 => "USER_DATA_01",
        CommandCode::USER_DATA_02 => "USER_DATA_02",
        CommandCode::USER_DATA_03 => "USER_DATA_03",
        CommandCode::USER_DATA_04 => "USER_DATA_04",
        CommandCode::USER_DATA_05 => "USER_DATA_05",
        CommandCode::USER_DATA_06 => "USER_DATA_06",
        CommandCode::USER_DATA_07 => "USER_DATA_07",
        CommandCode::USER_DATA_08 => "USER_DATA_08",
        CommandCode::USER_DATA_09 => "USER_DATA_09",
        CommandCode::USER_DATA_10 => "USER_DATA_10",
        CommandCode::USER_DATA_11 => "USER_DATA_11",
        CommandCode::USER_DATA_12 => "USER_DATA_12",
        CommandCode::USER_DATA_13 => "USER_DATA_13",
        CommandCode::USER_DATA_14 => "USER_DATA_14",
        CommandCode::USER_DATA_15 => "USER_DATA_15",
        CommandCode::MFR_MAX_TEMP_1 => "MFR_MAX_TEMP_1",
        CommandCode::MFR_MAX_TEMP_2 => "MFR_MAX_TEMP_2",
        CommandCode::MFR_MAX_TEMP_3 => "MFR_MAX_TEMP_3",
        CommandCode::ReservedC3 => "ReservedC3",
        CommandCode::MFR_SPECIFIC_C4 => "MFR_SPECIFIC_C4",
        CommandCode::MFR_SPECIFIC_C5 => "MFR_SPECIFIC_C5",
        CommandCode::MFR_SPECIFIC_C6 => "MFR_SPECIFIC_C6",
        CommandCode::MFR_SPECIFIC_C7 => "MFR_SPECIFIC_C7",
        CommandCode::MFR_SPECIFIC_C8 => "MFR_SPECIFIC_C8",
        CommandCode::MFR_SPECIFIC_C9 => "MFR_SPECIFIC_C9",
        CommandCode::MFR_SPECIFIC_CA => "MFR_SPECIFIC_CA",
        CommandCode::MFR_SPECIFIC_CB => "MFR_SPECIFIC_CB",
        CommandCode::MFR_SPECIFIC_CC => "MFR_SPECIFIC_CC",
        CommandCode::MFR_SPECIFIC_CD => "MFR_SPECIFIC_CD",
        CommandCode::MFR_SPECIFIC_CE => "MFR_SPECIFIC_CE",
        CommandCode::MFR_SPECIFIC_CF => "MFR_SPECIFIC_CF",
        CommandCode::MFR_SPECIFIC_D0 => "MFR_SPECIFIC_D0",
        CommandCode::MFR_SPECIFIC_D1 => "MFR_SPECIFIC_D1",
        CommandCode::MFR_SPECIFIC_D2 => "MFR_SPECIFIC_D2",
        CommandCode::MFR_SPECIFIC_D3 => "MFR_SPECIFIC_D3",
        CommandCode::MFR_SPECIFIC_D4 => "MFR_SPECIFIC_D4",
        CommandCode::MFR_SPECIFIC_D5 => "MFR_SPECIFIC_D5",
        CommandCode::MFR_SPECIFIC_D6 => "MFR_SPECIFIC_D6",
        CommandCode::MFR_SPECIFIC_D7 => "MFR_SPECIFIC_D7",
        CommandCode::MFR_SPECIFIC_D8 => "MFR_SPECIFIC_D8",
        CommandCode::MFR_SPECIFIC_D9 => "MFR_SPECIFIC_D9",
        CommandCode::MFR_SPECIFIC_DA => "MFR_SPECIFIC_DA",
        CommandCode::MFR_SPECIFIC_DB => "MFR_SPECIFIC_DB",
        CommandCode::MFR_SPECIFIC_DC => "MFR_SPECIFIC_DC",
        CommandCode::MFR_SPECIFIC_DD => "MFR_SPECIFIC_DD",
        CommandCode::MFR_SPECIFIC_DE => "MFR_SPECIFIC_DE",
        CommandCode::MFR_SPECIFIC_DF => "MFR_SPECIFIC_DF",
        CommandCode::MFR_SPECIFIC_E0 => "MFR_SPECIFIC_E0",
        CommandCode::MFR_SPECIFIC_E1 => "MFR_SPECIFIC_E1",
        CommandCode::MFR_SPECIFIC_E2 => "MFR_SPECIFIC_E2",
        CommandCode::MFR_SPECIFIC_E3 => "MFR_SPECIFIC_E3",
        CommandCode::MFR_SPECIFIC_E4 => "MFR_SPECIFIC_E4",
        CommandCode::MFR_SPECIFIC_E5 => "MFR_SPECIFIC_E5",
        CommandCode::MFR_SPECIFIC_E6 => "MFR_SPECIFIC_E6",
        CommandCode::MFR_SPECIFIC_E7 => "MFR_SPECIFIC_E7",
        CommandCode::MFR_SPECIFIC_E8 => "MFR_SPECIFIC_E8",
        CommandCode::MFR_SPECIFIC_E9 => "MFR_SPECIFIC_E9",
        CommandCode::MFR_SPECIFIC_EA => "MFR_SPECIFIC_EA",
        CommandCode::MFR_SPECIFIC_EB => "MFR_SPECIFIC_EB",
        CommandCode::MFR_SPECIFIC_EC => "MFR_SPECIFIC_EC",
        CommandCode::MFR_SPECIFIC_ED => "MFR_SPECIFIC_ED",
        CommandCode::MFR_SPECIFIC_EE => "MFR_SPECIFIC_EE",
        CommandCode::MFR_SPECIFIC_EF => "MFR_SPECIFIC_EF",
        CommandCode::MFR_SPECIFIC_F0 => "MFR_SPECIFIC_F0",
        CommandCode::MFR_SPECIFIC_F1 => "MFR_SPECIFIC_F1",
        CommandCode::MFR_SPECIFIC_F2 => "MFR_SPECIFIC_F2",
        CommandCode::MFR_SPECIFIC_F3 => "MFR_SPECIFIC_F3",
        CommandCode::MFR_SPECIFIC_F4 => "MFR_SPECIFIC_F4",
        CommandCode::MFR_SPECIFIC_F5 => "MFR_SPECIFIC_F5",
        CommandCode::MFR_SPECIFIC_F6 => "MFR_SPECIFIC_F6",
        CommandCode::MFR_SPECIFIC_F7 => "MFR_SPECIFIC_F7",
        CommandCode::MFR_SPECIFIC_F8 => "MFR_SPECIFIC_F8",
        CommandCode::MFR_SPECIFIC_F9 => "MFR_SPECIFIC_F9",
        CommandCode::MFR_SPECIFIC_FA => "MFR_SPECIFIC_FA",
        CommandCode::MFR_SPECIFIC_FB => "MFR_SPECIFIC_FB",
        CommandCode::MFR_SPECIFIC_FC => "MFR_SPECIFIC_FC",
        CommandCode::MFR_SPECIFIC_FD => "MFR_SPECIFIC_FD",
        CommandCode::MFR_SPECIFIC_COMMAND_EXT => "MFR_SPECIFIC_COMMAND_EXT",
        CommandCode::PMBUS_COMMAND_EXT => "PMBUS_COMMAND_EXT",
    }
}

/// The byte-to-code mapping inverts the code-to-byte mapping: the table
/// is injective by construction.
pub proof fn lemma_from_code(c: CommandCode)
    ensures
        from_code_spec(code_spec(c)) == c,
{
    match c {
        CommandCode::PAGE => {},
        CommandCode::OPERATION => {},
        CommandCode::ON_OFF_CONFIG => {},
        CommandCode::CLEAR_FAULTS => {},
        CommandCode::PHASE => {},
        CommandCode::PAGE_PLUS_WRITE => {},
        CommandCode::PAGE_PLUS_READ => {},
        CommandCode::ZONE_CONFIG => {},
        CommandCode::ZONE_ACTIVE => {},
        CommandCode::Reserved09 => {},
        CommandCode::Reserved0A => {},
        CommandCode::Reserved0B => {},
        CommandCode::Reserved0C => {},
        CommandCode::Reserved0D => {},
        CommandCode::Reserved0E => {},
        CommandCode::Reserved0F => {},
        CommandCode::WRITE_PROTECT => {},
        CommandCode::STORE_DEFAULT_ALL => {},
        CommandCode::RESTORE_DEFAULT_ALL => {},
        CommandCode::STORE_DEFAULT_CODE => {},
        CommandCode::RESTORE_DEFAULT_CODE => {},
        CommandCode::STORE_USER_ALL => {},
        CommandCode::RESTORE_USER_ALL => {},
        CommandCode::STORE_USER_CODE => {},
        CommandCode::RESTORE_USER_CODE => {},
        CommandCode::CAPABILITY => {},
        CommandCode::QUERY => {},
        CommandCode::SMBALERT_MASK => {},
        CommandCode::Reserved1C => {},
        CommandCode::Reserved1D => {},
        CommandCode::Reserved1E => {},
        CommandCode::Reserved1F => {},
        CommandCode::VOUT_MODE => {},
        CommandCode::VOUT_COMMAND => {},
        CommandCode::VOUT_TRIM => {},
        CommandCode::VOUT_CAL_OFFSET => {},
        CommandCode::VOUT_MAX => {},
        CommandCode::VOUT_MARGIN_HIGH => {},
        CommandCode::VOUT_MARGIN_LOW => {},
        CommandCode::VOUT_TRANSITION_RATE => {},
        CommandCode::VOUT_DROOP => {},
        CommandCode::VOUT_SCALE_LOOP => {},
        CommandCode::VOUT_SCALE_MONITOR => {},
        CommandCode::VOUT_MIN => {},
        CommandCode::Reserved2C => {},
        CommandCode::Reserved2D => {},
        CommandCode::Reserved2E => {},
        CommandCode::Reserved2F => {},
        CommandCode::COEFFICIENTS => {},
        CommandCode::POUT_MAX => {},
        CommandCode::MAX_DUTY => {},
        CommandCode::FREQUENCY_SWITCH => {},
        CommandCode::POWER_MODE => {},
        CommandCode::VIN_ON => {},
        CommandCode::VIN_OFF => {},
        CommandCode::INTERLEAVE => {},
        CommandCode::IOUT_CAL_GAIN => {},
        CommandCode::IOUT_CAL_OFFSET => {},
        CommandCode::FAN_CONFIG_1_2 => {},
        CommandCode::FAN_COMMAND_1 => {},
        CommandCode::FAN_COMMAND_2 => {},
        CommandCode::FAN_CONFIG_3_4 => {},
        CommandCode::FAN_COMMAND_3 => {},
        CommandCode::FAN_COMMAND_4 => {},
        CommandCode::VOUT_OV_FAULT_LIMIT => {},
        CommandCode::VOUT_OV_FAULT_RESPONSE => {},
        CommandCode::VOUT_OV_WARN_LIMIT => {},
        CommandCode::VOUT_UV_WARN_LIMIT => {},
        CommandCode::VOUT_UV_FAULT_LIMIT => {},
        CommandCode::VOUT_UV_FAULT_RESPONSE => {},
        CommandCode::IOUT_OC_FAULT_LIMIT => {},
        CommandCode::IOUT_OC_FAULT_RESPONSE => {},
        CommandCode::IOUT_OC_LV_FAULT_LIMIT => {},
        CommandCode::IOUT_OC_LV_FAULT_RESPONSE => {},
        CommandCode::IOUT_OC_WARN_LIMIT => {},
        CommandCode::IOUT_UC_FAULT_LIMIT => {},
        CommandCode::IOUT_UC_FAULT_RESPONSE => {},
        CommandCode::Reserved4D => {},
        CommandCode::Reserved4E => {},
        CommandCode::OT_FAULT_LIMIT => {},
        CommandCode::OT_FAULT_RESPONSE => {},
        CommandCode::OT_WARN_LIMIT => {},
        CommandCode::UT_WARN_LIMIT => {},
        CommandCode::UT_FAULT_LIMIT => {},
        CommandCode::UT_FAULT_RESPONSE => {},
        CommandCode::VIN_OV_FAULT_LIMIT => {},
        CommandCode::VIN_OV_FAULT_RESPONSE => {},
        CommandCode::VIN_OV_WARN_LIMIT => {},
        CommandCode::VIN_UV_WARN_LIMIT => {},
        CommandCode::VIN_UV_FAULT_LIMIT => {},
        CommandCode::VIN_UV_FAULT_RESPONSE => {},
        CommandCode::IIN_OC_FAULT_LIMIT => {},
        CommandCode::IIN_OC_FAULT_RESPONSE => {},
        CommandCode::IIN_OC_WARN_LIMIT => {},
        CommandCode::POWER_GOOD_ON => {},
        CommandCode::POWER_GOOD_OFF => {},
        CommandCode::TON_DELAY => {},
        CommandCode::TON_RISE => {},
        CommandCode::TON_MAX_FAULT_LIMIT => {},
        CommandCode::TON_MAX_FAULT_RESPONSE => {},
        CommandCode::TOFF_DELAY => {},
        CommandCode::TOFF_FALL => {},
        CommandCode::TOFF_MAX_WARN_LIMIT => {},
        CommandCode::Deprecated => {},
        CommandCode::POUT_OP_FAULT_LIMIT => {},
        CommandCode::POUT_OP_FAULT_RESPONSE => {},
        CommandCode::POUT_OP_WARN_LIMIT => {},
        CommandCode::PIN_OP_WARN_LIMIT => {},
        CommandCode::Reserved6C => {},
        CommandCode::Reserved6D => {},
        CommandCode::Reserved6E => {},
        CommandCode::Reserved6F => {},
        CommandCode::Reserved70 => {},
        CommandCode::Reserved71 => {},
        CommandCode::Reserved72 => {},
        CommandCode::Reserved73 => {},
        CommandCode::Reserved74 => {},
        CommandCode::Reserved75 => {},
        CommandCode::Reserved76 => {},
        CommandCode::Reserved77 => {},
        CommandCode::STATUS_BYTE => {},
        CommandCode::STATUS_WORD => {},
        CommandCode::STATUS_VOUT => {},
        CommandCode::STATUS_IOUT => {},
        CommandCode::STATUS_INPUT => {},
        CommandCode::STATUS_TEMPERATURE => {},
        CommandCode::STATUS_CML => {},
        CommandCode::STATUS_OTHER => {},
        CommandCode::STATUS_MFR_SPECIFIC => {},
        CommandCode::STATUS_FANS_1_2 => {},
        CommandCode::STATUS_FANS_3_4 => {},
        CommandCode::READ_KWH_IN => {},
        CommandCode::READ_KWH_OUT => {},
        CommandCode::READ_KWH_CONFIG => {},
        CommandCode::READ_EIN => {},
        CommandCode::READ_EOUT => {},
        CommandCode::READ_VIN => {},
        CommandCode::READ_IIN => {},
        CommandCode::READ_VCAP => {},
        CommandCode::READ_VOUT => {},
        CommandCode::READ_IOUT => {},
        CommandCode::READ_TEMPERATURE_1 => {},
        CommandCode::READ_TEMPERATURE_2 => {},
        CommandCode::READ_TEMPERATURE_3 => {},
        CommandCode::READ_FAN_SPEED_1 => {},
        CommandCode::READ_FAN_SPEED_2 => {},
        CommandCode::READ_FAN_SPEED_3 => {},
        CommandCode::READ_FAN_SPEED_4 => {},
        CommandCode::READ_DUTY_CYCLE => {},
        CommandCode::READ_FREQUENCY => {},
        CommandCode::READ_POUT => {},
        CommandCode::READ_PIN => {},
        CommandCode::PMBUS_REVISION => {},
        CommandCode::MFR_ID => {},
        CommandCode::MFR_MODEL => {},
        CommandCode::MFR_REVISION => {},
        CommandCode::MFR_LOCATION => {},
        CommandCode::MFR_DATE => {},
        CommandCode::MFR_SERIAL => {},
        CommandCode::APP_PROFILE_SUPPORT => {},
        CommandCode::MFR_VIN_MIN => {},
        CommandCode::MFR_VIN_MAX => {},
        CommandCode::MFR_IIN_MAX => {},
        CommandCode::MFR_PIN_MAX => {},
        CommandCode::MFR_VOUT_MIN => {},
        CommandCode::MFR_VOUT_MAX => {},
        CommandCode::MFR_IOUT_MAX => {},
        CommandCode::MFR_POUT_MAX => {},
        CommandCode::MFR_TAMBIENT_MAX => {},
        CommandCode::MFR_TAMBIENT_MIN => {},
        CommandCode::MFR_EFFICIENCY_LL => {},
        CommandCode::MFR_EFFICIENCY_HL => {},
        CommandCode::MFR_PIN_ACCURACY => {},
        CommandCode::IC_DEVICE_ID => {},
        CommandCode::IC_DEVICE_REV => {},
        CommandCode::ReservedAF => {},
        CommandCode::USER_DATA_00 => {},
        CommandCode::USER_DATA_01 => {},
        CommandCode::USER_DATA_02 => {},
        CommandCode::USER_DATA_03 => {},
        CommandCode::USER_DATA_04 => {},
        CommandCode::USER_DATA_05 => {},
        CommandCode::USER_DATA_06 => {},
        CommandCode::USER_DATA_07 => {},
        CommandCode::USER_DATA_08 => {},
        CommandCode::USER_DATA_09 => {},
        CommandCode::USER_DATA_10 => {},
        CommandCode::USER_DATA_11 => {},
        CommandCode::USER_DATA_12 => {},
        CommandCode::USER_DATA_13 => {},
        CommandCode::USER_DATA_14 => {},
        CommandCode::USER_DATA_15 => {},
        CommandCode::MFR_MAX_TEMP_1 => {},
        CommandCode::MFR_MAX_TEMP_2 => {},
        CommandCode::MFR_MAX_TEMP_3 => {},
        CommandCode::ReservedC3 => {},
        CommandCode::MFR_SPECIFIC_C4 => {},
        CommandCode::MFR_SPECIFIC_C5 => {},
        CommandCode::MFR_SPECIFIC_C6 => {},
        CommandCode::MFR_SPECIFIC_C7 => {},
        CommandCode::MFR_SPECIFIC_C8 => {},
        CommandCode::MFR_SPECIFIC_C9 => {},
        CommandCode::MFR_SPECIFIC_CA => {},
        CommandCode::MFR_SPECIFIC_CB => {},
        CommandCode::MFR_SPECIFIC_CC => {},
        CommandCode::MFR_SPECIFIC_CD => {},
        CommandCode::MFR_SPECIFIC_CE => {},
        CommandCode::MFR_SPECIFIC_CF => {},
        CommandCode::MFR_SPECIFIC_D0 => {},
        CommandCode::MFR_SPECIFIC_D1 => {},
        CommandCode::MFR_SPECIFIC_D2 => {},
        CommandCode::MFR_SPECIFIC_D3 => {},
        CommandCode::MFR_SPECIFIC_D4 => {},
        CommandCode::MFR_SPECIFIC_D5 => {},
        CommandCode::MFR_SPECIFIC_D6 => {},
        CommandCode::MFR_SPECIFIC_D7 => {},
        CommandCode::MFR_SPECIFIC_D8 => {},
        CommandCode::MFR_SPECIFIC_D9 => {},
        CommandCode::MFR_SPECIFIC_DA => {},
        CommandCode::MFR_SPECIFIC_DB => {},
        CommandCode::MFR_SPECIFIC_DC => {},
        CommandCode::MFR_SPECIFIC_DD => {},
        CommandCode::MFR_SPECIFIC_DE => {},
        CommandCode::MFR_SPECIFIC_DF => {},
        CommandCode::MFR_SPECIFIC_E0 => {},
        CommandCode::MFR_SPECIFIC_E1 => {},
        CommandCode::MFR_SPECIFIC_E2 => {},
        CommandCode::MFR_SPECIFIC_E3 => {},
        CommandCode::MFR_SPECIFIC_E4 => {},
        CommandCode::MFR_SPECIFIC_E5 => {},
        CommandCode::MFR_SPECIFIC_E6 => {},
        CommandCode::MFR_SPECIFIC_E7 => {},
        CommandCode::MFR_SPECIFIC_E8 => {},
        CommandCode::MFR_SPECIFIC_E9 => {},
        CommandCode::MFR_SPECIFIC_EA => {},
        CommandCode::MFR_SPECIFIC_EB => {},
        CommandCode::MFR_SPECIFIC_EC => {},
        CommandCode::MFR_SPECIFIC_ED => {},
        CommandCode::MFR_SPECIFIC_EE => {},
        CommandCode::MFR_SPECIFIC_EF => {},
        CommandCode::MFR_SPECIFIC_F0 => {},
        CommandCode::MFR_SPECIFIC_F1 => {},
        CommandCode::MFR_SPECIFIC_F2 => {},
        CommandCode::MFR_SPECIFIC_F3 => {},
        CommandCode::MFR_SPECIFIC_F4 => {},
        CommandCode::MFR_SPECIFIC_F5 => {},
        CommandCode::MFR_SPECIFIC_F6 => {},
        CommandCode::MFR_SPECIFIC_F7 => {},
        CommandCode::MFR_SPECIFIC_F8 => {},
        CommandCode::MFR_SPECIFIC_F9 => {},
        CommandCode::MFR_SPECIFIC_FA => {},
        CommandCode::MFR_SPECIFIC_FB => {},
        CommandCode::MFR_SPECIFIC_FC => {},
        CommandCode::MFR_SPECIFIC_FD => {},
        CommandCode::MFR_SPECIFIC_COMMAND_EXT => {},
        CommandCode::PMBUS_COMMAND_EXT => {},
    }
}

/// No two distinct command codes share a byte value.
pub proof fn lemma_code_injective(a: CommandCode, b: CommandCode)
    requires
        code_spec(a) == code_spec(b),
    ensures
        a == b,
{
    lemma_from_code(a);
    lemma_from_code(b);
}

impl CommandCode {
    /// The byte value of this command code.
    #[verifier::rlimit(100)]
    pub fn code(&self) -> (r: u8)
        ensures
            r == code_spec(*self),
    {
        match *self {
            CommandCode::PAGE => 0x00,
            CommandCode::OPERATION => 0x01,
            CommandCode::ON_OFF_CONFIG => 0x02,
            CommandCode::CLEAR_FAULTS => 0x03,
            CommandCode::PHASE => 0x04,
            CommandCode::PAGE_PLUS_WRITE => 0x05,
            CommandCode::PAGE_PLUS_READ => 0x06,
            CommandCode::ZONE_CONFIG => 0x07,
            CommandCode::ZONE_ACTIVE => 0x08,
            CommandCode::Reserved09 => 0x09,
            CommandCode::Reserved0A => 0x0a,
            CommandCode::Reserved0B => 0x0b,
            CommandCode::Reserved0C => 0x0c,
            CommandCode::Reserved0D => 0x0d,
            CommandCode::Reserved0E => 0x0e,
            CommandCode::Reserved0F => 0x0f,
            CommandCode::WRITE_PROTECT => 0x10,
            CommandCode::STORE_DEFAULT_ALL => 0x11,
            CommandCode::RESTORE_DEFAULT_ALL => 0x12,
            CommandCode::STORE_DEFAULT_CODE => 0x13,
            CommandCode::RESTORE_DEFAULT_CODE => 0x14,
            CommandCode::STORE_USER_ALL => 0x15,
            CommandCode::RESTORE_USER_ALL => 0x16,
            CommandCode::STORE_USER_CODE => 0x17,
            CommandCode::RESTORE_USER_CODE => 0x18,
            CommandCode::CAPABILITY => 0x19,
            CommandCode::QUERY => 0x1a,
            CommandCode::SMBALERT_MASK => 0x1b,
            CommandCode::Reserved1C => 0x1c,
            CommandCode::Reserved1D => 0x1d,
            CommandCode::Reserved1E => 0x1e,
            CommandCode::Reserved1F => 0x1f,
            CommandCode::VOUT_MODE => 0x20,
            CommandCode::VOUT_COMMAND => 0x21,
            CommandCode::VOUT_TRIM => 0x22,
            CommandCode::VOUT_CAL_OFFSET => 0x23,
            CommandCode::VOUT_MAX => 0x24,
            CommandCode::VOUT_MARGIN_HIGH => 0x25,
            CommandCode::VOUT_MARGIN_LOW => 0x26,
            CommandCode::VOUT_TRANSITION_RATE => 0x27,
            CommandCode::VOUT_DROOP => 0x28,
            CommandCode::VOUT_SCALE_LOOP => 0x29,
            CommandCode::VOUT_SCALE_MONITOR => 0x2a,
            CommandCode::VOUT_MIN => 0x2b,
            CommandCode::Reserved2C => 0x2c,
            CommandCode::Reserved2D => 0x2d,
            CommandCode::Reserved2E => 0x2e,
            CommandCode::Reserved2F => 0x2f,
            CommandCode::COEFFICIENTS => 0x30,
            CommandCode::POUT_MAX => 0x31,
            CommandCode::MAX_DUTY => 0x32,
            CommandCode::FREQUENCY_SWITCH => 0x33,
            CommandCode::POWER_MODE => 0x34,
            CommandCode::VIN_ON => 0x35,
            CommandCode::VIN_OFF => 0x36,
            CommandCode::INTERLEAVE => 0x37,
            CommandCode::IOUT_CAL_GAIN => 0x38,
            CommandCode::IOUT_CAL_OFFSET => 0x39,
            CommandCode::FAN_CONFIG_1_2 => 0x3a,
            CommandCode::FAN_COMMAND_1 => 0x3b,
            CommandCode::FAN_COMMAND_2 => 0x3c,
            CommandCode::FAN_CONFIG_3_4 => 0x3d,
            CommandCode::FAN_COMMAND_3 => 0x3e,
            CommandCode::FAN_COMMAND_4 => 0x3f,
            CommandCode::VOUT_OV_FAULT_LIMIT => 0x40,
            CommandCode::VOUT_OV_FAULT_RESPONSE => 0x41,
            CommandCode::VOUT_OV_WARN_LIMIT => 0x42,
            CommandCode::VOUT_UV_WARN_LIMIT => 0x43,
            CommandCode::VOUT_UV_FAULT_LIMIT => 0x44,
            CommandCode::VOUT_UV_FAULT_RESPONSE => 0x45,
            CommandCode::IOUT_OC_FAULT_LIMIT => 0x46,
            CommandCode::IOUT_OC_FAULT_RESPONSE => 0x47,
            CommandCode::IOUT_OC_LV_FAULT_LIMIT => 0x48,
            CommandCode::IOUT_OC_LV_FAULT_RESPONSE => 0x49,
            CommandCode::IOUT_OC_WARN_LIMIT => 0x4a,
            CommandCode::IOUT_UC_FAULT_LIMIT => 0x4b,
            CommandCode::IOUT_UC_FAULT_RESPONSE => 0x4c,
            CommandCode::Reserved4D => 0x4d,
            CommandCode::Reserved4E => 0x4e,
            CommandCode::OT_FAULT_LIMIT => 0x4f,
            CommandCode::OT_FAULT_RESPONSE => 0x50,
            CommandCode::OT_WARN_LIMIT => 0x51,
            CommandCode::UT_WARN_LIMIT => 0x52,
            CommandCode::UT_FAULT_LIMIT => 0x53,
            CommandCode::UT_FAULT_RESPONSE => 0x54,
            CommandCode::VIN_OV_FAULT_LIMIT => 0x55,
            CommandCode::VIN_OV_FAULT_RESPONSE => 0x56,
            CommandCode::VIN_OV_WARN_LIMIT => 0x57,
            CommandCode::VIN_UV_WARN_LIMIT => 0x58,
            CommandCode::VIN_UV_FAULT_LIMIT => 0x59,
            CommandCode::VIN_UV_FAULT_RESPONSE => 0x5a,
            CommandCode::IIN_OC_FAULT_LIMIT => 0x5b,
            CommandCode::IIN_OC_FAULT_RESPONSE => 0x5c,
            CommandCode::IIN_OC_WARN_LIMIT => 0x5d,
            CommandCode::POWER_GOOD_ON => 0x5e,
            CommandCode::POWER_GOOD_OFF => 0x5f,
            CommandCode::TON_DELAY => 0x60,
            CommandCode::TON_RISE => 0x61,
            CommandCode::TON_MAX_FAULT_LIMIT => 0x62,
            CommandCode::TON_MAX_FAULT_RESPONSE => 0x63,
            CommandCode::TOFF_DELAY => 0x64,
            CommandCode::TOFF_FALL => 0x65,
            CommandCode::TOFF_MAX_WARN_LIMIT => 0x66,
            CommandCode::Deprecated => 0x67,
            CommandCode::POUT_OP_FAULT_LIMIT => 0x68,
            CommandCode::POUT_OP_FAULT_RESPONSE => 0x69,
            CommandCode::POUT_OP_WARN_LIMIT => 0x6a,
            CommandCode::PIN_OP_WARN_LIMIT => 0x6b,
            CommandCode::Reserved6C => 0x6c,
            CommandCode::Reserved6D => 0x6d,
            CommandCode::Reserved6E => 0x6e,
            CommandCode::Reserved6F => 0x6f,
            CommandCode::Reserved70 => 0x70,
            CommandCode::Reserved71 => 0x71,
            CommandCode::Reserved72 => 0x72,
            CommandCode::Reserved73 => 0x73,
            CommandCode::Reserved74 => 0x74,
            CommandCode::Reserved75 => 0x75,
            CommandCode::Reserved76 => 0x76,
            CommandCode::Reserved77 => 0x77,
            CommandCode::STATUS_BYTE => 0x78,
            CommandCode::STATUS_WORD => 0x79,
            CommandCode::STATUS_VOUT => 0x7a,
            CommandCode::STATUS_IOUT => 0x7b,
            CommandCode::STATUS_INPUT => 0x7c,
            CommandCode::STATUS_TEMPERATURE => 0x7d,
            CommandCode::STATUS_CML => 0x7e,
            CommandCode::STATUS_OTHER => 0x7f,
            CommandCode::STATUS_MFR_SPECIFIC => 0x80,
            CommandCode::STATUS_FANS_1_2 => 0x81,
            CommandCode::STATUS_FANS_3_4 => 0x82,
            CommandCode::READ_KWH_IN => 0x83,
            CommandCode::READ_KWH_OUT => 0x84,
            CommandCode::READ_KWH_CONFIG => 0x85,
            CommandCode::READ_EIN => 0x86,
            CommandCode::READ_EOUT => 0x87,
            CommandCode::READ_VIN => 0x88,
            CommandCode::READ_IIN => 0x89,
            CommandCode::READ_VCAP => 0x8a,
            CommandCode::READ_VOUT => 0x8b,
            CommandCode::READ_IOUT => 0x8c,
            CommandCode::READ_TEMPERATURE_1 => 0x8d,
            CommandCode::READ_TEMPERATURE_2 => 0x8e,
            CommandCode::READ_TEMPERATURE_3 => 0x8f,
            CommandCode::READ_FAN_SPEED_1 => 0x90,
            CommandCode::READ_FAN_SPEED_2 => 0x91,
            CommandCode::READ_FAN_SPEED_3 => 0x92,
            CommandCode::READ_FAN_SPEED_4 => 0x93,
            CommandCode::READ_DUTY_CYCLE => 0x94,
            CommandCode::READ_FREQUENCY => 0x95,
            CommandCode::READ_POUT => 0x96,
            CommandCode::READ_PIN => 0x97,
            CommandCode::PMBUS_REVISION => 0x98,
            CommandCode::MFR_ID => 0x99,
            CommandCode::MFR_MODEL => 0x9a,
            CommandCode::MFR_REVISION => 0x9b,
            CommandCode::MFR_LOCATION => 0x9c,
            CommandCode::MFR_DATE => 0x9d,
            CommandCode::MFR_SERIAL => 0x9e,
            CommandCode::APP_PROFILE_SUPPORT => 0x9f,
            CommandCode::MFR_VIN_MIN => 0xa0,
            CommandCode::MFR_VIN_MAX => 0xa1,
            CommandCode::MFR_IIN_MAX => 0xa2,
            CommandCode::MFR_PIN_MAX => 0xa3,
            CommandCode::MFR_VOUT_MIN => 0xa4,
            CommandCode::MFR_VOUT_MAX => 0xa5,
            CommandCode::MFR_IOUT_MAX => 0xa6,
            CommandCode::MFR_POUT_MAX => 0xa7,
            CommandCode::MFR_TAMBIENT_MAX => 0xa8,
            CommandCode::MFR_TAMBIENT_MIN => 0xa9,
            CommandCode::MFR_EFFICIENCY_LL => 0xaa,
            CommandCode::MFR_EFFICIENCY_HL => 0xab,
            CommandCode::MFR_PIN_ACCURACY => 0xac,
            CommandCode::IC_DEVICE_ID => 0xad,
            CommandCode::IC_DEVICE_REV => 0xae,
            CommandCode::ReservedAF => 0xaf,
            CommandCode::USER_DATA_00 => 0xb0,
            CommandCode::USER_DATA_01 => 0xb1,
            CommandCode::USER_DATA_02 => 0xb2,
            CommandCode::USER_DATA_03 => 0xb3,
            CommandCode::USER_DATA_04 => 0xb4,
            CommandCode::USER_DATA_05 => 0xb5,
            CommandCode::USER_DATA_06 => 0xb6,
            CommandCode::USER_DATA_07 => 0xb7,
            CommandCode::USER_DATA_08 => 0xb8,
            CommandCode::USER_DATA_09 => 0xb9,
            CommandCode::USER_DATA_10 => 0xba,
            CommandCode::USER_DATA_11 => 0xbb,
            CommandCode::USER_DATA_12 => 0xbc,
            CommandCode::USER_DATA_13 => 0xbd,
            CommandCode::USER_DATA_14 => 0xbe,
            CommandCode::USER_DATA_15 => 0xbf,
            CommandCode::MFR_MAX_TEMP_1 => 0xc0,
            CommandCode::MFR_MAX_TEMP_2 => 0xc1,
            CommandCode::MFR_MAX_TEMP_3 => 0xc2,
            CommandCode::ReservedC3 => 0xc3,
            CommandCode::MFR_SPECIFIC_C4 => 0xc4,
            CommandCode::MFR_SPECIFIC_C5 => 0xc5,
            CommandCode::MFR_SPECIFIC_C6 => 0xc6,
            CommandCode::MFR_SPECIFIC_C7 => 0xc7,
            CommandCode::MFR_SPECIFIC_C8 => 0xc8,
            CommandCode::MFR_SPECIFIC_C9 => 0xc9,
            CommandCode::MFR_SPECIFIC_CA => 0xca,
            CommandCode::MFR_SPECIFIC_CB => 0xcb,
            CommandCode::MFR_SPECIFIC_CC => 0xcc,
            CommandCode::MFR_SPECIFIC_CD => 0xcd,
            CommandCode::MFR_SPECIFIC_CE => 0xce,
            CommandCode::MFR_SPECIFIC_CF => 0xcf,
            CommandCode::MFR_SPECIFIC_D0 => 0xd0,
            CommandCode::MFR_SPECIFIC_D1 => 0xd1,
            CommandCode::MFR_SPECIFIC_D2 => 0xd2,
            CommandCode::MFR_SPECIFIC_D3 => 0xd3,
            CommandCode::MFR_SPECIFIC_D4 => 0xd4,
            CommandCode::MFR_SPECIFIC_D5 => 0xd5,
            CommandCode::MFR_SPECIFIC_D6 => 0xd6,
            CommandCode::MFR_SPECIFIC_D7 => 0xd7,
            CommandCode::MFR_SPECIFIC_D8 => 0xd8,
            CommandCode::MFR_SPECIFIC_D9 => 0xd9,
            CommandCode::MFR_SPECIFIC_DA => 0xda,
            CommandCode::MFR_SPECIFIC_DB => 0xdb,
            CommandCode::MFR_SPECIFIC_DC => 0xdc,
            CommandCode::MFR_SPECIFIC_DD => 0xdd,
            CommandCode::MFR_SPECIFIC_DE => 0xde,
            CommandCode::MFR_SPECIFIC_DF => 0xdf,
            CommandCode::MFR_SPECIFIC_E0 => 0xe0,
            CommandCode::MFR_SPECIFIC_E1 => 0xe1,
            CommandCode::MFR_SPECIFIC_E2 => 0xe2,
            CommandCode::MFR_SPECIFIC_E3 => 0xe3,
            CommandCode::MFR_SPECIFIC_E4 => 0xe4,
            CommandCode::MFR_SPECIFIC_E5 => 0xe5,
            CommandCode::MFR_SPECIFIC_E6 => 0xe6,
            CommandCode::MFR_SPECIFIC_E7 => 0xe7,
            CommandCode::MFR_SPECIFIC_E8 => 0xe8,
            CommandCode::MFR_SPECIFIC_E9 => 0xe9,
            CommandCode::MFR_SPECIFIC_EA => 0xea,
            CommandCode::MFR_SPECIFIC_EB => 0xeb,
            CommandCode::MFR_SPECIFIC_EC => 0xec,
            CommandCode::MFR_SPECIFIC_ED => 0xed,
            CommandCode::MFR_SPECIFIC_EE => 0xee,
            CommandCode::MFR_SPECIFIC_EF => 0xef,
            CommandCode::MFR_SPECIFIC_F0 => 0xf0,
            CommandCode::MFR_SPECIFIC_F1 => 0xf1,
            CommandCode::MFR_SPECIFIC_F2 => 0xf2,
            CommandCode::MFR_SPECIFIC_F3 => 0xf3,
            CommandCode::MFR_SPECIFIC_F4 => 0xf4,
            CommandCode::MFR_SPECIFIC_F5 => 0xf5,
            CommandCode::MFR_SPECIFIC_F6 => 0xf6,
            CommandCode::MFR_SPECIFIC_F7 => 0xf7,
            CommandCode::MFR_SPECIFIC_F8 => 0xf8,
            CommandCode::MFR_SPECIFIC_F9 => 0xf9,
            CommandCode::MFR_SPECIFIC_FA => 0xfa,
            CommandCode::MFR_SPECIFIC_FB => 0xfb,
            CommandCode::MFR_SPECIFIC_FC => 0xfc,
            CommandCode::MFR_SPECIFIC_FD => 0xfd,
            CommandCode::MFR_SPECIFIC_COMMAND_EXT => 0xfe,
            CommandCode::PMBUS_COMMAND_EXT => 0xff,
        }
    }

    /// The command code a byte stands for; every byte has one.
    #[verifier::rlimit(100)]
    pub fn from_u8(code: u8) -> (r: Option<CommandCode>)
        ensures
            r matches Some(c) && c == from_code_spec(code),
    {
        let c = match code {
            0x00 => CommandCode::PAGE,
            0x01 => CommandCode::OPERATION,
            0x02 => CommandCode::ON_OFF_CONFIG,
            0x03 => CommandCode::CLEAR_FAULTS,
            0x04 => CommandCode::PHASE,
            0x05 => CommandCode::PAGE_PLUS_WRITE,
            0x06 => CommandCode::PAGE_PLUS_READ,
            0x07 => CommandCode::ZONE_CONFIG,
            0x08 => CommandCode::ZONE_ACTIVE,
            0x09 => CommandCode::Reserved09,
            0x0a => CommandCode::Reserved0A,
            0x0b => CommandCode::Reserved0B,
            0x0c => CommandCode::Reserved0C,
            0x0d => CommandCode::Reserved0D,
            0x0e => CommandCode::Reserved0E,
            0x0f => CommandCode::Reserved0F,
            0x10 => CommandCode::WRITE_PROTECT,
            0x11 => CommandCode::STORE_DEFAULT_ALL,
            0x12 => CommandCode::RESTORE_DEFAULT_ALL,
            0x13 => CommandCode::STORE_DEFAULT_CODE,
            0x14 => CommandCode::RESTORE_DEFAULT_CODE,
            0x15 => CommandCode::STORE_USER_ALL,
            0x16 => CommandCode::RESTORE_USER_ALL,
            0x17 => CommandCode::STORE_USER_CODE,
            0x18 => CommandCode::RESTORE_USER_CODE,
            0x19 => CommandCode::CAPABILITY,
            0x1a => CommandCode::QUERY,
            0x1b => CommandCode::SMBALERT_MASK,
            0x1c => CommandCode::Reserved1C,
            0x1d => CommandCode::Reserved1D,
            0x1e => CommandCode::Reserved1E,
            0x1f => CommandCode::Reserved1F,
            0x20 => CommandCode::VOUT_MODE,
            0x21 => CommandCode::VOUT_COMMAND,
            0x22 => CommandCode::VOUT_TRIM,
            0x23 => CommandCode::VOUT_CAL_OFFSET,
            0x24 => CommandCode::VOUT_MAX,
            0x25 => CommandCode::VOUT_MARGIN_HIGH,
            0x26 => CommandCode::VOUT_MARGIN_LOW,
            0x27 => CommandCode::VOUT_TRANSITION_RATE,
            0x28 => CommandCode::VOUT_DROOP,
            0x29 => CommandCode::VOUT_SCALE_LOOP,
            0x2a => CommandCode::VOUT_SCALE_MONITOR,
            0x2b => CommandCode::VOUT_MIN,
            0x2c => CommandCode::Reserved2C,
            0x2d => CommandCode::Reserved2D,
            0x2e => CommandCode::Reserved2E,
            0x2f => CommandCode::Reserved2F,
            0x30 => CommandCode::COEFFICIENTS,
            0x31 => CommandCode::POUT_MAX,
            0x32 => CommandCode::MAX_DUTY,
            0x33 => CommandCode::FREQUENCY_SWITCH,
            0x34 => CommandCode::POWER_MODE,
            0x35 => CommandCode::VIN_ON,
            0x36 => CommandCode::VIN_OFF,
            0x37 => CommandCode::INTERLEAVE,
            0x38 => CommandCode::IOUT_CAL_GAIN,
            0x39 => CommandCode::IOUT_CAL_OFFSET,
            0x3a => CommandCode::FAN_CONFIG_1_2,
            0x3b => CommandCode::FAN_COMMAND_1,
            0x3c => CommandCode::FAN_COMMAND_2,
            0x3d => CommandCode::FAN_CONFIG_3_4,
            0x3e => CommandCode::FAN_COMMAND_3,
            0x3f => CommandCode::FAN_COMMAND_4,
            0x40 => CommandCode::VOUT_OV_FAULT_LIMIT,
            0x41 => CommandCode::VOUT_OV_FAULT_RESPONSE,
            0x42 => CommandCode::VOUT_OV_WARN_LIMIT,
            0x43 => CommandCode::VOUT_UV_WARN_LIMIT,
            0x44 => CommandCode::VOUT_UV_FAULT_LIMIT,
            0x45 => CommandCode::VOUT_UV_FAULT_RESPONSE,
            0x46 => CommandCode::IOUT_OC_FAULT_LIMIT,
            0x47 => CommandCode::IOUT_OC_FAULT_RESPONSE,
            0x48 => CommandCode::IOUT_OC_LV_FAULT_LIMIT,
            0x49 => CommandCode::IOUT_OC_LV_FAULT_RESPONSE,
            0x4a => CommandCode::IOUT_OC_WARN_LIMIT,
            0x4b => CommandCode::IOUT_UC_FAULT_LIMIT,
            0x4c => CommandCode::IOUT_UC_FAULT_RESPONSE,
            0x4d => CommandCode::Reserved4D,
            0x4e => CommandCode::Reserved4E,
            0x4f => CommandCode::OT_FAULT_LIMIT,
            0x50 => CommandCode::OT_FAULT_RESPONSE,
            0x51 => CommandCode::OT_WARN_LIMIT,
            0x52 => CommandCode::UT_WARN_LIMIT,
            0x53 => CommandCode::UT_FAULT_LIMIT,
            0x54 => CommandCode::UT_FAULT_RESPONSE,
            0x55 => CommandCode::VIN_OV_FAULT_LIMIT,
            0x56 => CommandCode::VIN_OV_FAULT_RESPONSE,
            0x57 => CommandCode::VIN_OV_WARN_LIMIT,
            0x58 => CommandCode::VIN_UV_WARN_LIMIT,
            0x59 => CommandCode::VIN_UV_FAULT_LIMIT,
            0x5a => CommandCode::VIN_UV_FAULT_RESPONSE,
            0x5b => CommandCode::IIN_OC_FAULT_LIMIT,
            0x5c => CommandCode::IIN_OC_FAULT_RESPONSE,
            0x5d => CommandCode::IIN_OC_WARN_LIMIT,
            0x5e => CommandCode::POWER_GOOD_ON,
            0x5f => CommandCode::POWER_GOOD_OFF,
            0x60 => CommandCode::TON_DELAY,
            0x61 => CommandCode::TON_RISE,
            0x62 => CommandCode::TON_MAX_FAULT_LIMIT,
            0x63 => CommandCode::TON_MAX_FAULT_RESPONSE,
            0x64 => CommandCode::TOFF_DELAY,
            0x65 => CommandCode::TOFF_FALL,
            0x66 => CommandCode::TOFF_MAX_WARN_LIMIT,
            0x67 => CommandCode::Deprecated,
            0x68 => CommandCode::POUT_OP_FAULT_LIMIT,
            0x69 => CommandCode::POUT_OP_FAULT_RESPONSE,
            0x6a => CommandCode::POUT_OP_WARN_LIMIT,
            0x6b => CommandCode::PIN_OP_WARN_LIMIT,
            0x6c => CommandCode::Reserved6C,
            0x6d => CommandCode::Reserved6D,
            0x6e => CommandCode::Reserved6E,
            0x6f => CommandCode::Reserved6F,
            0x70 => CommandCode::Reserved70,
            0x71 => CommandCode::Reserved71,
            0x72 => CommandCode::Reserved72,
            0x73 => CommandCode::Reserved73,
            0x74 => CommandCode::Reserved74,
            0x75 => CommandCode::Reserved75,
            0x76 => CommandCode::Reserved76,
            0x77 => CommandCode::Reserved77,
            0x78 => CommandCode::STATUS_BYTE,
            0x79 => CommandCode::STATUS_WORD,
            0x7a => CommandCode::STATUS_VOUT,
            0x7b => CommandCode::STATUS_IOUT,
            0x7c => CommandCode::STATUS_INPUT,
            0x7d => CommandCode::STATUS_TEMPERATURE,
            0x7e => CommandCode::STATUS_CML,
            0x7f => CommandCode::STATUS_OTHER,
            0x80 => CommandCode::STATUS_MFR_SPECIFIC,
            0x81 => CommandCode::STATUS_FANS_1_2,
            0x82 => CommandCode::STATUS_FANS_3_4,
            0x83 => CommandCode::READ_KWH_IN,
            0x84 => CommandCode::READ_KWH_OUT,
            0x85 => CommandCode::READ_KWH_CONFIG,
            0x86 => CommandCode::READ_EIN,
            0x87 => CommandCode::READ_EOUT,
            0x88 => CommandCode::READ_VIN,
            0x89 => CommandCode::READ_IIN,
            0x8a => CommandCode::READ_VCAP,
            0x8b => CommandCode::READ_VOUT,
            0x8c => CommandCode::READ_IOUT,
            0x8d => CommandCode::READ_TEMPERATURE_1,
            0x8e => CommandCode::READ_TEMPERATURE_2,
            0x8f => CommandCode::READ_TEMPERATURE_3,
            0x90 => CommandCode::READ_FAN_SPEED_1,
            0x91 => CommandCode::READ_FAN_SPEED_2,
            0x92 => CommandCode::READ_FAN_SPEED_3,
            0x93 => CommandCode::READ_FAN_SPEED_4,
            0x94 => CommandCode::READ_DUTY_CYCLE,
            0x95 => CommandCode::READ_FREQUENCY,
            0x96 => CommandCode::READ_POUT,
            0x97 => CommandCode::READ_PIN,
            0x98 => CommandCode::PMBUS_REVISION,
            0x99 => CommandCode::MFR_ID,
            0x9a => CommandCode::MFR_MODEL,
            0x9b => CommandCode::MFR_REVISION,
            0x9c => CommandCode::MFR_LOCATION,
            0x9d => CommandCode::MFR_DATE,
            0x9e => CommandCode::MFR_SERIAL,
            0x9f => CommandCode::APP_PROFILE_SUPPORT,
            0xa0 => CommandCode::MFR_VIN_MIN,
            0xa1 => CommandCode::MFR_VIN_MAX,
            0xa2 => CommandCode::MFR_IIN_MAX,
            0xa3 => CommandCode::MFR_PIN_MAX,
            0xa4 => CommandCode::MFR_VOUT_MIN,
            0xa5 => CommandCode::MFR_VOUT_MAX,
            0xa6 => CommandCode::MFR_IOUT_MAX,
            0xa7 => CommandCode::MFR_POUT_MAX,
            0xa8 => CommandCode::MFR_TAMBIENT_MAX,
            0xa9 => CommandCode::MFR_TAMBIENT_MIN,
            0xaa => CommandCode::MFR_EFFICIENCY_LL,
            0xab => CommandCode::MFR_EFFICIENCY_HL,
            0xac => CommandCode::MFR_PIN_ACCURACY,
            0xad => CommandCode::IC_DEVICE_ID,
            0xae => CommandCode::IC_DEVICE_REV,
            0xaf => CommandCode::ReservedAF,
            0xb0 => CommandCode::USER_DATA_00,
            0xb1 => CommandCode::USER_DATA_01,
            0xb2 => CommandCode::USER_DATA_02,
            0xb3 => CommandCode::USER_DATA_03,
            0xb4 => CommandCode::USER_DATA_04,
            0xb5 => CommandCode::USER_DATA_05,
            0xb6 => CommandCode::USER_DATA_06,
            0xb7 => CommandCode::USER_DATA_07,
            0xb8 => CommandCode::USER_DATA_08,
            0xb9 => CommandCode::USER_DATA_09,
            0xba => CommandCode::USER_DATA_10,
            0xbb => CommandCode::USER_DATA_11,
            0xbc => CommandCode::USER_DATA_12,
            0xbd => CommandCode::USER_DATA_13,
            0xbe => CommandCode::USER_DATA_14,
            0xbf => CommandCode::USER_DATA_15,
            0xc0 => CommandCode::MFR_MAX_TEMP_1,
            0xc1 => CommandCode::MFR_MAX_TEMP_2,
            0xc2 => CommandCode::MFR_MAX_TEMP_3,
            0xc3 => CommandCode::ReservedC3,
            0xc4 => CommandCode::MFR_SPECIFIC_C4,
            0xc5 => CommandCode::MFR_SPECIFIC_C5,
            0xc6 => CommandCode::MFR_SPECIFIC_C6,
            0xc7 => CommandCode::MFR_SPECIFIC_C7,
            0xc8 => CommandCode::MFR_SPECIFIC_C8,
            0xc9 => CommandCode::MFR_SPECIFIC_C9,
            0xca => CommandCode::MFR_SPECIFIC_CA,
            0xcb => CommandCode::MFR_SPECIFIC_CB,
            0xcc => CommandCode::MFR_SPECIFIC_CC,
            0xcd => CommandCode::MFR_SPECIFIC_CD,
            0xce => CommandCode::MFR_SPECIFIC_CE,
            0xcf => CommandCode::MFR_SPECIFIC_CF,
            0xd0 => CommandCode::MFR_SPECIFIC_D0,
            0xd1 => CommandCode::MFR_SPECIFIC_D1,
            0xd2 => CommandCode::MFR_SPECIFIC_D2,
            0xd3 => CommandCode::MFR_SPECIFIC_D3,
            0xd4 => CommandCode::MFR_SPECIFIC_D4,
            0xd5 => CommandCode::MFR_SPECIFIC_D5,
            0xd6 => CommandCode::MFR_SPECIFIC_D6,
            0xd7 => CommandCode::MFR_SPECIFIC_D7,
            0xd8 => CommandCode::MFR_SPECIFIC_D8,
            0xd9 => CommandCode::MFR_SPECIFIC_D9,
            0xda => CommandCode::MFR_SPECIFIC_DA,
            0xdb => CommandCode::MFR_SPECIFIC_DB,
            0xdc => CommandCode::MFR_SPECIFIC_DC,
            0xdd => CommandCode::MFR_SPECIFIC_DD,
            0xde => CommandCode::MFR_SPECIFIC_DE,
            0xdf => CommandCode::MFR_SPECIFIC_DF,
            0xe0 => CommandCode::MFR_SPECIFIC_E0,
            0xe1 => CommandCode::MFR_SPECIFIC_E1,
            0xe2 => CommandCode::MFR_SPECIFIC_E2,
            0xe3 => CommandCode::MFR_SPECIFIC_E3,
            0xe4 => CommandCode::MFR_SPECIFIC_E4,
            0xe5 => CommandCode::MFR_SPECIFIC_E5,
            0xe6 => CommandCode::MFR_SPECIFIC_E6,
            0xe7 => CommandCode::MFR_SPECIFIC_E7,
            0xe8 => CommandCode::MFR_SPECIFIC_E8,
            0xe9 => CommandCode::MFR_SPECIFIC_E9,
            0xea => CommandCode::MFR_SPECIFIC_EA,
            0xeb => CommandCode::MFR_SPECIFIC_EB,
            0xec => CommandCode::MFR_SPECIFIC_EC,
            0xed => CommandCode::MFR_SPECIFIC_ED,
            0xee => CommandCode::MFR_SPECIFIC_EE,
            0xef => CommandCode::MFR_SPECIFIC_EF,
            0xf0 => CommandCode::MFR_SPECIFIC_F0,
            0xf1 => CommandCode::MFR_SPECIFIC_F1,
            0xf2 => CommandCode::MFR_SPECIFIC_F2,
            0xf3 => CommandCode::MFR_SPECIFIC_F3,
            0xf4 => CommandCode::MFR_SPECIFIC_F4,
            0xf5 => CommandCode::MFR_SPECIFIC_F5,
            0xf6 => CommandCode::MFR_SPECIFIC_F6,
            0xf7 => CommandCode::MFR_SPECIFIC_F7,
            0xf8 => CommandCode::MFR_SPECIFIC_F8,
            0xf9 => CommandCode::MFR_SPECIFIC_F9,
            0xfa => CommandCode::MFR_SPECIFIC_FA,
            0xfb => CommandCode::MFR_SPECIFIC_FB,
            0xfc => CommandCode::MFR_SPECIFIC_FC,
            0xfd => CommandCode::MFR_SPECIFIC_FD,
            0xfe => CommandCode::MFR_SPECIFIC_COMMAND_EXT,
            _ => CommandCode::PMBUS_COMMAND_EXT,
        };
        Some(c)
    }

    /// The bus operation that writes this command.
    #[verifier::rlimit(100)]
    pub fn write_op(&self) -> (r: Operation)
        ensures
            r == write_op_spec(*self),
    {
        match *self {
            CommandCode::PAGE => Operation::WriteByte,
            CommandCode::OPERATION => Operation::WriteByte,
            CommandCode::ON_OFF_CONFIG => Operation::WriteByte,
            CommandCode::CLEAR_FAULTS => Operation::SendByte,
            CommandCode::PHASE => Operation::WriteByte,
            CommandCode::PAGE_PLUS_WRITE => Operation::WriteBlock,
            CommandCode::PAGE_PLUS_READ => Operation::Illegal,
            CommandCode::ZONE_CONFIG => Operation::WriteWord,
            CommandCode::ZONE_ACTIVE => Operation::WriteWord,
            CommandCode::Reserved09 => Operation::Unknown,
            CommandCode::Reserved0A => Operation::Unknown,
            CommandCode::Reserved0B => Operation::Unknown,
            CommandCode::Reserved0C => Operation::Unknown,
            CommandCode::Reserved0D => Operation::Unknown,
            CommandCode::Reserved0E => Operation::Unknown,
            CommandCode::Reserved0F => Operation::Unknown,
            CommandCode::WRITE_PROTECT => Operation::WriteByte,
            CommandCode::STORE_DEFAULT_ALL => Operation::SendByte,
            CommandCode::RESTORE_DEFAULT_ALL => Operation::SendByte,
            CommandCode::STORE_DEFAULT_CODE => Operation::WriteByte,
            CommandCode::RESTORE_DEFAULT_CODE => Operation::WriteByte,
            CommandCode::STORE_USER_ALL => Operation::SendByte,
            CommandCode::RESTORE_USER_ALL => Operation::SendByte,
            CommandCode::STORE_USER_CODE => Operation::WriteByte,
            CommandCode::RESTORE_USER_CODE => Operation::WriteByte,
            CommandCode::CAPABILITY => Operation::Illegal,
            CommandCode::QUERY => Operation::Illegal,
            CommandCode::SMBALERT_MASK => Operation::WriteWord,
            CommandCode::Reserved1C => Operation::Unknown,
            CommandCode::Reserved1D => Operation::Unknown,
            CommandCode::Reserved1E => Operation::Unknown,
            CommandCode::Reserved1F => Operation::Unknown,
            CommandCode::VOUT_MODE => Operation::WriteByte,
            CommandCode::VOUT_COMMAND => Operation::WriteWord,
            CommandCode::VOUT_TRIM => Operation::WriteWord,
            CommandCode::VOUT_CAL_OFFSET => Operation::WriteWord,
            CommandCode::VOUT_MAX => Operation::WriteWord,
            CommandCode::VOUT_MARGIN_HIGH => Operation::WriteWord,
            CommandCode::VOUT_MARGIN_LOW => Operation::WriteWord,
            CommandCode::VOUT_TRANSITION_RATE => Operation::WriteWord,
            CommandCode::VOUT_DROOP => Operation::WriteWord,
            CommandCode::VOUT_SCALE_LOOP => Operation::WriteWord,
            CommandCode::VOUT_SCALE_MONITOR => Operation::WriteWord,
            CommandCode::VOUT_MIN => Operation::WriteWord,
            CommandCode::Reserved2C => Operation::Unknown,
            CommandCode::Reserved2D => Operation::Unknown,
            CommandCode::Reserved2E => Operation::Unknown,
            CommandCode::Reserved2F => Operation::Unknown,
            CommandCode::COEFFICIENTS => Operation::Illegal,
            CommandCode::POUT_MAX => Operation::WriteWord,
            CommandCode::MAX_DUTY => Operation::WriteWord,
            CommandCode::FREQUENCY_SWITCH => Operation::WriteWord,
            CommandCode::POWER_MODE => Operation::WriteByte,
            CommandCode::VIN_ON => Operation::WriteWord,
            CommandCode::VIN_OFF => Operation::WriteWord,
            CommandCode::INTERLEAVE => Operation::WriteWord,
            CommandCode::IOUT_CAL_GAIN => Operation::WriteWord,
            CommandCode::IOUT_CAL_OFFSET => Operation::WriteWord,
            CommandCode::FAN_CONFIG_1_2 => Operation::WriteByte,
            CommandCode::FAN_COMMAND_1 => Operation::WriteWord,
            CommandCode::FAN_COMMAND_2 => Operation::WriteWord,
            CommandCode::FAN_CONFIG_3_4 => Operation::WriteByte,
            CommandCode::FAN_COMMAND_3 => Operation::WriteWord,
            CommandCode::FAN_COMMAND_4 => Operation::WriteWord,
            CommandCode::VOUT_OV_FAULT_LIMIT => Operation::WriteWord,
            CommandCode::VOUT_OV_FAULT_RESPONSE => Operation::WriteByte,
            CommandCode::VOUT_OV_WARN_LIMIT => Operation::WriteWord,
            CommandCode::VOUT_UV_WARN_LIMIT => Operation::WriteWord,
            CommandCode::VOUT_UV_FAULT_LIMIT => Operation::WriteWord,
            CommandCode::VOUT_UV_FAULT_RESPONSE => Operation::WriteByte,
            CommandCode::IOUT_OC_FAULT_LIMIT => Operation::WriteWord,
            CommandCode::IOUT_OC_FAULT_RESPONSE => Operation::WriteByte,
            CommandCode::IOUT_OC_LV_FAULT_LIMIT => Operation::WriteWord,
            CommandCode::IOUT_OC_LV_FAULT_RESPONSE => Operation::WriteByte,
            CommandCode::IOUT_OC_WARN_LIMIT => Operation::WriteWord,
            CommandCode::IOUT_UC_FAULT_LIMIT => Operation::WriteWord,
            CommandCode::IOUT_UC_FAULT_RESPONSE => Operation::WriteByte,
            CommandCode::Reserved4D => Operation::Unknown,
            CommandCode::Reserved4E => Operation::Unknown,
            CommandCode::OT_FAULT_LIMIT => Operation::WriteWord,
            CommandCode::OT_FAULT_RESPONSE => Operation::WriteByte,
            CommandCode::OT_WARN_LIMIT => Operation::WriteWord,
            CommandCode::UT_WARN_LIMIT => Operation::WriteWord,
            CommandCode::UT_FAULT_LIMIT => Operation::WriteWord,
            CommandCode::UT_FAULT_RESPONSE => Operation::WriteByte,
            CommandCode::VIN_OV_FAULT_LIMIT => Operation::WriteWord,
            CommandCode::VIN_OV_FAULT_RESPONSE => Operation::WriteByte,
            CommandCode::VIN_OV_WARN_LIMIT => Operation::WriteWord,
            CommandCode::VIN_UV_WARN_LIMIT => Operation::WriteWord,
            CommandCode::VIN_UV_FAULT_LIMIT => Operation::WriteWord,
            CommandCode::VIN_UV_FAULT_RESPONSE => Operation::WriteByte,
            CommandCode::IIN_OC_FAULT_LIMIT => Operation::WriteWord,
            CommandCode::IIN_OC_FAULT_RESPONSE => Operation::WriteByte,
            CommandCode::IIN_OC_WARN_LIMIT => Operation::WriteWord,
            CommandCode::POWER_GOOD_ON => Operation::WriteWord,
            CommandCode::POWER_GOOD_OFF => Operation::WriteWord,
            CommandCode::TON_DELAY => Operation::WriteWord,
            CommandCode::TON_RISE => Operation::WriteWord,
            CommandCode::TON_MAX_FAULT_LIMIT => Operation::WriteWord,
            CommandCode::TON_MAX_FAULT_RESPONSE => Operation::WriteByte,
            CommandCode::TOFF_DELAY => Operation::WriteWord,
            CommandCode::TOFF_FALL => Operation::WriteWord,
            CommandCode::TOFF_MAX_WARN_LIMIT => Operation::WriteWord,
            CommandCode::Deprecated => Operation::Unknown,
            CommandCode::POUT_OP_FAULT_LIMIT => Operation::WriteWord,
            CommandCode::POUT_OP_FAULT_RESPONSE => Operation::WriteByte,
            CommandCode::POUT_OP_WARN_LIMIT => Operation::WriteWord,
            CommandCode::PIN_OP_WARN_LIMIT => Operation::WriteWord,
            CommandCode::Reserved6C => Operation::Unknown,
            CommandCode::Reserved6D => Operation::Unknown,
            CommandCode::Reserved6E => Operation::Unknown,
            CommandCode::Reserved6F => Operation::Unknown,
            CommandCode::Reserved70 => Operation::Unknown,
            CommandCode::Reserved71 => Operation::Unknown,
            CommandCode::Reserved72 => Operation::Unknown,
            CommandCode::Reserved73 => Operation::Unknown,
            CommandCode::Reserved74 => Operation::Unknown,
            CommandCode::Reserved75 => Operation::Unknown,
            CommandCode::Reserved76 => Operation::Unknown,
            CommandCode::Reserved77 => Operation::Unknown,
            CommandCode::STATUS_BYTE => Operation::WriteByte,
            CommandCode::STATUS_WORD => Operation::WriteWord,
            CommandCode::STATUS_VOUT => Operation::WriteByte,
            CommandCode::STATUS_IOUT => Operation::WriteByte,
            CommandCode::STATUS_INPUT => Operation::WriteByte,
            CommandCode::STATUS_TEMPERATURE => Operation::WriteByte,
            CommandCode::STATUS_CML => Operation::WriteByte,
            CommandCode::STATUS_OTHER => Operation::WriteByte,
            CommandCode::STATUS_MFR_SPECIFIC => Operation::WriteByte,
            CommandCode::STATUS_FANS_1_2 => Operation::WriteByte,
            CommandCode::STATUS_FANS_3_4 => Operation::WriteByte,
            CommandCode::READ_KWH_IN => Operation::Illegal,
            CommandCode::READ_KWH_OUT => Operation::Illegal,
            CommandCode::READ_KWH_CONFIG => Operation::WriteWord,
            CommandCode::READ_EIN => Operation::Illegal,
            CommandCode::READ_EOUT => Operation::Illegal,
            CommandCode::READ_VIN => Operation::Illegal,
            CommandCode::READ_IIN => Operation::Illegal,
            CommandCode::READ_VCAP => Operation::Illegal,
            CommandCode::READ_VOUT => Operation::Illegal,
            CommandCode::READ_IOUT => Operation::Illegal,
            CommandCode::READ_TEMPERATURE_1 => Operation::Illegal,
            CommandCode::READ_TEMPERATURE_2 => Operation::Illegal,
            CommandCode::READ_TEMPERATURE_3 => Operation::Illegal,
            CommandCode::READ_FAN_SPEED_1 => Operation::Illegal,
            CommandCode::READ_FAN_SPEED_2 => Operation::Illegal,
            CommandCode::READ_FAN_SPEED_3 => Operation::Illegal,
            CommandCode::READ_FAN_SPEED_4 => Operation::Illegal,
            CommandCode::READ_DUTY_CYCLE => Operation::Illegal,
            CommandCode::READ_FREQUENCY => Operation::Illegal,
            CommandCode::READ_POUT => Operation::Illegal,
            CommandCode::READ_PIN => Operation::Illegal,
            CommandCode::PMBUS_REVISION => Operation::Illegal,
            CommandCode::MFR_ID => Operation::WriteBlock,
            CommandCode::MFR_MODEL => Operation::WriteBlock,
            CommandCode::MFR_REVISION => Operation::WriteBlock,
            CommandCode::MFR_LOCATION => Operation::WriteBlock,
            CommandCode::MFR_DATE => Operation::WriteBlock,
            CommandCode::MFR_SERIAL => Operation::WriteBlock,
            CommandCode::APP_PROFILE_SUPPORT => Operation::Illegal,
            CommandCode::MFR_VIN_MIN => Operation::Illegal,
            CommandCode::MFR_VIN_MAX => Operation::Illegal,
            CommandCode::MFR_IIN_MAX => Operation::Illegal,
            CommandCode::MFR_PIN_MAX => Operation::Illegal,
            CommandCode::MFR_VOUT_MIN => Operation::Illegal,
            CommandCode::MFR_VOUT_MAX => Operation::Illegal,
            CommandCode::MFR_IOUT_MAX => Operation::Illegal,
            CommandCode::MFR_POUT_MAX => Operation::Illegal,
            CommandCode::MFR_TAMBIENT_MAX => Operation::Illegal,
            CommandCode::MFR_TAMBIENT_MIN => Operation::Illegal,
            CommandCode::MFR_EFFICIENCY_LL => Operation::Illegal,
            CommandCode::MFR_EFFICIENCY_HL => Operation::Illegal,
            CommandCode::MFR_PIN_ACCURACY => Operation::Illegal,
            CommandCode::IC_DEVICE_ID => Operation::Illegal,
            CommandCode::IC_DEVICE_REV => Operation::Illegal,
            CommandCode::ReservedAF => Operation::Unknown,
            CommandCode::USER_DATA_00 => Operation::WriteBlock,
            CommandCode::USER_DATA_01 => Operation::WriteBlock,
            CommandCode::USER_DATA_02 => Operation::WriteBlock,
            CommandCode::USER_DATA_03 => Operation::WriteBlock,
            CommandCode::USER_DATA_04 => Operation::WriteBlock,
            CommandCode::USER_DATA_05 => Operation::WriteBlock,
            CommandCode::USER_DATA_06 => Operation::WriteBlock,
            CommandCode::USER_DATA_07 => Operation::WriteBlock,
            CommandCode::USER_DATA_08 => Operation::WriteBlock,
            CommandCode::USER_DATA_09 => Operation::WriteBlock,
            CommandCode::USER_DATA_10 => Operation::WriteBlock,
            CommandCode::USER_DATA_11 => Operation::WriteBlock,
            CommandCode::USER_DATA_12 => Operation::WriteBlock,
            CommandCode::USER_DATA_13 => Operation::WriteBlock,
            CommandCode::USER_DATA_14 => Operation::WriteBlock,
            CommandCode::USER_DATA_15 => Operation::WriteBlock,
            CommandCode::MFR_MAX_TEMP_1 => Operation::WriteWord,
            CommandCode::MFR_MAX_TEMP_2 => Operation::WriteWord,
            CommandCode::MFR_MAX_TEMP_3 => Operation::WriteWord,
            CommandCode::ReservedC3 => Operation::Unknown,
            CommandCode::MFR_SPECIFIC_C4 => Operation::MfrDefined,
            CommandCode::MFR_SPECIFIC_C5 => Operation::MfrDefined,
            CommandCode::MFR_SPECIFIC_C6 => Operation::MfrDefined,
            CommandCode::MFR_SPECIFIC_C7 => Operation::MfrDefined,
            CommandCode::MFR_SPECIFIC_C8 => Operation::MfrDefined,
            CommandCode::MFR_SPECIFIC_C9 => Operation::MfrDefined,
            CommandCode::MFR_SPECIFIC_CA => Operation::MfrDefined,
            CommandCode::MFR_SPECIFIC_CB => Operation::MfrDefined,
            CommandCode::MFR_SPECIFIC_CC => Operation::MfrDefined,
            CommandCode::MFR_SPECIFIC_CD => Operation::MfrDefined,
            CommandCode::MFR_SPECIFIC_CE => Operation::MfrDefined,
            CommandCode::MFR_SPECIFIC_CF => Operation::MfrDefined,
            CommandCode::MFR_SPECIFIC_D0 => Operation::MfrDefined,
            CommandCode::MFR_SPECIFIC_D1 => Operation::MfrDefined,
            CommandCode::MFR_SPECIFIC_D2 => Operation::MfrDefined,
            CommandCode::MFR_SPECIFIC_D3 => Operation::MfrDefined,
            CommandCode::MFR_SPECIFIC_D4 => Operation::MfrDefined,
            CommandCode::MFR_SPECIFIC_D5 => Operation::MfrDefined,
            CommandCode::MFR_SPECIFIC_D6 => Operation::MfrDefined,
            CommandCode::MFR_SPECIFIC_D7 => Operation::MfrDefined,
            CommandCode::MFR_SPECIFIC_D8 => Operation::MfrDefined,
            CommandCode::MFR_SPECIFIC_D9 => Operation::MfrDefined,
            CommandCode::MFR_SPECIFIC_DA => Operation::MfrDefined,
            CommandCode::MFR_SPECIFIC_DB => Operation::MfrDefined,
            CommandCode::MFR_SPECIFIC_DC => Operation::MfrDefined,
            CommandCode::MFR_SPECIFIC_DD => Operation::MfrDefined,
            CommandCode::MFR_SPECIFIC_DE => Operation::MfrDefined,
            CommandCode::MFR_SPECIFIC_DF => Operation::MfrDefined,
            CommandCode::MFR_SPECIFIC_E0 => Operation::MfrDefined,
            CommandCode::MFR_SPECIFIC_E1 => Operation::MfrDefined,
            CommandCode::MFR_SPECIFIC_E2 => Operation::MfrDefined,
            CommandCode::MFR_SPECIFIC_E3 => Operation::MfrDefined,
            CommandCode::MFR_SPECIFIC_E4 => Operation::MfrDefined,
            CommandCode::MFR_SPECIFIC_E5 => Operation::MfrDefined,
            CommandCode::MFR_SPECIFIC_E6 => Operation::MfrDefined,
            CommandCode::MFR_SPECIFIC_E7 => Operation::MfrDefined,
            CommandCode::MFR_SPECIFIC_E8 => Operation::MfrDefined,
            CommandCode::MFR_SPECIFIC_E9 => Operation::MfrDefined,
            CommandCode::MFR_SPECIFIC_EA => Operation::MfrDefined,
            CommandCode::MFR_SPECIFIC_EB => Operation::MfrDefined,
            CommandCode::MFR_SPECIFIC_EC => Operation::MfrDefined,
            CommandCode::MFR_SPECIFIC_ED => Operation::MfrDefined,
            CommandCode::MFR_SPECIFIC_EE => Operation::MfrDefined,
            CommandCode::MFR_SPECIFIC_EF => Operation::MfrDefined,
            CommandCode::MFR_SPECIFIC_F0 => Operation::MfrDefined,
            CommandCode::MFR_SPECIFIC_F1 => Operation::MfrDefined,
            CommandCode::MFR_SPECIFIC_F2 => Operation::MfrDefined,
            CommandCode::MFR_SPECIFIC_F3 => Operation::MfrDefined,
            CommandCode::MFR_SPECIFIC_F4 => Operation::MfrDefined,
            CommandCode::MFR_SPECIFIC_F5 => Operation::MfrDefined,
            CommandCode::MFR_SPECIFIC_F6 => Operation::MfrDefined,
            CommandCode::MFR_SPECIFIC_F7 => Operation::MfrDefined,
            CommandCode::MFR_SPECIFIC_F8 => Operation::MfrDefined,
            CommandCode::MFR_SPECIFIC_F9 => Operation::MfrDefined,
            CommandCode::MFR_SPECIFIC_FA => Operation::MfrDefined,
            CommandCode::MFR_SPECIFIC_FB => Operation::MfrDefined,
            CommandCode::MFR_SPECIFIC_FC => Operation::MfrDefined,
            CommandCode::MFR_SPECIFIC_FD => Operation::MfrDefined,
            CommandCode::MFR_SPECIFIC_COMMAND_EXT => Operation::Extended,
            CommandCode::PMBUS_COMMAND_EXT => Operation::Extended,
        }
    }

    /// The bus operation that reads this command.
    #[verifier::rlimit(100)]
    pub fn read_op(&self) -> (r: Operation)
        ensures
            r == read_op_spec(*self),
    {
        match *self {
            CommandCode::PAGE => Operation::ReadByte,
            CommandCode::OPERATION => Operation::ReadByte,
            CommandCode::ON_OFF_CONFIG => Operation::ReadByte,
            CommandCode::CLEAR_FAULTS => Operation::Illegal,
            CommandCode::PHASE => Operation::ReadByte,
            CommandCode::PAGE_PLUS_WRITE => Operation::Illegal,
            CommandCode::PAGE_PLUS_READ => Operation::ProcessCall,
            CommandCode::ZONE_CONFIG => Operation::ReadWord,
            CommandCode::ZONE_ACTIVE => Operation::ReadWord,
            CommandCode::Reserved09 => Operation::Unknown,
            CommandCode::Reserved0A => Operation::Unknown,
            CommandCode::Reserved0B => Operation::Unknown,
            CommandCode::Reserved0C => Operation::Unknown,
            CommandCode::Reserved0D => Operation::Unknown,
            CommandCode::Reserved0E => Operation::Unknown,
            CommandCode::Reserved0F => Operation::Unknown,
            CommandCode::WRITE_PROTECT => Operation::ReadByte,
            CommandCode::STORE_DEFAULT_ALL => Operation::Illegal,
            CommandCode::RESTORE_DEFAULT_ALL => Operation::Illegal,
            CommandCode::STORE_DEFAULT_CODE => Operation::Illegal,
            CommandCode::RESTORE_DEFAULT_CODE => Operation::Illegal,
            CommandCode::STORE_USER_ALL => Operation::Illegal,
            CommandCode::RESTORE_USER_ALL => Operation::Illegal,
            CommandCode::STORE_USER_CODE => Operation::Illegal,
            CommandCode::RESTORE_USER_CODE => Operation::Illegal,
            CommandCode::CAPABILITY => Operation::ReadByte,
            CommandCode::QUERY => Operation::ProcessCall,
            CommandCode::SMBALERT_MASK => Operation::ProcessCall,
            CommandCode::Reserved1C => Operation::Unknown,
            CommandCode::Reserved1D => Operation::Unknown,
            CommandCode::Reserved1E => Operation::Unknown,
            CommandCode::Reserved1F => Operation::Unknown,
            CommandCode::VOUT_MODE => Operation::ReadByte,
            CommandCode::VOUT_COMMAND => Operation::ReadWord,
            CommandCode::VOUT_TRIM => Operation::ReadWord,
            CommandCode::VOUT_CAL_OFFSET => Operation::ReadWord,
            CommandCode::VOUT_MAX => Operation::ReadWord,
            CommandCode::VOUT_MARGIN_HIGH => Operation::ReadWord,
            CommandCode::VOUT_MARGIN_LOW => Operation::ReadWord,
            CommandCode::VOUT_TRANSITION_RATE => Operation::ReadWord,
            CommandCode::VOUT_DROOP => Operation::ReadWord,
            CommandCode::VOUT_SCALE_LOOP => Operation::ReadWord,
            CommandCode::VOUT_SCALE_MONITOR => Operation::ReadWord,
            CommandCode::VOUT_MIN => Operation::ReadWord,
            CommandCode::Reserved2C => Operation::Unknown,
            CommandCode::Reserved2D => Operation::Unknown,
            CommandCode::Reserved2E => Operation::Unknown,
            CommandCode::Reserved2F => Operation::Unknown,
            CommandCode::COEFFICIENTS => Operation::ProcessCall,
            CommandCode::POUT_MAX => Operation::ReadWord,
            CommandCode::MAX_DUTY => Operation::ReadWord,
            CommandCode::FREQUENCY_SWITCH => Operation::ReadWord,
            CommandCode::POWER_MODE => Operation::ReadByte,
            CommandCode::VIN_ON => Operation::ReadWord,
            CommandCode::VIN_OFF => Operation::ReadWord,
            CommandCode::INTERLEAVE => Operation::ReadWord,
            CommandCode::IOUT_CAL_GAIN => Operation::ReadWord,
            CommandCode::IOUT_CAL_OFFSET => Operation::ReadWord,
            CommandCode::FAN_CONFIG_1_2 => Operation::ReadByte,
            CommandCode::FAN_COMMAND_1 => Operation::ReadWord,
            CommandCode::FAN_COMMAND_2 => Operation::ReadWord,
            CommandCode::FAN_CONFIG_3_4 => Operation::ReadByte,
            CommandCode::FAN_COMMAND_3 => Operation::ReadWord,
            CommandCode::FAN_COMMAND_4 => Operation::ReadWord,
            CommandCode::VOUT_OV_FAULT_LIMIT => Operation::ReadWord,
            CommandCode::VOUT_OV_FAULT_RESPONSE => Operation::ReadByte,
            CommandCode::VOUT_OV_WARN_LIMIT => Operation::ReadWord,
            CommandCode::VOUT_UV_WARN_LIMIT => Operation::ReadWord,
            CommandCode::VOUT_UV_FAULT_LIMIT => Operation::ReadWord,
            CommandCode::VOUT_UV_FAULT_RESPONSE => Operation::ReadByte,
            CommandCode::IOUT_OC_FAULT_LIMIT => Operation::ReadWord,
            CommandCode::IOUT_OC_FAULT_RESPONSE => Operation::ReadByte,
            CommandCode::IOUT_OC_LV_FAULT_LIMIT => Operation::ReadWord,
            CommandCode::IOUT_OC_LV_FAULT_RESPONSE => Operation::ReadByte,
            CommandCode::IOUT_OC_WARN_LIMIT => Operation::ReadWord,
            CommandCode::IOUT_UC_FAULT_LIMIT => Operation::ReadWord,
            CommandCode::IOUT_UC_FAULT_RESPONSE => Operation::ReadByte,
            CommandCode::Reserved4D => Operation::Unknown,
            CommandCode::Reserved4E => Operation::Unknown,
            CommandCode::OT_FAULT_LIMIT => Operation::ReadWord,
            CommandCode::OT_FAULT_RESPONSE => Operation::ReadByte,
            CommandCode::OT_WARN_LIMIT => Operation::ReadWord,
            CommandCode::UT_WARN_LIMIT => Operation::ReadWord,
            CommandCode::UT_FAULT_LIMIT => Operation::ReadWord,
            CommandCode::UT_FAULT_RESPONSE => Operation::ReadByte,
            CommandCode::VIN_OV_FAULT_LIMIT => Operation::ReadWord,
            CommandCode::VIN_OV_FAULT_RESPONSE => Operation::ReadByte,
            CommandCode::VIN_OV_WARN_LIMIT => Operation::ReadWord,
            CommandCode::VIN_UV_WARN_LIMIT => Operation::ReadWord,
            CommandCode::VIN_UV_FAULT_LIMIT => Operation::ReadWord,
            CommandCode::VIN_UV_FAULT_RESPONSE => Operation::ReadByte,
            CommandCode::IIN_OC_FAULT_LIMIT => Operation::ReadWord,
            CommandCode::IIN_OC_FAULT_RESPONSE => Operation::ReadByte,
            CommandCode::IIN_OC_WARN_LIMIT => Operation::ReadWord,
            CommandCode::POWER_GOOD_ON => Operation::ReadWord,
            CommandCode::POWER_GOOD_OFF => Operation::ReadWord,
            CommandCode::TON_DELAY => Operation::ReadWord,
            CommandCode::TON_RISE => Operation::ReadWord,
            CommandCode::TON_MAX_FAULT_LIMIT => Operation::ReadWord,
            CommandCode::TON_MAX_FAULT_RESPONSE => Operation::ReadByte,
            CommandCode::TOFF_DELAY => Operation::ReadWord,
            CommandCode::TOFF_FALL => Operation::ReadWord,
            CommandCode::TOFF_MAX_WARN_LIMIT => Operation::ReadWord,
            CommandCode::Deprecated => Operation::Unknown,
            CommandCode::POUT_OP_FAULT_LIMIT => Operation::ReadWord,
            CommandCode::POUT_OP_FAULT_RESPONSE => Operation::ReadByte,
            CommandCode::POUT_OP_WARN_LIMIT => Operation::ReadWord,
            CommandCode::PIN_OP_WARN_LIMIT => Operation::ReadWord,
            CommandCode::Reserved6C => Operation::Unknown,
            CommandCode::Reserved6D => Operation::Unknown,
            CommandCode::Reserved6E => Operation::Unknown,
            CommandCode::Reserved6F => Operation::Unknown,
            CommandCode::Reserved70 => Operation::Unknown,
            CommandCode::Reserved71 => Operation::Unknown,
            CommandCode::Reserved72 => Operation::Unknown,
            CommandCode::Reserved73 => Operation::Unknown,
            CommandCode::Reserved74 => Operation::Unknown,
            CommandCode::Reserved75 => Operation::Unknown,
            CommandCode::Reserved76 => Operation::Unknown,
            CommandCode::Reserved77 => Operation::Unknown,
            CommandCode::STATUS_BYTE => Operation::ReadByte,
            CommandCode::STATUS_WORD => Operation::ReadWord,
            CommandCode::STATUS_VOUT => Operation::ReadByte,
            CommandCode::STATUS_IOUT => Operation::ReadByte,
            CommandCode::STATUS_INPUT => Operation::ReadByte,
            CommandCode::STATUS_TEMPERATURE => Operation::ReadByte,
            CommandCode::STATUS_CML => Operation::ReadByte,
            CommandCode::STATUS_OTHER => Operation::ReadByte,
            CommandCode::STATUS_MFR_SPECIFIC => Operation::ReadByte,
            CommandCode::STATUS_FANS_1_2 => Operation::ReadByte,
            CommandCode::STATUS_FANS_3_4 => Operation::ReadByte,
            CommandCode::READ_KWH_IN => Operation::ReadWord32,
            CommandCode::READ_KWH_OUT => Operation::ReadWord32,
            CommandCode::READ_KWH_CONFIG => Operation::ReadWord,
            CommandCode::READ_EIN => Operation::ReadBlock,
            CommandCode::READ_EOUT => Operation::ReadBlock,
            CommandCode::READ_VIN => Operation::ReadWord,
            CommandCode::READ_IIN => Operation::ReadWord,
            CommandCode::READ_VCAP => Operation::ReadWord,
            CommandCode::READ_VOUT => Operation::ReadWord,
            CommandCode::READ_IOUT => Operation::ReadWord,
            CommandCode::READ_TEMPERATURE_1 => Operation::ReadWord,
            CommandCode::READ_TEMPERATURE_2 => Operation::ReadWord,
            CommandCode::READ_TEMPERATURE_3 => Operation::ReadWord,
            CommandCode::READ_FAN_SPEED_1 => Operation::ReadWord,
            CommandCode::READ_FAN_SPEED_2 => Operation::ReadWord,
            CommandCode::READ_FAN_SPEED_3 => Operation::ReadWord,
            CommandCode::READ_FAN_SPEED_4 => Operation::ReadWord,
            CommandCode::READ_DUTY_CYCLE => Operation::ReadWord,
            CommandCode::READ_FREQUENCY => Operation::ReadWord,
            CommandCode::READ_POUT => Operation::ReadWord,
            CommandCode::READ_PIN => Operation::ReadWord,
            CommandCode::PMBUS_REVISION => Operation::ReadByte,
            CommandCode::MFR_ID => Operation::ReadBlock,
            CommandCode::MFR_MODEL => Operation::ReadBlock,
            CommandCode::MFR_REVISION => Operation::ReadBlock,
            CommandCode::MFR_LOCATION => Operation::ReadBlock,
            CommandCode::MFR_DATE => Operation::ReadBlock,
            CommandCode::MFR_SERIAL => Operation::ReadBlock,
            CommandCode::APP_PROFILE_SUPPORT => Operation::ReadBlock,
            CommandCode::MFR_VIN_MIN => Operation::ReadWord,
            CommandCode::MFR_VIN_MAX => Operation::ReadWord,
            CommandCode::MFR_IIN_MAX => Operation::ReadWord,
            CommandCode::MFR_PIN_MAX => Operation::ReadWord,
            CommandCode::MFR_VOUT_MIN => Operation::ReadWord,
            CommandCode::MFR_VOUT_MAX => Operation::ReadWord,
            CommandCode::MFR_IOUT_MAX => Operation::ReadWord,
            CommandCode::MFR_POUT_MAX => Operation::ReadWord,
            CommandCode::MFR_TAMBIENT_MAX => Operation::ReadWord,
            CommandCode::MFR_TAMBIENT_MIN => Operation::ReadWord,
            CommandCode::MFR_EFFICIENCY_LL => Operation::ReadBlock,
            CommandCode::MFR_EFFICIENCY_HL => Operation::ReadBlock,
            CommandCode::MFR_PIN_ACCURACY => Operation::ReadByte,
            CommandCode::IC_DEVICE_ID => Operation::ReadBlock,
            CommandCode::IC_DEVICE_REV => Operation::ReadBlock,
            CommandCode::ReservedAF => Operation::Unknown,
            CommandCode::USER_DATA_00 => Operation::ReadBlock,
            CommandCode::USER_DATA_01 => Operation::ReadBlock,
            CommandCode::USER_DATA_02 => Operation::ReadBlock,
            CommandCode::USER_DATA_03 => Operation::ReadBlock,
            CommandCode::USER_DATA_04 => Operation::ReadBlock,
            CommandCode::USER_DATA_05 => Operation::ReadBlock,
            CommandCode::USER_DATA_06 => Operation::ReadBlock,
            CommandCode::USER_DATA_07 => Operation::ReadBlock,
            CommandCode::USER_DATA_08 => Operation::ReadBlock,
            CommandCode::USER_DATA_09 => Operation::ReadBlock,
            CommandCode::USER_DATA_10 => Operation::ReadBlock,
            CommandCode::USER_DATA_11 => Operation::ReadBlock,
            CommandCode::USER_DATA_12 => Operation::ReadBlock,
            CommandCode::USER_DATA_13 => Operation::ReadBlock,
            CommandCode::USER_DATA_14 => Operation::ReadBlock,
            CommandCode::USER_DATA_15 => Operation::ReadBlock,
            CommandCode::MFR_MAX_TEMP_1 => Operation::ReadWord,
            CommandCode::MFR_MAX_TEMP_2 => Operation::ReadWord,
            CommandCode::MFR_MAX_TEMP_3 => Operation::ReadWord,
            CommandCode::ReservedC3 => Operation::Unknown,
            CommandCode::MFR_SPECIFIC_C4 => Operation::MfrDefined,
            CommandCode::MFR_SPECIFIC_C5 => Operation::MfrDefined,
            CommandCode::MFR_SPECIFIC_C6 => Operation::MfrDefined,
            CommandCode::MFR_SPECIFIC_C7 => Operation::MfrDefined,
            CommandCode::MFR_SPECIFIC_C8 => Operation::MfrDefined,
            CommandCode::MFR_SPECIFIC_C9 => Operation::MfrDefined,
            CommandCode::MFR_SPECIFIC_CA => Operation::MfrDefined,
            CommandCode::MFR_SPECIFIC_CB => Operation::MfrDefined,
            CommandCode::MFR_SPECIFIC_CC => Operation::MfrDefined,
            CommandCode::MFR_SPECIFIC_CD => Operation::MfrDefined,
            CommandCode::MFR_SPECIFIC_CE => Operation::MfrDefined,
            CommandCode::MFR_SPECIFIC_CF => Operation::MfrDefined,
            CommandCode::MFR_SPECIFIC_D0 => Operation::MfrDefined,
            CommandCode::MFR_SPECIFIC_D1 => Operation::MfrDefined,
            CommandCode::MFR_SPECIFIC_D2 => Operation::MfrDefined,
            CommandCode::MFR_SPECIFIC_D3 => Operation::MfrDefined,
            CommandCode::MFR_SPECIFIC_D4 => Operation::MfrDefined,
            CommandCode::MFR_SPECIFIC_D5 => Operation::MfrDefined,
            CommandCode::MFR_SPECIFIC_D6 => Operation::MfrDefined,
            CommandCode::MFR_SPECIFIC_D7 => Operation::MfrDefined,
            CommandCode::MFR_SPECIFIC_D8 => Operation::MfrDefined,
            CommandCode::MFR_SPECIFIC_D9 => Operation::MfrDefined,
            CommandCode::MFR_SPECIFIC_DA => Operation::MfrDefined,
            CommandCode::MFR_SPECIFIC_DB => Operation::MfrDefined,
            CommandCode::MFR_SPECIFIC_DC => Operation::MfrDefined,
            CommandCode::MFR_SPECIFIC_DD => Operation::MfrDefined,
            CommandCode::MFR_SPECIFIC_DE => Operation::MfrDefined,
            CommandCode::MFR_SPECIFIC_DF => Operation::MfrDefined,
            CommandCode::MFR_SPECIFIC_E0 => Operation::MfrDefined,
            CommandCode::MFR_SPECIFIC_E1 => Operation::MfrDefined,
            CommandCode::MFR_SPECIFIC_E2 => Operation::MfrDefined,
            CommandCode::MFR_SPECIFIC_E3 => Operation::MfrDefined,
            CommandCode::MFR_SPECIFIC_E4 => Operation::MfrDefined,
            CommandCode::MFR_SPECIFIC_E5 => Operation::MfrDefined,
            CommandCode::MFR_SPECIFIC_E6 => Operation::MfrDefined,
            CommandCode::MFR_SPECIFIC_E7 => Operation::MfrDefined,
            CommandCode::MFR_SPECIFIC_E8 => Operation::MfrDefined,
            CommandCode::MFR_SPECIFIC_E9 => Operation::MfrDefined,
            CommandCode::MFR_SPECIFIC_EA => Operation::MfrDefined,
            CommandCode::MFR_SPECIFIC_EB => Operation::MfrDefined,
            CommandCode::MFR_SPECIFIC_EC => Operation::MfrDefined,
            CommandCode::MFR_SPECIFIC_ED => Operation::MfrDefined,
            CommandCode::MFR_SPECIFIC_EE => Operation::MfrDefined,
            CommandCode::MFR_SPECIFIC_EF => Operation::MfrDefined,
            CommandCode::MFR_SPECIFIC_F0 => Operation::MfrDefined,
            CommandCode::MFR_SPECIFIC_F1 => Operation::MfrDefined,
            CommandCode::MFR_SPECIFIC_F2 => Operation::MfrDefined,
            CommandCode::MFR_SPECIFIC_F3 => Operation::MfrDefined,
            CommandCode::MFR_SPECIFIC_F4 => Operation::MfrDefined,
            CommandCode::MFR_SPECIFIC_F5 => Operation::MfrDefined,
            CommandCode::MFR_SPECIFIC_F6 => Operation::MfrDefined,
            CommandCode::MFR_SPECIFIC_F7 => Operation::MfrDefined,
            CommandCode::MFR_SPECIFIC_F8 => Operation::MfrDefined,
            CommandCode::MFR_SPECIFIC_F9 => Operation::MfrDefined,
            CommandCode::MFR_SPECIFIC_FA => Operation::MfrDefined,
            CommandCode::MFR_SPECIFIC_FB => Operation::MfrDefined,
            CommandCode::MFR_SPECIFIC_FC => Operation::MfrDefined,
            CommandCode::MFR_SPECIFIC_FD => Operation::MfrDefined,
            CommandCode::MFR_SPECIFIC_COMMAND_EXT => Operation::Extended,
            CommandCode::PMBUS_COMMAND_EXT => Operation::Extended,
        }
    }

    /// The command's canonical name.
    #[verifier::rlimit(100)]
    pub fn name(&self) -> (r: &'static str)
        ensures
            r@ == name_spec(*self)@,
    {
        match *self {
            CommandCode::PAGE => "PAGE",
            CommandCode::OPERATION => "OPERATION",
            CommandCode::ON_OFF_CONFIG => "ON_OFF_CONFIG",
            CommandCode::CLEAR_FAULTS => "CLEAR_FAULTS",
            CommandCode::PHASE => "PHASE",
            CommandCode::PAGE_PLUS_WRITE => "PAGE_PLUS_WRITE",
            CommandCode::PAGE_PLUS_READ => "PAGE_PLUS_READ",
            CommandCode::ZONE_CONFIG => "ZONE_CONFIG",
            CommandCode::ZONE_ACTIVE => "ZONE_ACTIVE",
            CommandCode::Reserved09 => "Reserved09",
            CommandCode::Reserved0A => "Reserved0A",
            CommandCode::Reserved0B => "Reserved0B",
            CommandCode::Reserved0C => "Reserved0C",
            CommandCode::Reserved0D => "Reserved0D",
            CommandCode::Reserved0E => "Reserved0E",
            CommandCode::Reserved0F => "Reserved0F",
            CommandCode::WRITE_PROTECT => "WRITE_PROTECT",
            CommandCode::STORE_DEFAULT_ALL => "STORE_DEFAULT_ALL",
            CommandCode::RESTORE_DEFAULT_ALL => "RESTORE_DEFAULT_ALL",
            CommandCode::STORE_DEFAULT_CODE => "STORE_DEFAULT_CODE",
            CommandCode::RESTORE_DEFAULT_CODE => "RESTORE_DEFAULT_CODE",
            CommandCode::STORE_USER_ALL => "STORE_USER_ALL",
            CommandCode::RESTORE_USER_ALL => "RESTORE_USER_ALL",
            CommandCode::STORE_USER_CODE => "STORE_USER_CODE",
            CommandCode::RESTORE_USER_CODE => "RESTORE_USER_CODE",
            CommandCode::CAPABILITY => "CAPABILITY",
            CommandCode::QUERY => "QUERY",
            CommandCode::SMBALERT_MASK => "SMBALERT_MASK",
            CommandCode::Reserved1C => "Reserved1C",
            CommandCode::Reserved1D => "Reserved1D",
            CommandCode::Reserved1E => "Reserved1E",
            CommandCode::Reserved1F => "Reserved1F",
            CommandCode::VOUT_MODE => "VOUT_MODE",
            CommandCode::VOUT_COMMAND => "VOUT_COMMAND",
            CommandCode::VOUT_TRIM => "VOUT_TRIM",
            CommandCode::VOUT_CAL_OFFSET => "VOUT_CAL_OFFSET",
            CommandCode::VOUT_MAX => "VOUT_MAX",
            CommandCode::VOUT_MARGIN_HIGH => "VOUT_MARGIN_HIGH",
            CommandCode::VOUT_MARGIN_LOW => "VOUT_MARGIN_LOW",
            CommandCode::VOUT_TRANSITION_RATE => "VOUT_TRANSITION_RATE",
            CommandCode::VOUT_DROOP => "VOUT_DROOP",
            CommandCode::VOUT_SCALE_LOOP => "VOUT_SCALE_LOOP",
            CommandCode::VOUT_SCALE_MONITOR => "VOUT_SCALE_MONITOR",
            CommandCode::VOUT_MIN => "VOUT_MIN",
            CommandCode::Reserved2C => "Reserved2C",
            CommandCode::Reserved2D => "Reserved2D",
            CommandCode::Reserved2E => "Reserved2E",
            CommandCode::Reserved2F => "Reserved2F",
            CommandCode::COEFFICIENTS => "COEFFICIENTS",
            CommandCode::POUT_MAX => "POUT_MAX",
            CommandCode::MAX_DUTY => "MAX_DUTY",
            CommandCode::FREQUENCY_SWITCH => "FREQUENCY_SWITCH",
            CommandCode::POWER_MODE => "POWER_MODE",
            CommandCode::VIN_ON => "VIN_ON",
            CommandCode::VIN_OFF => "VIN_OFF",
            CommandCode::INTERLEAVE => "INTERLEAVE",
            CommandCode::IOUT_CAL_GAIN => "IOUT_CAL_GAIN",
            CommandCode::IOUT_CAL_OFFSET => "IOUT_CAL_OFFSET",
            CommandCode::FAN_CONFIG_1_2 => "FAN_CONFIG_1_2",
            CommandCode::FAN_COMMAND_1 => "FAN_COMMAND_1",
            CommandCode::FAN_COMMAND_2 => "FAN_COMMAND_2",
            CommandCode::FAN_CONFIG_3_4 => "FAN_CONFIG_3_4",
            CommandCode::FAN_COMMAND_3 => "FAN_COMMAND_3",
            CommandCode::FAN_COMMAND_4 => "FAN_COMMAND_4",
            CommandCode::VOUT_OV_FAULT_LIMIT => "VOUT_OV_FAULT_LIMIT",
            CommandCode::VOUT_OV_FAULT_RESPONSE => "VOUT_OV_FAULT_RESPONSE",
            CommandCode::VOUT_OV_WARN_LIMIT => "VOUT_OV_WARN_LIMIT",
            CommandCode::VOUT_UV_WARN_LIMIT => "VOUT_UV_WARN_LIMIT",
            CommandCode::VOUT_UV_FAULT_LIMIT => "VOUT_UV_FAULT_LIMIT",
            CommandCode::VOUT_UV_FAULT_RESPONSE => "VOUT_UV_FAULT_RESPONSE",
            CommandCode::IOUT_OC_FAULT_LIMIT => "IOUT_OC_FAULT_LIMIT",
            CommandCode::IOUT_OC_FAULT_RESPONSE => "IOUT_OC_FAULT_RESPONSE",
            CommandCode::IOUT_OC_LV_FAULT_LIMIT => "IOUT_OC_LV_FAULT_LIMIT",
            CommandCode::IOUT_OC_LV_FAULT_RESPONSE => "IOUT_OC_LV_FAULT_RESPONSE",
            CommandCode::IOUT_OC_WARN_LIMIT => "IOUT_OC_WARN_LIMIT",
            CommandCode::IOUT_UC_FAULT_LIMIT => "IOUT_UC_FAULT_LIMIT",
            CommandCode::IOUT_UC_FAULT_RESPONSE => "IOUT_UC_FAULT_RESPONSE",
            CommandCode::Reserved4D => "Reserved4D",
            CommandCode::Reserved4E => "Reserved4E",
            CommandCode::OT_FAULT_LIMIT => "OT_FAULT_LIMIT",
            CommandCode::OT_FAULT_RESPONSE => "OT_FAULT_RESPONSE",
            CommandCode::OT_WARN_LIMIT => "OT_WARN_LIMIT",
            CommandCode::UT_WARN_LIMIT => "UT_WARN_LIMIT",
            CommandCode::UT_FAULT_LIMIT => "UT_FAULT_LIMIT",
            CommandCode::UT_FAULT_RESPONSE => "UT_FAULT_RESPONSE",
            CommandCode::VIN_OV_FAULT_LIMIT => "VIN_OV_FAULT_LIMIT",
            CommandCode::VIN_OV_FAULT_RESPONSE => "VIN_OV_FAULT_RESPONSE",
            CommandCode::VIN_OV_WARN_LIMIT => "VIN_OV_WARN_LIMIT",
            CommandCode::VIN_UV_WARN_LIMIT => "VIN_UV_WARN_LIMIT",
            CommandCode::VIN_UV_FAULT_LIMIT => "VIN_UV_FAULT_LIMIT",
            CommandCode::VIN_UV_FAULT_RESPONSE => "VIN_UV_FAULT_RESPONSE",
            CommandCode::IIN_OC_FAULT_LIMIT => "IIN_OC_FAULT_LIMIT",
            CommandCode::IIN_OC_FAULT_RESPONSE => "IIN_OC_FAULT_RESPONSE",
            CommandCode::IIN_OC_WARN_LIMIT => "IIN_OC_WARN_LIMIT",
            CommandCode::POWER_GOOD_ON => "POWER_GOOD_ON",
            CommandCode::POWER_GOOD_OFF => "POWER_GOOD_OFF",
            CommandCode::TON_DELAY => "TON_DELAY",
            CommandCode::TON_RISE => "TON_RISE",
            CommandCode::TON_MAX_FAULT_LIMIT => "TON_MAX_FAULT_LIMIT",
            CommandCode::TON_MAX_FAULT_RESPONSE => "TON_MAX_FAULT_RESPONSE",
            CommandCode::TOFF_DELAY => "TOFF_DELAY",
            CommandCode::TOFF_FALL => "TOFF_FALL",
            CommandCode::TOFF_MAX_WARN_LIMIT => "TOFF_MAX_WARN_LIMIT",
            CommandCode::Deprecated => "Deprecated",
            CommandCode::POUT_OP_FAULT_LIMIT => "POUT_OP_FAULT_LIMIT",
            CommandCode::POUT_OP_FAULT_RESPONSE => "POUT_OP_FAULT_RESPONSE",
            CommandCode::POUT_OP_WARN_LIMIT => "POUT_OP_WARN_LIMIT",
            CommandCode::PIN_OP_WARN_LIMIT => "PIN_OP_WARN_LIMIT",
            CommandCode::Reserved6C => "Reserved6C",
            CommandCode::Reserved6D => "Reserved6D",
            CommandCode::Reserved6E => "Reserved6E",
            CommandCode::Reserved6F => "Reserved6F",
            CommandCode::Reserved70 => "Reserved70",
            CommandCode::Reserved71 => "Reserved71",
            CommandCode::Reserved72 => "Reserved72",
            CommandCode::Reserved73 => "Reserved73",
            CommandCode::Reserved74 => "Reserved74",
            CommandCode::Reserved75 => "Reserved75",
            CommandCode::Reserved76 => "Reserved76",
            CommandCode::Reserved77 => "Reserved77",
            CommandCode::STATUS_BYTE => "STATUS_BYTE",
            CommandCode::STATUS_WORD => "STATUS_WORD",
            CommandCode::STATUS_VOUT => "STATUS_VOUT",
            CommandCode::STATUS_IOUT => "STATUS_IOUT",
            CommandCode::STATUS_INPUT => "STATUS_INPUT",
            CommandCode::STATUS_TEMPERATURE => "STATUS_TEMPERATURE",
            CommandCode::STATUS_CML => "STATUS_CML",
            CommandCode::STATUS_OTHER => "STATUS_OTHER",
            CommandCode::STATUS_MFR_SPECIFIC => "STATUS_MFR_SPECIFIC",
            CommandCode::STATUS_FANS_1_2 => "STATUS_FANS_1_2",
            CommandCode::STATUS_FANS_3_4 => "STATUS_FANS_3_4",
            CommandCode::READ_KWH_IN => "READ_KWH_IN",
            CommandCode::READ_KWH_OUT => "READ_KWH_OUT",
            CommandCode::READ_KWH_CONFIG => "READ_KWH_CONFIG",
            CommandCode::READ_EIN => "READ_EIN",
            CommandCode::READ_EOUT => "READ_EOUT",
            CommandCode::READ_VIN => "READ_VIN",
            CommandCode::READ_IIN => "READ_IIN",
            CommandCode::READ_VCAP => "READ_VCAP",
            CommandCode::READ_VOUT => "READ_VOUT",
            CommandCode::READ_IOUT => "READ_IOUT",
            CommandCode::READ_TEMPERATURE_1 => "READ_TEMPERATURE_1",
            CommandCode::READ_TEMPERATURE_2 => "READ_TEMPERATURE_2",
            CommandCode::READ_TEMPERATURE_3 => "READ_TEMPERATURE_3",
            CommandCode::READ_FAN_SPEED_1 => "READ_FAN_SPEED_1",
            CommandCode::READ_FAN_SPEED_2 => "READ_FAN_SPEED_2",
            CommandCode::READ_FAN_SPEED_3 => "READ_FAN_SPEED_3",
            CommandCode::READ_FAN_SPEED_4 => "READ_FAN_SPEED_4",
            CommandCode::READ_DUTY_CYCLE => "READ_DUTY_CYCLE",
            CommandCode::READ_FREQUENCY => "READ_FREQUENCY",
            CommandCode::READ_POUT => "READ_POUT",
            CommandCode::READ_PIN => "READ_PIN",
            CommandCode::PMBUS_REVISION => "PMBUS_REVISION",
            CommandCode::MFR_ID => "MFR_ID",
            CommandCode::MFR_MODEL => "MFR_MODEL",
            CommandCode::MFR_REVISION => "MFR_REVISION",
            CommandCode::MFR_LOCATION => "MFR_LOCATION",
            CommandCode::MFR_DATE => "MFR_DATE",
            CommandCode::MFR_SERIAL => "MFR_SERIAL",
            CommandCode::APP_PROFILE_SUPPORT => "APP_PROFILE_SUPPORT",
            CommandCode::MFR_VIN_MIN => "MFR_VIN_MIN",
            CommandCode::MFR_VIN_MAX => "MFR_VIN_MAX",
            CommandCode::MFR_IIN_MAX => "MFR_IIN_MAX",
            CommandCode::MFR_PIN_MAX => "MFR_PIN_MAX",
            CommandCode::MFR_VOUT_MIN => "MFR_VOUT_MIN",
            CommandCode::MFR_VOUT_MAX => "MFR_VOUT_MAX",
            CommandCode::MFR_IOUT_MAX => "MFR_IOUT_MAX",
            CommandCode::MFR_POUT_MAX => "MFR_POUT_MAX",
            CommandCode::MFR_TAMBIENT_MAX => "MFR_TAMBIENT_MAX",
            CommandCode::MFR_TAMBIENT_MIN => "MFR_TAMBIENT_MIN",
            CommandCode::MFR_EFFICIENCY_LL => "MFR_EFFICIENCY_LL",
            CommandCode::MFR_EFFICIENCY_HL => "MFR_EFFICIENCY_HL",
            CommandCode::MFR_PIN_ACCURACY => "MFR_PIN_ACCURACY",
            CommandCode::IC_DEVICE_ID => "IC_DEVICE_ID",
            CommandCode::IC_DEVICE_REV => "IC_DEVICE_REV",
            CommandCode::ReservedAF => "ReservedAF",
            CommandCode::USER_DATA_00 => "USER_DATA_00",
            CommandCode::USER_DATA_01 => "USER_DATA_01",
            CommandCode::USER_DATA_02 => "USER_DATA_02",
            CommandCode::USER_DATA_03 => "USER_DATA_03",
            CommandCode::USER_DATA_04 => "USER_DATA_04",
            CommandCode::USER_DATA_05 => "USER_DATA_05",
            CommandCode::USER_DATA_06 => "USER_DATA_06",
            CommandCode::USER_DATA_07 => "USER_DATA_07",
            CommandCode::USER_DATA_08 => "USER_DATA_08",
            CommandCode::USER_DATA_09 => "USER_DATA_09",
            CommandCode::USER_DATA_10 => "USER_DATA_10",
            CommandCode::USER_DATA_11 => "USER_DATA_11",
            CommandCode::USER_DATA_12 => "USER_DATA_12",
            CommandCode::USER_DATA_13 => "USER_DATA_13",
            CommandCode::USER_DATA_14 => "USER_DATA_14",
            CommandCode::USER_DATA_15 => "USER_DATA_15",
            CommandCode::MFR_MAX_TEMP_1 => "MFR_MAX_TEMP_1",
            CommandCode::MFR_MAX_TEMP_2 => "MFR_MAX_TEMP_2",
            CommandCode::MFR_MAX_TEMP_3 => "MFR_MAX_TEMP_3",
            CommandCode::ReservedC3 => "ReservedC3",
            CommandCode::MFR_SPECIFIC_C4 => "MFR_SPECIFIC_C4",
            CommandCode::MFR_SPECIFIC_C5 => "MFR_SPECIFIC_C5",
            CommandCode::MFR_SPECIFIC_C6 => "MFR_SPECIFIC_C6",
            CommandCode::MFR_SPECIFIC_C7 => "MFR_SPECIFIC_C7",
            CommandCode::MFR_SPECIFIC_C8 => "MFR_SPECIFIC_C8",
            CommandCode::MFR_SPECIFIC_C9 => "MFR_SPECIFIC_C9",
            CommandCode::MFR_SPECIFIC_CA => "MFR_SPECIFIC_CA",
            CommandCode::MFR_SPECIFIC_CB => "MFR_SPECIFIC_CB",
            CommandCode::MFR_SPECIFIC_CC => "MFR_SPECIFIC_CC",
            CommandCode::MFR_SPECIFIC_CD => "MFR_SPECIFIC_CD",
            CommandCode::MFR_SPECIFIC_CE => "MFR_SPECIFIC_CE",
            CommandCode::MFR_SPECIFIC_CF => "MFR_SPECIFIC_CF",
            CommandCode::MFR_SPECIFIC_D0 => "MFR_SPECIFIC_D0",
            CommandCode::MFR_SPECIFIC_D1 => "MFR_SPECIFIC_D1",
            CommandCode::MFR_SPECIFIC_D2 => "MFR_SPECIFIC_D2",
            CommandCode::MFR_SPECIFIC_D3 => "MFR_SPECIFIC_D3",
            CommandCode::MFR_SPECIFIC_D4 => "MFR_SPECIFIC_D4",
            CommandCode::MFR_SPECIFIC_D5 => "MFR_SPECIFIC_D5",
            CommandCode::MFR_SPECIFIC_D6 => "MFR_SPECIFIC_D6",
            CommandCode::MFR_SPECIFIC_D7 => "MFR_SPECIFIC_D7",
            CommandCode::MFR_SPECIFIC_D8 => "MFR_SPECIFIC_D8",
            CommandCode::MFR_SPECIFIC_D9 => "MFR_SPECIFIC_D9",
            CommandCode::MFR_SPECIFIC_DA => "MFR_SPECIFIC_DA",
            CommandCode::MFR_SPECIFIC_DB => "MFR_SPECIFIC_DB",
            CommandCode::MFR_SPECIFIC_DC => "MFR_SPECIFIC_DC",
            CommandCode::MFR_SPECIFIC_DD => "MFR_SPECIFIC_DD",
            CommandCode::MFR_SPECIFIC_DE => "MFR_SPECIFIC_DE",
            CommandCode::MFR_SPECIFIC_DF => "MFR_SPECIFIC_DF",
            CommandCode::MFR_SPECIFIC_E0 => "MFR_SPECIFIC_E0",
            CommandCode::MFR_SPECIFIC_E1 => "MFR_SPECIFIC_E1",
            CommandCode::MFR_SPECIFIC_E2 => "MFR_SPECIFIC_E2",
            CommandCode::MFR_SPECIFIC_E3 => "MFR_SPECIFIC_E3",
            CommandCode::MFR_SPECIFIC_E4 => "MFR_SPECIFIC_E4",
            CommandCode::MFR_SPECIFIC_E5 => "MFR_SPECIFIC_E5",
            CommandCode::MFR_SPECIFIC_E6 => "MFR_SPECIFIC_E6",
            CommandCode::MFR_SPECIFIC_E7 => "MFR_SPECIFIC_E7",
            CommandCode::MFR_SPECIFIC_E8 => "MFR_SPECIFIC_E8",
            CommandCode::MFR_SPECIFIC_E9 => "MFR_SPECIFIC_E9",
            CommandCode::MFR_SPECIFIC_EA => "MFR_SPECIFIC_EA",
            CommandCode::MFR_SPECIFIC_EB => "MFR_SPECIFIC_EB",
            CommandCode::MFR_SPECIFIC_EC => "MFR_SPECIFIC_EC",
            CommandCode::MFR_SPECIFIC_ED => "MFR_SPECIFIC_ED",
            CommandCode::MFR_SPECIFIC_EE => "MFR_SPECIFIC_EE",
            CommandCode::MFR_SPECIFIC_EF => "MFR_SPECIFIC_EF",
            CommandCode::MFR_SPECIFIC_F0 => "MFR_SPECIFIC_F0",
            CommandCode::MFR_SPECIFIC_F1 => "MFR_SPECIFIC_F1",
            CommandCode::MFR_SPECIFIC_F2 => "MFR_SPECIFIC_F2",
            CommandCode::MFR_SPECIFIC_F3 => "MFR_SPECIFIC_F3",
            CommandCode::MFR_SPECIFIC_F4 => "MFR_SPECIFIC_F4",
            CommandCode::MFR_SPECIFIC_F5 => "MFR_SPECIFIC_F5",
            CommandCode::MFR_SPECIFIC_F6 => "MFR_SPECIFIC_F6",
            CommandCode::MFR_SPECIFIC_F7 => "MFR_SPECIFIC_F7",
            CommandCode::MFR_SPECIFIC_F8 => "MFR_SPECIFIC_F8",
            CommandCode::MFR_SPECIFIC_F9 => "MFR_SPECIFIC_F9",
            CommandCode::MFR_SPECIFIC_FA => "MFR_SPECIFIC_FA",
            CommandCode::MFR_SPECIFIC_FB => "MFR_SPECIFIC_FB",
            CommandCode::MFR_SPECIFIC_FC => "MFR_SPECIFIC_FC",
            CommandCode::MFR_SPECIFIC_FD => "MFR_SPECIFIC_FD",
            CommandCode::MFR_SPECIFIC_COMMAND_EXT => "MFR_SPECIFIC_COMMAND_EXT",
            CommandCode::PMBUS_COMMAND_EXT => "PMBUS_COMMAND_EXT",
        }
    }
}

} // verus!

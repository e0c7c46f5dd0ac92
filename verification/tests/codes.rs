use pmbus::{CommandCode, Operation};
use pmbus::devices;

fn verify(val: u8, cmd: CommandCode, write: Operation, read: Operation) {
    assert_eq!(cmd as u8, val);
    assert_eq!(cmd.write_op(), write);
    assert_eq!(cmd.read_op(), read);
}

#[test]
fn verify_cmds() {
    //
    // This is deliberately designed to allow one to read the protocol's
    // command summary table and validate it.
    //
    verify(0x00, CommandCode::PAGE, Operation::WriteByte, Operation::ReadByte);
    verify(0x01, CommandCode::OPERATION, Operation::WriteByte, Operation::ReadByte);
    verify(0x02, CommandCode::ON_OFF_CONFIG, Operation::WriteByte, Operation::ReadByte);
    verify(0x03, CommandCode::CLEAR_FAULTS, Operation::SendByte, Operation::Illegal);
    verify(0x04, CommandCode::PHASE, Operation::WriteByte, Operation::ReadByte);
    verify(0x05, CommandCode::PAGE_PLUS_WRITE, Operation::WriteBlock, Operation::Illegal);
    verify(0x06, CommandCode::PAGE_PLUS_READ, Operation::Illegal, Operation::ProcessCall);
    verify(0x07, CommandCode::ZONE_CONFIG, Operation::WriteWord, Operation::ReadWord);
    verify(0x08, CommandCode::ZONE_ACTIVE, Operation::WriteWord, Operation::ReadWord);
    verify(0x10, CommandCode::WRITE_PROTECT, Operation::WriteByte, Operation::ReadByte);
    verify(0x11, CommandCode::STORE_DEFAULT_ALL, Operation::SendByte, Operation::Illegal);
    verify(0x12, CommandCode::RESTORE_DEFAULT_ALL, Operation::SendByte, Operation::Illegal);
    verify(0x13, CommandCode::STORE_DEFAULT_CODE, Operation::WriteByte, Operation::Illegal);
    verify(0x14, CommandCode::RESTORE_DEFAULT_CODE, Operation::WriteByte, Operation::Illegal);
    verify(0x15, CommandCode::STORE_USER_ALL, Operation::SendByte, Operation::Illegal);
    verify(0x16, CommandCode::RESTORE_USER_ALL, Operation::SendByte, Operation::Illegal);
    verify(0x17, CommandCode::STORE_USER_CODE, Operation::WriteByte, Operation::Illegal);
    verify(0x18, CommandCode::RESTORE_USER_CODE, Operation::WriteByte, Operation::Illegal);
    verify(0x19, CommandCode::CAPABILITY, Operation::Illegal, Operation::ReadByte);
    verify(0x1a, CommandCode::QUERY, Operation::Illegal, Operation::ProcessCall);
    verify(0x1b, CommandCode::SMBALERT_MASK, Operation::WriteWord, Operation::ProcessCall);
    verify(0x20, CommandCode::VOUT_MODE, Operation::WriteByte, Operation::ReadByte);
    verify(0x21, CommandCode::VOUT_COMMAND, Operation::WriteWord, Operation::ReadWord);
    verify(0x22, CommandCode::VOUT_TRIM, Operation::WriteWord, Operation::ReadWord);
    verify(0x23, CommandCode::VOUT_CAL_OFFSET, Operation::WriteWord, Operation::ReadWord);
    verify(0x24, CommandCode::VOUT_MAX, Operation::WriteWord, Operation::ReadWord);
    verify(0x25, CommandCode::VOUT_MARGIN_HIGH, Operation::WriteWord, Operation::ReadWord);
    verify(0x26, CommandCode::VOUT_MARGIN_LOW, Operation::WriteWord, Operation::ReadWord);
    verify(0x27, CommandCode::VOUT_TRANSITION_RATE, Operation::WriteWord, Operation::ReadWord);
    verify(0x28, CommandCode::VOUT_DROOP, Operation::WriteWord, Operation::ReadWord);
    verify(0x29, CommandCode::VOUT_SCALE_LOOP, Operation::WriteWord, Operation::ReadWord);
    verify(0x2a, CommandCode::VOUT_SCALE_MONITOR, Operation::WriteWord, Operation::ReadWord);
    verify(0x2b, CommandCode::VOUT_MIN, Operation::WriteWord, Operation::ReadWord);
    verify(0x30, CommandCode::COEFFICIENTS, Operation::Illegal, Operation::ProcessCall);
    verify(0x31, CommandCode::POUT_MAX, Operation::WriteWord, Operation::ReadWord);
    verify(0x32, CommandCode::MAX_DUTY, Operation::WriteWord, Operation::ReadWord);
    verify(0x33, CommandCode::FREQUENCY_SWITCH, Operation::WriteWord, Operation::ReadWord);
    verify(0x34, CommandCode::POWER_MODE, Operation::WriteByte, Operation::ReadByte);
    verify(0x35, CommandCode::VIN_ON, Operation::WriteWord, Operation::ReadWord);
    verify(0x36, CommandCode::VIN_OFF, Operation::WriteWord, Operation::ReadWord);
    verify(0x37, CommandCode::INTERLEAVE, Operation::WriteWord, Operation::ReadWord);
    verify(0x38, CommandCode::IOUT_CAL_GAIN, Operation::WriteWord, Operation::ReadWord);
    verify(0x39, CommandCode::IOUT_CAL_OFFSET, Operation::WriteWord, Operation::ReadWord);
    verify(0x3a, CommandCode::FAN_CONFIG_1_2, Operation::WriteByte, Operation::ReadByte);
    verify(0x3b, CommandCode::FAN_COMMAND_1, Operation::WriteWord, Operation::ReadWord);
    verify(0x3c, CommandCode::FAN_COMMAND_2, Operation::WriteWord, Operation::ReadWord);
    verify(0x3d, CommandCode::FAN_CONFIG_3_4, Operation::WriteByte, Operation::ReadByte);
    verify(0x3e, CommandCode::FAN_COMMAND_3, Operation::WriteWord, Operation::ReadWord);
    verify(0x3f, CommandCode::FAN_COMMAND_4, Operation::WriteWord, Operation::ReadWord);
    verify(0x40, CommandCode::VOUT_OV_FAULT_LIMIT, Operation::WriteWord, Operation::ReadWord);
    verify(0x41, CommandCode::VOUT_OV_FAULT_RESPONSE, Operation::WriteByte, Operation::ReadByte);
    verify(0x42, CommandCode::VOUT_OV_WARN_LIMIT, Operation::WriteWord, Operation::ReadWord);
    verify(0x43, CommandCode::VOUT_UV_WARN_LIMIT, Operation::WriteWord, Operation::ReadWord);
    verify(0x44, CommandCode::VOUT_UV_FAULT_LIMIT, Operation::WriteWord, Operation::ReadWord);
    verify(0x45, CommandCode::VOUT_UV_FAULT_RESPONSE, Operation::WriteByte, Operation::ReadByte);
    verify(0x46, CommandCode::IOUT_OC_FAULT_LIMIT, Operation::WriteWord, Operation::ReadWord);
    verify(0x47, CommandCode::IOUT_OC_FAULT_RESPONSE, Operation::WriteByte, Operation::ReadByte);
    verify(0x48, CommandCode::IOUT_OC_LV_FAULT_LIMIT, Operation::WriteWord, Operation::ReadWord);
    verify(0x49, CommandCode::IOUT_OC_LV_FAULT_RESPONSE, Operation::WriteByte, Operation::ReadByte);
    verify(0x4a, CommandCode::IOUT_OC_WARN_LIMIT, Operation::WriteWord, Operation::ReadWord);
    verify(0x4b, CommandCode::IOUT_UC_FAULT_LIMIT, Operation::WriteWord, Operation::ReadWord);
    verify(0x4c, CommandCode::IOUT_UC_FAULT_RESPONSE, Operation::WriteByte, Operation::ReadByte);
    verify(0x4f, CommandCode::OT_FAULT_LIMIT, Operation::WriteWord, Operation::ReadWord);
    verify(0x50, CommandCode::OT_FAULT_RESPONSE, Operation::WriteByte, Operation::ReadByte);
    verify(0x51, CommandCode::OT_WARN_LIMIT, Operation::WriteWord, Operation::ReadWord);
    verify(0x52, CommandCode::UT_WARN_LIMIT, Operation::WriteWord, Operation::ReadWord);
    verify(0x53, CommandCode::UT_FAULT_LIMIT, Operation::WriteWord, Operation::ReadWord);
    verify(0x54, CommandCode::UT_FAULT_RESPONSE, Operation::WriteByte, Operation::ReadByte);
    verify(0x55, CommandCode::VIN_OV_FAULT_LIMIT, Operation::WriteWord, Operation::ReadWord);
    verify(0x56, CommandCode::VIN_OV_FAULT_RESPONSE, Operation::WriteByte, Operation::ReadByte);
    verify(0x57, CommandCode::VIN_OV_WARN_LIMIT, Operation::WriteWord, Operation::ReadWord);
    verify(0x58, CommandCode::VIN_UV_WARN_LIMIT, Operation::WriteWord, Operation::ReadWord);
    verify(0x59, CommandCode::VIN_UV_FAULT_LIMIT, Operation::WriteWord, Operation::ReadWord);
    verify(0x5a, CommandCode::VIN_UV_FAULT_RESPONSE, Operation::WriteByte, Operation::ReadByte);
    verify(0x5b, CommandCode::IIN_OC_FAULT_LIMIT, Operation::WriteWord, Operation::ReadWord);
    verify(0x5c, CommandCode::IIN_OC_FAULT_RESPONSE, Operation::WriteByte, Operation::ReadByte);
    verify(0x5d, CommandCode::IIN_OC_WARN_LIMIT, Operation::WriteWord, Operation::ReadWord);
    verify(0x5e, CommandCode::POWER_GOOD_ON, Operation::WriteWord, Operation::ReadWord);
    verify(0x5f, CommandCode::POWER_GOOD_OFF, Operation::WriteWord, Operation::ReadWord);
    verify(0x60, CommandCode::TON_DELAY, Operation::WriteWord, Operation::ReadWord);
    verify(0x61, CommandCode::TON_RISE, Operation::WriteWord, Operation::ReadWord);
    verify(0x62, CommandCode::TON_MAX_FAULT_LIMIT, Operation::WriteWord, Operation::ReadWord);
    verify(0x63, CommandCode::TON_MAX_FAULT_RESPONSE, Operation::WriteByte, Operation::ReadByte);
    verify(0x64, CommandCode::TOFF_DELAY, Operation::WriteWord, Operation::ReadWord);
    verify(0x65, CommandCode::TOFF_FALL, Operation::WriteWord, Operation::ReadWord);
    verify(0x66, CommandCode::TOFF_MAX_WARN_LIMIT, Operation::WriteWord, Operation::ReadWord);
    verify(0x67, CommandCode::Deprecated, Operation::Unknown, Operation::Unknown);
    verify(0x68, CommandCode::POUT_OP_FAULT_LIMIT, Operation::WriteWord, Operation::ReadWord);
    verify(0x69, CommandCode::POUT_OP_FAULT_RESPONSE, Operation::WriteByte, Operation::ReadByte);
    verify(0x6a, CommandCode::POUT_OP_WARN_LIMIT, Operation::WriteWord, Operation::ReadWord);
    verify(0x6b, CommandCode::PIN_OP_WARN_LIMIT, Operation::WriteWord, Operation::ReadWord);
    verify(0x78, CommandCode::STATUS_BYTE, Operation::WriteByte, Operation::ReadByte);
    verify(0x79, CommandCode::STATUS_WORD, Operation::WriteWord, Operation::ReadWord);
    verify(0x7a, CommandCode::STATUS_VOUT, Operation::WriteByte, Operation::ReadByte);
    verify(0x7b, CommandCode::STATUS_IOUT, Operation::WriteByte, Operation::ReadByte);
    verify(0x7c, CommandCode::STATUS_INPUT, Operation::WriteByte, Operation::ReadByte);
    verify(0x7d, CommandCode::STATUS_TEMPERATURE, Operation::WriteByte, Operation::ReadByte);
    verify(0x7e, CommandCode::STATUS_CML, Operation::WriteByte, Operation::ReadByte);
    verify(0x7f, CommandCode::STATUS_OTHER, Operation::WriteByte, Operation::ReadByte);
    verify(0x80, CommandCode::STATUS_MFR_SPECIFIC, Operation::WriteByte, Operation::ReadByte);
    verify(0x81, CommandCode::STATUS_FANS_1_2, Operation::WriteByte, Operation::ReadByte);
    verify(0x82, CommandCode::STATUS_FANS_3_4, Operation::WriteByte, Operation::ReadByte);
    verify(0x83, CommandCode::READ_KWH_IN, Operation::Illegal, Operation::ReadWord32);
    verify(0x84, CommandCode::READ_KWH_OUT, Operation::Illegal, Operation::ReadWord32);
    verify(0x85, CommandCode::READ_KWH_CONFIG, Operation::WriteWord, Operation::ReadWord);
    verify(0x86, CommandCode::READ_EIN, Operation::Illegal, Operation::ReadBlock);
    verify(0x87, CommandCode::READ_EOUT, Operation::Illegal, Operation::ReadBlock);
    verify(0x88, CommandCode::READ_VIN, Operation::Illegal, Operation::ReadWord);
    verify(0x89, CommandCode::READ_IIN, Operation::Illegal, Operation::ReadWord);
    verify(0x8a, CommandCode::READ_VCAP, Operation::Illegal, Operation::ReadWord);
    verify(0x8b, CommandCode::READ_VOUT, Operation::Illegal, Operation::ReadWord);
    verify(0x8c, CommandCode::READ_IOUT, Operation::Illegal, Operation::ReadWord);
    verify(0x8d, CommandCode::READ_TEMPERATURE_1, Operation::Illegal, Operation::ReadWord);
    verify(0x8e, CommandCode::READ_TEMPERATURE_2, Operation::Illegal, Operation::ReadWord);
    verify(0x8f, CommandCode::READ_TEMPERATURE_3, Operation::Illegal, Operation::ReadWord);
    verify(0x90, CommandCode::READ_FAN_SPEED_1, Operation::Illegal, Operation::ReadWord);
    verify(0x91, CommandCode::READ_FAN_SPEED_2, Operation::Illegal, Operation::ReadWord);
    verify(0x92, CommandCode::READ_FAN_SPEED_3, Operation::Illegal, Operation::ReadWord);
    verify(0x93, CommandCode::READ_FAN_SPEED_4, Operation::Illegal, Operation::ReadWord);
    verify(0x94, CommandCode::READ_DUTY_CYCLE, Operation::Illegal, Operation::ReadWord);
    verify(0x95, CommandCode::READ_FREQUENCY, Operation::Illegal, Operation::ReadWord);
    verify(0x96, CommandCode::READ_POUT, Operation::Illegal, Operation::ReadWord);
    verify(0x97, CommandCode::READ_PIN, Operation::Illegal, Operation::ReadWord);
    verify(0x98, CommandCode::PMBUS_REVISION, Operation::Illegal, Operation::ReadByte);
    verify(0x99, CommandCode::MFR_ID, Operation::WriteBlock, Operation::ReadBlock);
    verify(0x9a, CommandCode::MFR_MODEL, Operation::WriteBlock, Operation::ReadBlock);
    verify(0x9b, CommandCode::MFR_REVISION, Operation::WriteBlock, Operation::ReadBlock);
    verify(0x9c, CommandCode::MFR_LOCATION, Operation::WriteBlock, Operation::ReadBlock);
    verify(0x9d, CommandCode::MFR_DATE, Operation::WriteBlock, Operation::ReadBlock);
    verify(0x9e, CommandCode::MFR_SERIAL, Operation::WriteBlock, Operation::ReadBlock);
    verify(0x9f, CommandCode::APP_PROFILE_SUPPORT, Operation::Illegal, Operation::ReadBlock);
    verify(0xa0, CommandCode::MFR_VIN_MIN, Operation::Illegal, Operation::ReadWord);
    verify(0xa1, CommandCode::MFR_VIN_MAX, Operation::Illegal, Operation::ReadWord);
    verify(0xa2, CommandCode::MFR_IIN_MAX, Operation::Illegal, Operation::ReadWord);
    verify(0xa3, CommandCode::MFR_PIN_MAX, Operation::Illegal, Operation::ReadWord);
    verify(0xa4, CommandCode::MFR_VOUT_MIN, Operation::Illegal, Operation::ReadWord);
    verify(0xa5, CommandCode::MFR_VOUT_MAX, Operation::Illegal, Operation::ReadWord);
    verify(0xa6, CommandCode::MFR_IOUT_MAX, Operation::Illegal, Operation::ReadWord);
    verify(0xa7, CommandCode::MFR_POUT_MAX, Operation::Illegal, Operation::ReadWord);
    verify(0xa8, CommandCode::MFR_TAMBIENT_MAX, Operation::Illegal, Operation::ReadWord);
    verify(0xa9, CommandCode::MFR_TAMBIENT_MIN, Operation::Illegal, Operation::ReadWord);
    verify(0xaa, CommandCode::MFR_EFFICIENCY_LL, Operation::Illegal, Operation::ReadBlock);
    verify(0xab, CommandCode::MFR_EFFICIENCY_HL, Operation::Illegal, Operation::ReadBlock);
    verify(0xac, CommandCode::MFR_PIN_ACCURACY, Operation::Illegal, Operation::ReadByte);
    verify(0xad, CommandCode::IC_DEVICE_ID, Operation::Illegal, Operation::ReadBlock);
    verify(0xae, CommandCode::IC_DEVICE_REV, Operation::Illegal, Operation::ReadBlock);
    verify(0xb0, CommandCode::USER_DATA_00, Operation::WriteBlock, Operation::ReadBlock);
    verify(0xb1, CommandCode::USER_DATA_01, Operation::WriteBlock, Operation::ReadBlock);
    verify(0xb2, CommandCode::USER_DATA_02, Operation::WriteBlock, Operation::ReadBlock);
    verify(0xb3, CommandCode::USER_DATA_03, Operation::WriteBlock, Operation::ReadBlock);
    verify(0xb4, CommandCode::USER_DATA_04, Operation::WriteBlock, Operation::ReadBlock);
    verify(0xb5, CommandCode::USER_DATA_05, Operation::WriteBlock, Operation::ReadBlock);
    verify(0xb6, CommandCode::USER_DATA_06, Operation::WriteBlock, Operation::ReadBlock);
    verify(0xb7, CommandCode::USER_DATA_07, Operation::WriteBlock, Operation::ReadBlock);
    verify(0xb8, CommandCode::USER_DATA_08, Operation::WriteBlock, Operation::ReadBlock);
    verify(0xb9, CommandCode::USER_DATA_09, Operation::WriteBlock, Operation::ReadBlock);
    verify(0xba, CommandCode::USER_DATA_10, Operation::WriteBlock, Operation::ReadBlock);
    verify(0xbb, CommandCode::USER_DATA_11, Operation::WriteBlock, Operation::ReadBlock);
    verify(0xbc, CommandCode::USER_DATA_12, Operation::WriteBlock, Operation::ReadBlock);
    verify(0xbd, CommandCode::USER_DATA_13, Operation::WriteBlock, Operation::ReadBlock);
    verify(0xbe, CommandCode::USER_DATA_14, Operation::WriteBlock, Operation::ReadBlock);
    verify(0xbf, CommandCode::USER_DATA_15, Operation::WriteBlock, Operation::ReadBlock);
    verify(0xc0, CommandCode::MFR_MAX_TEMP_1, Operation::WriteWord, Operation::ReadWord);
    verify(0xc1, CommandCode::MFR_MAX_TEMP_2, Operation::WriteWord, Operation::ReadWord);
    verify(0xc2, CommandCode::MFR_MAX_TEMP_3, Operation::WriteWord, Operation::ReadWord);
    verify(0xc4, CommandCode::MFR_SPECIFIC_C4, Operation::MfrDefined, Operation::MfrDefined);
    verify(0xc5, CommandCode::MFR_SPECIFIC_C5, Operation::MfrDefined, Operation::MfrDefined);
    verify(0xc6, CommandCode::MFR_SPECIFIC_C6, Operation::MfrDefined, Operation::MfrDefined);
    verify(0xc7, CommandCode::MFR_SPECIFIC_C7, Operation::MfrDefined, Operation::MfrDefined);
    verify(0xc8, CommandCode::MFR_SPECIFIC_C8, Operation::MfrDefined, Operation::MfrDefined);
    verify(0xc9, CommandCode::MFR_SPECIFIC_C9, Operation::MfrDefined, Operation::MfrDefined);
    verify(0xca, CommandCode::MFR_SPECIFIC_CA, Operation::MfrDefined, Operation::MfrDefined);
    verify(0xcb, CommandCode::MFR_SPECIFIC_CB, Operation::MfrDefined, Operation::MfrDefined);
    verify(0xcc, CommandCode::MFR_SPECIFIC_CC, Operation::MfrDefined, Operation::MfrDefined);
    verify(0xcd, CommandCode::MFR_SPECIFIC_CD, Operation::MfrDefined, Operation::MfrDefined);
    verify(0xce, CommandCode::MFR_SPECIFIC_CE, Operation::MfrDefined, Operation::MfrDefined);
    verify(0xcf, CommandCode::MFR_SPECIFIC_CF, Operation::MfrDefined, Operation::MfrDefined);
    verify(0xd0, CommandCode::MFR_SPECIFIC_D0, Operation::MfrDefined, Operation::MfrDefined);
    verify(0xd1, CommandCode::MFR_SPECIFIC_D1, Operation::MfrDefined, Operation::MfrDefined);
    verify(0xd2, CommandCode::MFR_SPECIFIC_D2, Operation::MfrDefined, Operation::MfrDefined);
    verify(0xd3, CommandCode::MFR_SPECIFIC_D3, Operation::MfrDefined, Operation::MfrDefined);
    verify(0xd4, CommandCode::MFR_SPECIFIC_D4, Operation::MfrDefined, Operation::MfrDefined);
    verify(0xd5, CommandCode::MFR_SPECIFIC_D5, Operation::MfrDefined, Operation::MfrDefined);
    verify(0xd6, CommandCode::MFR_SPECIFIC_D6, Operation::MfrDefined, Operation::MfrDefined);
    verify(0xd7, CommandCode::MFR_SPECIFIC_D7, Operation::MfrDefined, Operation::MfrDefined);
    verify(0xd8, CommandCode::MFR_SPECIFIC_D8, Operation::MfrDefined, Operation::MfrDefined);
    verify(0xd9, CommandCode::MFR_SPECIFIC_D9, Operation::MfrDefined, Operation::MfrDefined);
    verify(0xda, CommandCode::MFR_SPECIFIC_DA, Operation::MfrDefined, Operation::MfrDefined);
    verify(0xdb, CommandCode::MFR_SPECIFIC_DB, Operation::MfrDefined, Operation::MfrDefined);
    verify(0xdc, CommandCode::MFR_SPECIFIC_DC, Operation::MfrDefined, Operation::MfrDefined);
    verify(0xdd, CommandCode::MFR_SPECIFIC_DD, Operation::MfrDefined, Operation::MfrDefined);
    verify(0xde, CommandCode::MFR_SPECIFIC_DE, Operation::MfrDefined, Operation::MfrDefined);
    verify(0xdf, CommandCode::MFR_SPECIFIC_DF, Operation::MfrDefined, Operation::MfrDefined);
    verify(0xe0, CommandCode::MFR_SPECIFIC_E0, Operation::MfrDefined, Operation::MfrDefined);
    verify(0xe1, CommandCode::MFR_SPECIFIC_E1, Operation::MfrDefined, Operation::MfrDefined);
    verify(0xe2, CommandCode::MFR_SPECIFIC_E2, Operation::MfrDefined, Operation::MfrDefined);
    verify(0xe3, CommandCode::MFR_SPECIFIC_E3, Operation::MfrDefined, Operation::MfrDefined);
    verify(0xe4, CommandCode::MFR_SPECIFIC_E4, Operation::MfrDefined, Operation::MfrDefined);
    verify(0xe5, CommandCode::MFR_SPECIFIC_E5, Operation::MfrDefined, Operation::MfrDefined);
    verify(0xe6, CommandCode::MFR_SPECIFIC_E6, Operation::MfrDefined, Operation::MfrDefined);
    verify(0xe7, CommandCode::MFR_SPECIFIC_E7, Operation::MfrDefined, Operation::MfrDefined);
    verify(0xe8, CommandCode::MFR_SPECIFIC_E8, Operation::MfrDefined, Operation::MfrDefined);
    verify(0xe9, CommandCode::MFR_SPECIFIC_E9, Operation::MfrDefined, Operation::MfrDefined);
    verify(0xea, CommandCode::MFR_SPECIFIC_EA, Operation::MfrDefined, Operation::MfrDefined);
    verify(0xeb, CommandCode::MFR_SPECIFIC_EB, Operation::MfrDefined, Operation::MfrDefined);
    verify(0xec, CommandCode::MFR_SPECIFIC_EC, Operation::MfrDefined, Operation::MfrDefined);
    verify(0xed, CommandCode::MFR_SPECIFIC_ED, Operation::MfrDefined, Operation::MfrDefined);
    verify(0xee, CommandCode::MFR_SPECIFIC_EE, Operation::MfrDefined, Operation::MfrDefined);
    verify(0xef, CommandCode::MFR_SPECIFIC_EF, Operation::MfrDefined, Operation::MfrDefined);
    verify(0xf0, CommandCode::MFR_SPECIFIC_F0, Operation::MfrDefined, Operation::MfrDefined);
    verify(0xf1, CommandCode::MFR_SPECIFIC_F1, Operation::MfrDefined, Operation::MfrDefined);
    verify(0xf2, CommandCode::MFR_SPECIFIC_F2, Operation::MfrDefined, Operation::MfrDefined);
    verify(0xf3, CommandCode::MFR_SPECIFIC_F3, Operation::MfrDefined, Operation::MfrDefined);
    verify(0xf4, CommandCode::MFR_SPECIFIC_F4, Operation::MfrDefined, Operation::MfrDefined);
    verify(0xf5, CommandCode::MFR_SPECIFIC_F5, Operation::MfrDefined, Operation::MfrDefined);
    verify(0xf6, CommandCode::MFR_SPECIFIC_F6, Operation::MfrDefined, Operation::MfrDefined);
    verify(0xf7, CommandCode::MFR_SPECIFIC_F7, Operation::MfrDefined, Operation::MfrDefined);
    verify(0xf8, CommandCode::MFR_SPECIFIC_F8, Operation::MfrDefined, Operation::MfrDefined);
    verify(0xf9, CommandCode::MFR_SPECIFIC_F9, Operation::MfrDefined, Operation::MfrDefined);
    verify(0xfa, CommandCode::MFR_SPECIFIC_FA, Operation::MfrDefined, Operation::MfrDefined);
    verify(0xfb, CommandCode::MFR_SPECIFIC_FB, Operation::MfrDefined, Operation::MfrDefined);
    verify(0xfc, CommandCode::MFR_SPECIFIC_FC, Operation::MfrDefined, Operation::MfrDefined);
    verify(0xfd, CommandCode::MFR_SPECIFIC_FD, Operation::MfrDefined, Operation::MfrDefined);
    verify(0xfe, CommandCode::MFR_SPECIFIC_COMMAND_EXT, Operation::Extended, Operation::Extended);
    verify(0xff, CommandCode::PMBUS_COMMAND_EXT, Operation::Extended, Operation::Extended);
    println!("{:?}", CommandCode::from_u8(0x9));
}

#[test]
fn device_list() {
    let code = CommandCode::STATUS_MFR_SPECIFIC as u8;

    println!("code is {:x}", code);

    for d in devices() {
        for i in 0..=0xffu8 {
            let cmd = d.command(i);
            println!(
                "{:?}: {:2x} {} R={:?} W={:?}",
                d,
                i,
                cmd.name(),
                cmd.read_op(),
                cmd.write_op()
            );
        }
    }
}

use vstd::prelude::*;
use crate::commands::code::{CommandCode, from_code_spec, read_op_spec, write_op_spec};
use crate::engine::{
    Layout, VOutModeSource, FieldVisitor, MutateVisitor, interpret_values, fields_claim_bit,
};
use crate::raw::{extract_bits, le_value};
use crate::field::{Error, Field, Kind, Sentinel, Value};
use crate::operation::Operation;

verus! {

/// One data definition of some device's catalog.
#[derive(Copy, Clone, Debug, PartialEq, Eq, Structural)]
pub enum Def {
    Operation,
    OnOffConfig,
    Capability,
    VoutMode,
    VoutCommand,
    StatusWord,
    StatusVout,
    StatusIout,
    StatusCml,
    StatusOther,
    ReadVin,
    ReadIin,
    ReadVout,
    ReadIout,
    ReadTemperature1,
    ReadPout,
    ReadPin,
    Adm1272StatusMfrSpecific,
    Adm1272ReadVin,
    Adm1272ReadVout,
    Adm1272ReadIout,
    Adm1272ReadPin,
    Adm1272PeakIout,
    Adm1272PeakVin,
    Adm1272PeakVout,
    Adm1272PeakPin,
    Adm1272PmonConfig,
    TpsReadAll,
    BmrFastOcpCfg,
    BmrResponseUnitCfg,
    BmrIshareThreshold,
    Bmr491RcLevel,
    Bmr491KsPretrig,
    IslReadVin,
    IslTonRise,
    IslDmafix,
}

/// A PMBus device: the Common catalog plus one variant per supported
/// part.  Devices are stateless; resolution consults only fixed catalog
/// data, so values may be shared freely.
#[derive(Copy, Clone, Debug, PartialEq, Eq, Structural)]
pub enum Device {
    Common,
    Adm1272,
    Bmr480,
    Bmr491,
    Isl68224,
    Tps546B24A,
}

/// The Common catalog: the standard commands that carry a data
/// definition here.
pub open spec fn common_def_spec(code: u8) -> Option<Def> {
    match code {
        0x01 => Some(Def::Operation),
        0x02 => Some(Def::OnOffConfig),
        0x19 => Some(Def::Capability),
        0x20 => Some(Def::VoutMode),
        0x21 => Some(Def::VoutCommand),
        0x79 => Some(Def::StatusWord),
        0x7a => Some(Def::StatusVout),
        0x7b => Some(Def::StatusIout),
        0x7e => Some(Def::StatusCml),
        0x7f => Some(Def::StatusOther),
        0x88 => Some(Def::ReadVin),
        0x89 => Some(Def::ReadIin),
        0x8b => Some(Def::ReadVout),
        0x8c => Some(Def::ReadIout),
        0x8d => Some(Def::ReadTemperature1),
        0x96 => Some(Def::ReadPout),
        0x97 => Some(Def::ReadPin),
        _ => None,
    }
}

/// A device's own catalog: the codes it redefines or adds.
pub open spec fn device_def_spec(d: Device, code: u8) -> Option<Def> {
    match d {
        Device::Common => None,
        Device::Adm1272 => match code {
            0x80 => Some(Def::Adm1272StatusMfrSpecific),
            0x88 => Some(Def::Adm1272ReadVin),
            0x8b => Some(Def::Adm1272ReadVout),
            0x8c => Some(Def::Adm1272ReadIout),
            0x97 => Some(Def::Adm1272ReadPin),
            0xd0 => Some(Def::Adm1272PeakIout),
            0xd1 => Some(Def::Adm1272PeakVin),
            0xd2 => Some(Def::Adm1272PeakVout),
            0xd3 => Some(Def::Adm1272PeakPin),
            0xd4 => Some(Def::Adm1272PmonConfig),
            _ => None,
        },
        Device::Bmr480 => match code {
            0xd5 => Some(Def::BmrFastOcpCfg),
            0xd6 => Some(Def::BmrResponseUnitCfg),
            0xd7 => Some(Def::BmrIshareThreshold),
            _ => None,
        },
        Device::Bmr491 => match code {
            0xd5 => Some(Def::BmrFastOcpCfg),
            0xd6 => Some(Def::BmrResponseUnitCfg),
            0xd7 => Some(Def::BmrIshareThreshold),
            0xd8 => Some(Def::Bmr491RcLevel),
            0xd9 => Some(Def::Bmr491KsPretrig),
            _ => None,
        },
        Device::Isl68224 => match code {
            0x61 => Some(Def::IslTonRise),
            0x88 => Some(Def::IslReadVin),
            0xc5 => Some(Def::IslDmafix),
            _ => None,
        },
        Device::Tps546B24A => match code {
            0xef => Some(Def::TpsReadAll),
            _ => None,
        },
    }
}

/// Override resolution: the device's own definition when it redefines
/// the code, the Common definition otherwise.
pub open spec fn resolve_def_spec(d: Device, code: u8) -> Option<Def> {
    if device_def_spec(d, code) is Some {
        device_def_spec(d, code)
    } else {
        common_def_spec(code)
    }
}

/// The fields a definition declares, most significant first.
pub open spec fn def_fields_spec(def: Def) -> Seq<Field> {
    match def {
        Def::Operation => crate::commands::operation::fields_spec(),
        Def::OnOffConfig => crate::commands::on_off_config::fields_spec(),
        Def::Capability => crate::commands::capability::fields_spec(),
        Def::VoutMode => crate::commands::vout_mode::fields_spec(),
        Def::VoutCommand => crate::commands::vout_command::fields_spec(),
        Def::StatusWord => crate::commands::status_word::fields_spec(),
        Def::StatusVout => crate::commands::status_vout::fields_spec(),
        Def::StatusIout => crate::commands::status_iout::fields_spec(),
        Def::StatusCml => crate::commands::status_cml::fields_spec(),
        Def::StatusOther => crate::commands::status_other::fields_spec(),
        Def::ReadVin => crate::commands::read_vin::fields_spec(),
        Def::ReadIin => crate::commands::read_iin::fields_spec(),
        Def::ReadVout => crate::commands::read_vout::fields_spec(),
        Def::ReadIout => crate::commands::read_iout::fields_spec(),
        Def::ReadTemperature1 => crate::commands::read_temperature_1::fields_spec(),
        Def::ReadPout => crate::commands::read_pout::fields_spec(),
        Def::ReadPin => crate::commands::read_pin::fields_spec(),
        Def::Adm1272StatusMfrSpecific => crate::adm1272::status_mfr_specific::fields_spec(),
        Def::Adm1272ReadVin => crate::adm1272::read_vin::fields_spec(),
        Def::Adm1272ReadVout => crate::adm1272::read_vout::fields_spec(),
        Def::Adm1272ReadIout => crate::adm1272::read_iout::fields_spec(),
        Def::Adm1272ReadPin => crate::adm1272::read_pin::fields_spec(),
        Def::Adm1272PeakIout => crate::adm1272::peak_iout::fields_spec(),
        Def::Adm1272PeakVin => crate::adm1272::peak_vin::fields_spec(),
        Def::Adm1272PeakVout => crate::adm1272::peak_vout::fields_spec(),
        Def::Adm1272PeakPin => crate::adm1272::peak_pin::fields_spec(),
        Def::Adm1272PmonConfig => crate::adm1272::pmon_config::fields_spec(),
        Def::TpsReadAll => crate::tps546b24a::read_all::fields_spec(),
        Def::BmrFastOcpCfg => crate::bmr480::mfr_fast_ocp_cfg::fields_spec(),
        Def::BmrResponseUnitCfg => crate::bmr480::mfr_response_unit_cfg::fields_spec(),
        Def::BmrIshareThreshold => crate::bmr480::mfr_ishare_threshold::fields_spec(),
        Def::Bmr491RcLevel => crate::bmr491::mfr_rc_level::fields_spec(),
        Def::Bmr491KsPretrig => crate::bmr491::mfr_ks_pretrig::fields_spec(),
        Def::IslReadVin => crate::isl68224::read_vin::fields_spec(),
        Def::IslTonRise => crate::isl68224::ton_rise::fields_spec(),
        Def::IslDmafix => crate::isl68224::dmafix::fields_spec(),
    }
}

/// The sentinel groups a definition declares, as plain data.
pub open spec fn def_groups_spec(def: Def) -> Seq<(u8, u8, Seq<Sentinel>)> {
    match def {
        Def::Operation => crate::commands::operation::groups_spec(),
        Def::OnOffConfig => crate::commands::on_off_config::groups_spec(),
        Def::Capability => crate::commands::capability::groups_spec(),
        Def::VoutMode => crate::commands::vout_mode::groups_spec(),
        Def::VoutCommand => crate::commands::vout_command::groups_spec(),
        Def::StatusWord => crate::commands::status_word::groups_spec(),
        Def::StatusVout => crate::commands::status_vout::groups_spec(),
        Def::StatusIout => crate::commands::status_iout::groups_spec(),
        Def::StatusCml => crate::commands::status_cml::groups_spec(),
        Def::StatusOther => crate::commands::status_other::groups_spec(),
        Def::ReadVin => crate::commands::read_vin::groups_spec(),
        Def::ReadIin => crate::commands::read_iin::groups_spec(),
        Def::ReadVout => crate::commands::read_vout::groups_spec(),
        Def::ReadIout => crate::commands::read_iout::groups_spec(),
        Def::ReadTemperature1 => crate::commands::read_temperature_1::groups_spec(),
        Def::ReadPout => crate::commands::read_pout::groups_spec(),
        Def::ReadPin => crate::commands::read_pin::groups_spec(),
        Def::Adm1272StatusMfrSpecific => crate::adm1272::status_mfr_specific::groups_spec(),
        Def::Adm1272ReadVin => crate::adm1272::read_vin::groups_spec(),
        Def::Adm1272ReadVout => crate::adm1272::read_vout::groups_spec(),
        Def::Adm1272ReadIout => crate::adm1272::read_iout::groups_spec(),
        Def::Adm1272ReadPin => crate::adm1272::read_pin::groups_spec(),
        Def::Adm1272PeakIout => crate::adm1272::peak_iout::groups_spec(),
        Def::Adm1272PeakVin => crate::adm1272::peak_vin::groups_spec(),
        Def::Adm1272PeakVout => crate::adm1272::peak_vout::groups_spec(),
        Def::Adm1272PeakPin => crate::adm1272::peak_pin::groups_spec(),
        Def::Adm1272PmonConfig => crate::adm1272::pmon_config::groups_spec(),
        Def::TpsReadAll => crate::tps546b24a::read_all::groups_spec(),
        Def::BmrFastOcpCfg => crate::bmr480::mfr_fast_ocp_cfg::groups_spec(),
        Def::BmrResponseUnitCfg => crate::bmr480::mfr_response_unit_cfg::groups_spec(),
        Def::BmrIshareThreshold => crate::bmr480::mfr_ishare_threshold::groups_spec(),
        Def::Bmr491RcLevel => crate::bmr491::mfr_rc_level::groups_spec(),
        Def::Bmr491KsPretrig => crate::bmr491::mfr_ks_pretrig::groups_spec(),
        Def::IslReadVin => crate::isl68224::read_vin::groups_spec(),
        Def::IslTonRise => crate::isl68224::ton_rise::groups_spec(),
        Def::IslDmafix => crate::isl68224::dmafix::groups_spec(),
    }
}

/// The name a defined command answers to under its device.
pub open spec fn def_name_spec(def: Def) -> &'static str {
    match def {
        Def::Operation => "OPERATION",
        Def::OnOffConfig => "ON_OFF_CONFIG",
        Def::Capability => "CAPABILITY",
        Def::VoutMode => "VOUT_MODE",
        Def::VoutCommand => "VOUT_COMMAND",
        Def::StatusWord => "STATUS_WORD",
        Def::StatusVout => "STATUS_VOUT",
        Def::StatusIout => "STATUS_IOUT",
        Def::StatusCml => "STATUS_CML",
        Def::StatusOther => "STATUS_OTHER",
        Def::ReadVin => "READ_VIN",
        Def::ReadIin => "READ_IIN",
        Def::ReadVout => "READ_VOUT",
        Def::ReadIout => "READ_IOUT",
        Def::ReadTemperature1 => "READ_TEMPERATURE_1",
        Def::ReadPout => "READ_POUT",
        Def::ReadPin => "READ_PIN",
        Def::Adm1272StatusMfrSpecific => "STATUS_MFR_SPECIFIC",
        Def::Adm1272ReadVin => "READ_VIN",
        Def::Adm1272ReadVout => "READ_VOUT",
        Def::Adm1272ReadIout => "READ_IOUT",
        Def::Adm1272ReadPin => "READ_PIN",
        Def::Adm1272PeakIout => "PEAK_IOUT",
        Def::Adm1272PeakVin => "PEAK_VIN",
        Def::Adm1272PeakVout => "PEAK_VOUT",
        Def::Adm1272PeakPin => "PEAK_PIN",
        Def::Adm1272PmonConfig => "PMON_CONFIG",
        Def::TpsReadAll => "READ_ALL",
        Def::BmrFastOcpCfg => "MFR_FAST_OCP_CFG",
        Def::BmrResponseUnitCfg => "MFR_RESPONSE_UNIT_CFG",
        Def::BmrIshareThreshold => "MFR_ISHARE_THRESHOLD",
        Def::Bmr491RcLevel => "MFR_RC_LEVEL",
        Def::Bmr491KsPretrig => "MFR_KS_PRETRIG",
        Def::IslReadVin => "READ_VIN",
        Def::IslTonRise => "TON_RISE",
        Def::IslDmafix => "DMAFIX",
    }
}

/// The name a defined command answers to under its device.
fn def_name(def: Def) -> (r: &'static str)
    ensures
        r@ == def_name_spec(def)@,
{
    match def {
        Def::Operation => "OPERATION",
        Def::OnOffConfig => "ON_OFF_CONFIG",
        Def::Capability => "CAPABILITY",
        Def::VoutMode => "VOUT_MODE",
        Def::VoutCommand => "VOUT_COMMAND",
        Def::StatusWord => "STATUS_WORD",
        Def::StatusVout => "STATUS_VOUT",
        Def::StatusIout => "STATUS_IOUT",
        Def::StatusCml => "STATUS_CML",
        Def::StatusOther => "STATUS_OTHER",
        Def::ReadVin => "READ_VIN",
        Def::ReadIin => "READ_IIN",
        Def::ReadVout => "READ_VOUT",
        Def::ReadIout => "READ_IOUT",
        Def::ReadTemperature1 => "READ_TEMPERATURE_1",
        Def::ReadPout => "READ_POUT",
        Def::ReadPin => "READ_PIN",
        Def::Adm1272StatusMfrSpecific => "STATUS_MFR_SPECIFIC",
        Def::Adm1272ReadVin => "READ_VIN",
        Def::Adm1272ReadVout => "READ_VOUT",
        Def::Adm1272ReadIout => "READ_IOUT",
        Def::Adm1272ReadPin => "READ_PIN",
        Def::Adm1272PeakIout => "PEAK_IOUT",
        Def::Adm1272PeakVin => "PEAK_VIN",
        Def::Adm1272PeakVout => "PEAK_VOUT",
        Def::Adm1272PeakPin => "PEAK_PIN",
        Def::Adm1272PmonConfig => "PMON_CONFIG",
        Def::TpsReadAll => "READ_ALL",
        Def::BmrFastOcpCfg => "MFR_FAST_OCP_CFG",
        Def::BmrResponseUnitCfg => "MFR_RESPONSE_UNIT_CFG",
        Def::BmrIshareThreshold => "MFR_ISHARE_THRESHOLD",
        Def::Bmr491RcLevel => "MFR_RC_LEVEL",
        Def::Bmr491KsPretrig => "MFR_KS_PRETRIG",
        Def::IslReadVin => "READ_VIN",
        Def::IslTonRise => "TON_RISE",
        Def::IslDmafix => "DMAFIX",
    }
}

/// The payload width a definition declares, in bytes.
pub open spec fn def_width_spec(def: Def) -> u8 {
    match def {
        Def::Operation => 1,
        Def::OnOffConfig => 1,
        Def::Capability => 1,
        Def::VoutMode => 1,
        Def::VoutCommand => 2,
        Def::StatusWord => 2,
        Def::StatusVout => 1,
        Def::StatusIout => 1,
        Def::StatusCml => 1,
        Def::StatusOther => 1,
        Def::ReadVin => 2,
        Def::ReadIin => 2,
        Def::ReadVout => 2,
        Def::ReadIout => 2,
        Def::ReadTemperature1 => 2,
        Def::ReadPout => 2,
        Def::ReadPin => 2,
        Def::Adm1272StatusMfrSpecific => 1,
        Def::Adm1272ReadVin => 2,
        Def::Adm1272ReadVout => 2,
        Def::Adm1272ReadIout => 2,
        Def::Adm1272ReadPin => 2,
        Def::Adm1272PeakIout => 2,
        Def::Adm1272PeakVin => 2,
        Def::Adm1272PeakVout => 2,
        Def::Adm1272PeakPin => 2,
        Def::Adm1272PmonConfig => 2,
        Def::TpsReadAll => 14,
        Def::BmrFastOcpCfg => 2,
        Def::BmrResponseUnitCfg => 1,
        Def::BmrIshareThreshold => 8,
        Def::Bmr491RcLevel => 1,
        Def::Bmr491KsPretrig => 1,
        Def::IslReadVin => 2,
        Def::IslTonRise => 2,
        Def::IslDmafix => 4,
    }
}

/// The bus operation that writes a defined command.
pub open spec fn def_write_op_spec(def: Def) -> Operation {
    match def {
        Def::Operation => Operation::WriteByte,
        Def::OnOffConfig => Operation::WriteByte,
        Def::Capability => Operation::Illegal,
        Def::VoutMode => Operation::WriteByte,
        Def::VoutCommand => Operation::WriteWord,
        Def::StatusWord => Operation::WriteWord,
        Def::StatusVout => Operation::WriteByte,
        Def::StatusIout => Operation::WriteByte,
        Def::StatusCml => Operation::WriteByte,
        Def::StatusOther => Operation::WriteByte,
        Def::ReadVin => Operation::Illegal,
        Def::ReadIin => Operation::Illegal,
        Def::ReadVout => Operation::Illegal,
        Def::ReadIout => Operation::Illegal,
        Def::ReadTemperature1 => Operation::Illegal,
        Def::ReadPout => Operation::Illegal,
        Def::ReadPin => Operation::Illegal,
        Def::Adm1272StatusMfrSpecific => Operation::WriteByte,
        Def::Adm1272ReadVin => Operation::Illegal,
        Def::Adm1272ReadVout => Operation::Illegal,
        Def::Adm1272ReadIout => Operation::Illegal,
        Def::Adm1272ReadPin => Operation::Illegal,
        Def::Adm1272PeakIout => Operation::WriteWord,
        Def::Adm1272PeakVin => Operation::WriteWord,
        Def::Adm1272PeakVout => Operation::WriteWord,
        Def::Adm1272PeakPin => Operation::WriteWord,
        Def::Adm1272PmonConfig => Operation::WriteWord,
        Def::TpsReadAll => Operation::Illegal,
        Def::BmrFastOcpCfg => Operation::WriteWord,
        Def::BmrResponseUnitCfg => Operation::WriteByte,
        Def::BmrIshareThreshold => Operation::WriteBlock,
        Def::Bmr491RcLevel => Operation::WriteByte,
        Def::Bmr491KsPretrig => Operation::WriteByte,
        Def::IslReadVin => Operation::Illegal,
        Def::IslTonRise => Operation::WriteWord,
        Def::IslDmafix => Operation::WriteBlock,
    }
}

/// The bus operation that reads a defined command.
pub open spec fn def_read_op_spec(def: Def) -> Operation {
    match def {
        Def::Operation => Operation::ReadByte,
        Def::OnOffConfig => Operation::ReadByte,
        Def::Capability => Operation::ReadByte,
        Def::VoutMode => Operation::ReadByte,
        Def::VoutCommand => Operation::ReadWord,
        Def::StatusWord => Operation::ReadWord,
        Def::StatusVout => Operation::ReadByte,
        Def::StatusIout => Operation::ReadByte,
        Def::StatusCml => Operation::ReadByte,
        Def::StatusOther => Operation::ReadByte,
        Def::ReadVin => Operation::ReadWord,
        Def::ReadIin => Operation::ReadWord,
        Def::ReadVout => Operation::ReadWord,
        Def::ReadIout => Operation::ReadWord,
        Def::ReadTemperature1 => Operation::ReadWord,
        Def::ReadPout => Operation::ReadWord,
        Def::ReadPin => Operation::ReadWord,
        Def::Adm1272StatusMfrSpecific => Operation::ReadByte,
        Def::Adm1272ReadVin => Operation::ReadWord,
        Def::Adm1272ReadVout => Operation::ReadWord,
        Def::Adm1272ReadIout => Operation::ReadWord,
        Def::Adm1272ReadPin => Operation::ReadWord,
        Def::Adm1272PeakIout => Operation::ReadWord,
        Def::Adm1272PeakVin => Operation::ReadWord,
        Def::Adm1272PeakVout => Operation::ReadWord,
        Def::Adm1272PeakPin => Operation::ReadWord,
        Def::Adm1272PmonConfig => Operation::ReadWord,
        Def::TpsReadAll => Operation::ReadBlock,
        Def::BmrFastOcpCfg => Operation::ReadWord,
        Def::BmrResponseUnitCfg => Operation::ReadByte,
        Def::BmrIshareThreshold => Operation::ReadBlock,
        Def::Bmr491RcLevel => Operation::ReadByte,
        Def::Bmr491KsPretrig => Operation::ReadByte,
        Def::IslReadVin => Operation::ReadWord,
        Def::IslTonRise => Operation::ReadWord,
        Def::IslDmafix => Operation::ReadBlock,
    }
}

/// Build the layout of a definition.
pub fn layout_of(def: Def) -> (r: Layout)
    ensures
        r.wf(),
        r.fields@ == def_fields_spec(def),
        r.width == def_width_spec(def),
        crate::engine::groups_match(r, def_groups_spec(def)),
{
    match def {
        Def::Operation => crate::commands::operation::layout(),
        Def::OnOffConfig => crate::commands::on_off_config::layout(),
        Def::Capability => crate::commands::capability::layout(),
        Def::VoutMode => crate::commands::vout_mode::layout(),
        Def::VoutCommand => crate::commands::vout_command::layout(),
        Def::StatusWord => crate::commands::status_word::layout(),
        Def::StatusVout => crate::commands::status_vout::layout(),
        Def::StatusIout => crate::commands::status_iout::layout(),
        Def::StatusCml => crate::commands::status_cml::layout(),
        Def::StatusOther => crate::commands::status_other::layout(),
        Def::ReadVin => crate::commands::read_vin::layout(),
        Def::ReadIin => crate::commands::read_iin::layout(),
        Def::ReadVout => crate::commands::read_vout::layout(),
        Def::ReadIout => crate::commands::read_iout::layout(),
        Def::ReadTemperature1 => crate::commands::read_temperature_1::layout(),
        Def::ReadPout => crate::commands::read_pout::layout(),
        Def::ReadPin => crate::commands::read_pin::layout(),
        Def::Adm1272StatusMfrSpecific => crate::adm1272::status_mfr_specific::layout(),
        Def::Adm1272ReadVin => crate::adm1272::read_vin::layout(),
        Def::Adm1272ReadVout => crate::adm1272::read_vout::layout(),
        Def::Adm1272ReadIout => crate::adm1272::read_iout::layout(),
        Def::Adm1272ReadPin => crate::adm1272::read_pin::layout(),
        Def::Adm1272PeakIout => crate::adm1272::peak_iout::layout(),
        Def::Adm1272PeakVin => crate::adm1272::peak_vin::layout(),
        Def::Adm1272PeakVout => crate::adm1272::peak_vout::layout(),
        Def::Adm1272PeakPin => crate::adm1272::peak_pin::layout(),
        Def::Adm1272PmonConfig => crate::adm1272::pmon_config::layout(),
        Def::TpsReadAll => crate::tps546b24a::read_all::layout(),
        Def::BmrFastOcpCfg => crate::bmr480::mfr_fast_ocp_cfg::layout(),
        Def::BmrResponseUnitCfg => crate::bmr480::mfr_response_unit_cfg::layout(),
        Def::BmrIshareThreshold => crate::bmr480::mfr_ishare_threshold::layout(),
        Def::Bmr491RcLevel => crate::bmr491::mfr_rc_level::layout(),
        Def::Bmr491KsPretrig => crate::bmr491::mfr_ks_pretrig::layout(),
        Def::IslReadVin => crate::isl68224::read_vin::layout(),
        Def::IslTonRise => crate::isl68224::ton_rise::layout(),
        Def::IslDmafix => crate::isl68224::dmafix::layout(),
    }
}

/// A command as a device answers it: its name there and the transfer
/// kinds that move it.
#[derive(Copy, Clone, Debug)]
pub struct Command {
    pub name: &'static str,
    pub read: Operation,
    pub write: Operation,
}

impl Command {
    /// The command's name under the queried device.
    pub fn name(&self) -> (r: &'static str)
        ensures
            r == self.name,
    {
        self.name
    }

    /// The bus operation that reads the command.
    pub fn read_op(&self) -> (r: Operation)
        ensures
            r == self.read,
    {
        self.read
    }

    /// The bus operation that writes the command.
    pub fn write_op(&self) -> (r: Operation)
        ensures
            r == self.write,
    {
        self.write
    }
}

impl Device {
    /// The device's own catalog entry for a code, if it has one.
    fn own_def(&self, code: u8) -> (r: Option<Def>)
        ensures
            r == device_def_spec(*self, code),
    {
        match *self {
            Device::Common => None,
            Device::Adm1272 => match code {
                0x80 => Some(Def::Adm1272StatusMfrSpecific),
                0x88 => Some(Def::Adm1272ReadVin),
                0x8b => Some(Def::Adm1272ReadVout),
                0x8c => Some(Def::Adm1272ReadIout),
                0x97 => Some(Def::Adm1272ReadPin),
                0xd0 => Some(Def::Adm1272PeakIout),
                0xd1 => Some(Def::Adm1272PeakVin),
                0xd2 => Some(Def::Adm1272PeakVout),
                0xd3 => Some(Def::Adm1272PeakPin),
                0xd4 => Some(Def::Adm1272PmonConfig),
                _ => None,
            },
            Device::Bmr480 => match code {
                0xd5 => Some(Def::BmrFastOcpCfg),
                0xd6 => Some(Def::BmrResponseUnitCfg),
                0xd7 => Some(Def::BmrIshareThreshold),
                _ => None,
            },
            Device::Bmr491 => match code {
                0xd5 => Some(Def::BmrFastOcpCfg),
                0xd6 => Some(Def::BmrResponseUnitCfg),
                0xd7 => Some(Def::BmrIshareThreshold),
                0xd8 => Some(Def::Bmr491RcLevel),
                0xd9 => Some(Def::Bmr491KsPretrig),
                _ => None,
            },
            Device::Isl68224 => match code {
                0x61 => Some(Def::IslTonRise),
                0x88 => Some(Def::IslReadVin),
                0xc5 => Some(Def::IslDmafix),
                _ => None,
            },
            Device::Tps546B24A => match code {
                0xef => Some(Def::TpsReadAll),
                _ => None,
            },
        }
    }

    /// The resolved data definition for a code under this device: the
    /// device's own when it redefines the code, the Common one otherwise.
    pub fn def_for(&self, code: u8) -> (r: Option<Def>)
        ensures
            r == resolve_def_spec(*self, code),
    {
        match self.own_def(code) {
            Some(d) => Some(d),
            None => match code {
                0x01 => Some(Def::Operation),
                0x02 => Some(Def::OnOffConfig),
                0x19 => Some(Def::Capability),
                0x20 => Some(Def::VoutMode),
                0x21 => Some(Def::VoutCommand),
                0x79 => Some(Def::StatusWord),
                0x7a => Some(Def::StatusVout),
                0x7b => Some(Def::StatusIout),
                0x7e => Some(Def::StatusCml),
                0x7f => Some(Def::StatusOther),
                0x88 => Some(Def::ReadVin),
                0x89 => Some(Def::ReadIin),
                0x8b => Some(Def::ReadVout),
                0x8c => Some(Def::ReadIout),
                0x8d => Some(Def::ReadTemperature1),
                0x96 => Some(Def::ReadPout),
                0x97 => Some(Def::ReadPin),
                _ => None,
            },
        }
    }

    /// The resolved data layout for a code under this device.
    pub fn data(&self, code: u8) -> (r: Option<Layout>)
        ensures
            r is Some <==> resolve_def_spec(*self, code) is Some,
            r matches Some(l) ==> resolve_def_spec(*self, code) matches Some(d) && l.wf()
                && l.fields@ == def_fields_spec(d) && l.width == def_width_spec(d)
                && crate::engine::groups_match(l, def_groups_spec(d)),
    {
        match self.def_for(code) {
            Some(d) => Some(layout_of(d)),
            None => None,
        }
    }

    /// How this device answers a command code: the device's own name and
    /// operations for a code it defines, the protocol table's otherwise.
    pub fn command(&self, code: u8) -> (r: Command)
        ensures
            r.read == match device_def_spec(*self, code) {
                Some(d) => def_read_op_spec(d),
                None => read_op_spec(from_code_spec(code)),
            },
            r.write == match device_def_spec(*self, code) {
                Some(d) => def_write_op_spec(d),
                None => write_op_spec(from_code_spec(code)),
            },
            r.name@ == (match device_def_spec(*self, code) {
                Some(d) => def_name_spec(d),
                None => crate::commands::code::name_spec(from_code_spec(code)),
            })@,
    {
        match self.own_def(code) {
            Some(d) => {
                let (w, rd): (Operation, Operation) = match d {
                    Def::Operation => (Operation::WriteByte, Operation::ReadByte),
                    Def::OnOffConfig => (Operation::WriteByte, Operation::ReadByte),
                    Def::Capability => (Operation::Illegal, Operation::ReadByte),
                    Def::VoutMode => (Operation::WriteByte, Operation::ReadByte),
                    Def::VoutCommand => (Operation::WriteWord, Operation::ReadWord),
                    Def::StatusWord => (Operation::WriteWord, Operation::ReadWord),
                    Def::StatusVout => (Operation::WriteByte, Operation::ReadByte),
                    Def::StatusIout => (Operation::WriteByte, Operation::ReadByte),
                    Def::StatusCml => (Operation::WriteByte, Operation::ReadByte),
                    Def::StatusOther => (Operation::WriteByte, Operation::ReadByte),
                    Def::ReadVin => (Operation::Illegal, Operation::ReadWord),
                    Def::ReadIin => (Operation::Illegal, Operation::ReadWord),
                    Def::ReadVout => (Operation::Illegal, Operation::ReadWord),
                    Def::ReadIout => (Operation::Illegal, Operation::ReadWord),
                    Def::ReadTemperature1 => (Operation::Illegal, Operation::ReadWord),
                    Def::ReadPout => (Operation::Illegal, Operation::ReadWord),
                    Def::ReadPin => (Operation::Illegal, Operation::ReadWord),
                    Def::Adm1272StatusMfrSpecific => (Operation::WriteByte, Operation::ReadByte),
                    Def::Adm1272ReadVin => (Operation::Illegal, Operation::ReadWord),
                    Def::Adm1272ReadVout => (Operation::Illegal, Operation::ReadWord),
                    Def::Adm1272ReadIout => (Operation::Illegal, Operation::ReadWord),
                    Def::Adm1272ReadPin => (Operation::Illegal, Operation::ReadWord),
                    Def::Adm1272PeakIout => (Operation::WriteWord, Operation::ReadWord),
                    Def::Adm1272PeakVin => (Operation::WriteWord, Operation::ReadWord),
                    Def::Adm1272PeakVout => (Operation::WriteWord, Operation::ReadWord),
                    Def::Adm1272PeakPin => (Operation::WriteWord, Operation::ReadWord),
                    Def::Adm1272PmonConfig => (Operation::WriteWord, Operation::ReadWord),
                    Def::TpsReadAll => (Operation::Illegal, Operation::ReadBlock),
                    Def::BmrFastOcpCfg => (Operation::WriteWord, Operation::ReadWord),
                    Def::BmrResponseUnitCfg => (Operation::WriteByte, Operation::ReadByte),
                    Def::BmrIshareThreshold => (Operation::WriteBlock, Operation::ReadBlock),
                    Def::Bmr491RcLevel => (Operation::WriteByte, Operation::ReadByte),
                    Def::Bmr491KsPretrig => (Operation::WriteByte, Operation::ReadByte),
                    Def::IslReadVin => (Operation::Illegal, Operation::ReadWord),
                    Def::IslTonRise => (Operation::WriteWord, Operation::ReadWord),
                    Def::IslDmafix => (Operation::WriteBlock, Operation::ReadBlock),
                };
                Command { name: def_name(d), read: rd, write: w }
            },
            None => {
                match CommandCode::from_u8(code) {
                    Some(c) => Command { name: c.name(), read: c.read_op(), write: c.write_op() },
                    None => Command {
                        name: "",
                        read: Operation::Unknown,
                        write: Operation::Unknown,
                    },
                }
            },
        }
    }

    /// Decode a payload for a code under this device, returning the
    /// `(field, value)` pairs of the resolved definition, most
    /// significant field first.  A code with no data definition fails
    /// with `InvalidField`; a payload whose length differs from the
    /// resolved width fails with `InvalidLength`.
    #[verifier::rlimit(50)]
    pub fn values<P: VOutModeSource>(
        &self,
        code: u8,
        payload: &[u8],
        provider: &mut P,
    ) -> (r: Result<Vec<(Field, Value)>, Error>)
        ensures
            resolve_def_spec(*self, code) is None ==> r == Err::<Vec<(Field, Value)>, Error>(
                Error::InvalidField,
            ),
            resolve_def_spec(*self, code) matches Some(d) ==> (payload@.len() != def_width_spec(
                d,
            ) ==> r == Err::<Vec<(Field, Value)>, Error>(Error::InvalidLength)),
            resolve_def_spec(*self, code) matches Some(d) ==> (payload@.len() == def_width_spec(
                d,
            ) ==> (r matches Ok(v) && v@.len() == def_fields_spec(d).len() && (forall|i: int|
                0 <= i < v@.len() ==> (#[trigger] v@[i]).0 == def_fields_spec(d)[i]) && (
            forall|i: int|
                0 <= i < v@.len() && def_fields_spec(d)[i].kind != Kind::ULinear16
                    ==> (#[trigger] v@[i]).1 == crate::engine::decode_field_spec(
                    def_fields_spec(d)[i],
                    crate::engine::vals_from_groups(
                        def_groups_spec(d),
                        def_fields_spec(d)[i].pos as int,
                    ),
                    le_value(payload@),
                    0,
                )) && (forall|i: int|
                0 <= i < v@.len() && def_fields_spec(d)[i].kind == Kind::ULinear16 ==> ((
                #[trigger] v@[i]).1 matches Value::ULinear16(u) && u.0 as int == extract_bits(
                    le_value(payload@),
                    def_fields_spec(d)[i].pos as nat,
                    16,
                ))))),
    {
        let resolved = self.data(code);
        if resolved.is_none() {
            return Err(Error::InvalidField);
        }
        let l = resolved.unwrap();
        let raw = match crate::engine::parse_bytes(payload, l.width_bytes()) {
            Ok(raw) => raw,
            Err(e) => {
                return Err(e);
            },
        };
        let values = interpret_values(&l, raw, provider);
        proof {
            let d = resolve_def_spec(*self, code)->Some_0;
            assert forall|i: int|
                0 <= i < values@.len() && def_fields_spec(d)[i].kind
                    != Kind::ULinear16 implies (#[trigger] values@[i]).1
                == crate::engine::decode_field_spec(
                def_fields_spec(d)[i],
                crate::engine::vals_from_groups(
                    def_groups_spec(d),
                    def_fields_spec(d)[i].pos as int,
                ),
                le_value(payload@),
                0,
            ) by {
                let e = choose|e: int|
                    values@[i].1 == crate::engine::decode_field_spec(
                        l.fields@[i],
                        l.vals_for(l.fields@[i].pos as int),
                        raw as int,
                        e,
                    );
                crate::engine::lemma_vals_from_groups(
                    l,
                    def_groups_spec(d),
                    l.fields@[i].pos as int,
                );
                // every kind but ULINEAR16 ignores the exponent
                assert(crate::engine::decode_field_spec(
                    l.fields@[i],
                    l.vals_for(l.fields@[i].pos as int),
                    raw as int,
                    e,
                ) == crate::engine::decode_field_spec(
                    l.fields@[i],
                    l.vals_for(l.fields@[i].pos as int),
                    raw as int,
                    0,
                ));
            }
            assert forall|i: int|
                0 <= i < values@.len() && def_fields_spec(d)[i].kind
                    == Kind::ULinear16 implies ((#[trigger] values@[i]).1 matches
            Value::ULinear16(u) && u.0 as int == extract_bits(
                le_value(payload@),
                def_fields_spec(d)[i].pos as nat,
                16,
            )) by {
                let e = choose|e: int|
                    values@[i].1 == crate::engine::decode_field_spec(
                        l.fields@[i],
                        l.vals_for(l.fields@[i].pos as int),
                        raw as int,
                        e,
                    );
                assert(l.fields@[i].width == 16);
                assert(0 <= extract_bits(raw as int, l.fields@[i].pos as nat, 16) < 65536) by {
                    vstd::arithmetic::power2::lemma2_to64();
                    vstd::arithmetic::power2::lemma_pow2_pos(l.fields@[i].pos as nat);
                    vstd::arithmetic::div_mod::lemma_div_pos_is_pos(
                        raw as int,
                        vstd::arithmetic::power2::pow2(l.fields@[i].pos as nat) as int,
                    );
                    vstd::arithmetic::div_mod::lemma_mod_bound(
                        (raw as int) / (vstd::arithmetic::power2::pow2(
                            l.fields@[i].pos as nat,
                        ) as int),
                        vstd::arithmetic::power2::pow2(16) as int,
                    );
                }
            }
        }
        Ok(values)
    }

    /// Interpret a payload for a code under this device, handing each
    /// decoded field to the visitor.  Resolution follows the override
    /// rule; the payload length must match the resolved width.
    pub fn interpret<P: VOutModeSource, V: FieldVisitor>(
        &self,
        code: u8,
        payload: &[u8],
        provider: &mut P,
        visitor: &mut V,
    ) -> (r: Result<(), Error>)
        ensures
            resolve_def_spec(*self, code) is None ==> r == Err::<(), Error>(Error::InvalidField),
            resolve_def_spec(*self, code) matches Some(d) ==> (payload@.len() != def_width_spec(
                d,
            ) ==> r == Err::<(), Error>(Error::InvalidLength)),
            resolve_def_spec(*self, code) matches Some(d) ==> (payload@.len() == def_width_spec(
                d,
            ) ==> r is Ok),
    {
        match self.values(code, payload, provider) {
            Err(e) => Err(e),
            Ok(values) => {
                let n = values.len();
                let mut i: usize = 0;
                while i < n
                    invariant
                        i <= n,
                        n == values@.len(),
                    decreases n - i,
                {
                    let (f, v) = values[i];
                    visitor.visit(&f, &v);
                    i = i + 1;
                }
                Ok(())
            },
        }
    }

    /// Mutate a payload for a code under this device, under the
    /// visitor's direction, writing the storage back into the slice.
    /// Replacements applied before a failing field remain applied.
    pub fn mutate<P: VOutModeSource, V: MutateVisitor>(
        &self,
        code: u8,
        payload: &mut Vec<u8>,
        provider: &mut P,
        visitor: &mut V,
    ) -> (r: Result<(), Error>)
        ensures
            resolve_def_spec(*self, code) is None ==> r == Err::<(), Error>(Error::InvalidField)
                && final(payload)@ == old(payload)@,
            resolve_def_spec(*self, code) matches Some(d) ==> (old(payload)@.len()
                != def_width_spec(d) ==> r == Err::<(), Error>(Error::InvalidLength)
                && final(payload)@ == old(payload)@),
            resolve_def_spec(*self, code) matches Some(d) ==> (old(payload)@.len()
                == def_width_spec(d) ==> {
                &&& final(payload)@.len() == old(payload)@.len()
                &&& (r matches Err(e) ==> (e == Error::InvalidReplacement
                    || e == Error::OverflowReplacement || e == Error::ValueOutOfRange))
                &&& forall|p: nat|
                    p < 8 * def_width_spec(d) && !fields_claim_bit(
                        def_fields_spec(d),
                        p as int,
                    ) ==> #[trigger] extract_bits(le_value(final(payload)@), p, 1)
                        == extract_bits(le_value(old(payload)@), p, 1)
            }),
    {
        match self.data(code) {
            None => Err(Error::InvalidField),
            Some(l) => {
                match crate::engine::parse_bytes(payload.as_slice(), l.width_bytes()) {
                    Err(e) => Err(e),
                    Ok(raw) => {
                        let (nv, err) = crate::engine::mutate_fields(&l, raw, provider, visitor);
                        let out = crate::raw::le_to_bytes(nv, l.width_bytes() as usize);
                        *payload = out;
                        proof {
                            assert forall|p: nat|
                                p < 8 * l.width && !fields_claim_bit(l.fields@, p as int)
                                    implies #[trigger] extract_bits(
                                le_value(payload@),
                                p,
                                1,
                            ) == extract_bits(le_value(old(payload)@), p, 1) by {
                                assert(extract_bits(nv as int, p, 1) == extract_bits(
                                    raw as int,
                                    p,
                                    1,
                                ));
                            }
                        }
                        match err {
                            None => Ok(()),
                            Some(e) => Err(e),
                        }
                    },
                }
            },
        }
    }

    /// The declared fields of a code under this device, in decoding
    /// order; `InvalidField` when the code has no data definition.
    pub fn fields(&self, code: u8) -> (r: Result<Vec<Field>, Error>)
        ensures
            r is Ok <==> resolve_def_spec(*self, code) is Some,
            r matches Err(e) ==> e == Error::InvalidField,
            r matches Ok(v) ==> resolve_def_spec(*self, code) matches Some(d) && v@
                == def_fields_spec(d),
    {
        match self.data(code) {
            None => Err(Error::InvalidField),
            Some(l) => Ok(l.fields_list()),
        }
    }

    /// The named values of the enumeration field at `pos` of a code
    /// under this device; the raw codes never repeat.  `InvalidField`
    /// when the code has no data definition or no enumeration field
    /// sits at that position.
    pub fn sentinels(&self, code: u8, pos: crate::field::Bitpos) -> (r: Result<
        Vec<Sentinel>,
        Error,
    >)
        ensures
            r matches Err(e) ==> e == Error::InvalidField,
            r matches Ok(v) ==> forall|i: int, j: int|
                0 <= i < j < v@.len() ==> v@[i].raw != v@[j].raw,
    {
        match self.data(code) {
            None => Err(Error::InvalidField),
            Some(l) => crate::engine::sentinels_at(&l, pos.0),
        }
    }
}

/// Every supported device, for tooling that must enumerate parts
/// without hard-coding the list.
pub fn devices() -> (r: Vec<Device>)
    ensures
        r@ == seq![
            Device::Common,
            Device::Adm1272,
            Device::Bmr480,
            Device::Bmr491,
            Device::Isl68224,
            Device::Tps546B24A,
        ],
{
    let mut v: Vec<Device> = Vec::new();
    v.push(Device::Common);
    v.push(Device::Adm1272);
    v.push(Device::Bmr480);
    v.push(Device::Bmr491);
    v.push(Device::Isl68224);
    v.push(Device::Tps546B24A);
    proof {
        assert(v@ =~= seq![
            Device::Common,
            Device::Adm1272,
            Device::Bmr480,
            Device::Bmr491,
            Device::Isl68224,
            Device::Tps546B24A,
        ]);
    }
    v
}

/// Override resolution puts the device first: a code the device
/// redefines resolves to the device's own definition, never to the
/// Common one, even when a Common definition exists for the same code.
pub proof fn lemma_override_resolution(d: Device, code: u8)
    requires
        device_def_spec(d, code) is Some,
    ensures
        resolve_def_spec(d, code) == device_def_spec(d, code),
{
}

/// Fallback resolution: a code the device does not redefine resolves to
/// the Common definition, unchanged.
pub proof fn lemma_fallback_resolution(d: Device, code: u8)
    requires
        device_def_spec(d, code) is None,
    ensures
        resolve_def_spec(d, code) == common_def_spec(code),
{
}

impl CommandCode {
    /// Interpret a payload for this command under the Common catalog.
    pub fn interpret<P: VOutModeSource, V: FieldVisitor>(
        &self,
        payload: &[u8],
        provider: &mut P,
        visitor: &mut V,
    ) -> (r: Result<(), Error>)
        ensures
            resolve_def_spec(Device::Common, crate::commands::code::code_spec(*self)) is None
                ==> r == Err::<(), Error>(Error::InvalidField),
            resolve_def_spec(Device::Common, crate::commands::code::code_spec(*self)) matches Some(
                d,
            ) ==> (payload@.len() != def_width_spec(d) ==> r == Err::<(), Error>(
                Error::InvalidLength,
            )),
            resolve_def_spec(Device::Common, crate::commands::code::code_spec(*self)) matches Some(
                d,
            ) ==> (payload@.len() == def_width_spec(d) ==> r is Ok),
    {
        let code = self.code();
        Device::Common.interpret(code, payload, provider, visitor)
    }
}

} // verus!

use pmbus::adm1272;
use pmbus::commands::{operation, vout_command, VOutMode};
use pmbus::engine::{FieldVisitor, MutateVisitor, VOutModeSource};
use pmbus::{
    Coefficients, Device, Direct, Error, Field, Fixed, Linear11, Replacement, ULinear16,
    ULinear16Exponent, Value,
};

fn fx(x: f32) -> Fixed {
    Fixed(((x as f64) * 4294967296.0).round() as i64)
}

struct PanicMode;

impl VOutModeSource for PanicMode {
    fn vout_mode(&mut self) -> VOutMode {
        panic!("unexpected call to get VOutMode");
    }
}

struct Collect(Vec<(Field, Value)>);

impl FieldVisitor for Collect {
    fn visit(&mut self, field: &Field, value: &Value) {
        self.0.push((*field, *value));
    }
}

struct ReplaceByName {
    name: &'static str,
    rep: Replacement,
}

impl MutateVisitor for ReplaceByName {
    fn propose(&mut self, field: &Field, _current: &Value) -> Option<Replacement> {
        if field.name() == self.name {
            Some(self.rep)
        } else {
            None
        }
    }
}

#[test]
fn length_mismatch() {
    // a two-byte slice for a command declared one byte wide is rejected
    // outright: no truncation, no padding
    assert_eq!(
        operation::CommandData::from_slice(&[0x04, 0x00]),
        Err(Error::InvalidLength)
    );
    assert_eq!(operation::CommandData::from_slice(&[]), Err(Error::InvalidLength));
    assert_eq!(
        vout_command::CommandData::from_slice(&[0x63]),
        Err(Error::InvalidLength)
    );
}

#[test]
fn mutate_changes_only_target_field() {
    // flipping OnOffState touches bit 7 and nothing else
    let mut data = operation::CommandData(0x04);
    data.mutate(
        &mut PanicMode,
        &mut ReplaceByName { name: "OnOffState", rep: Replacement::Boolean(true) },
    )
    .unwrap();
    assert_eq!(data.0, 0x84);
}

#[test]
fn mutate_partial_application() {
    // replacements applied before a failing field remain applied: the
    // walk runs most significant field first, so OnOffState (bit 7) is
    // already rewritten when the bad TransitionControl value is refused
    let mut data = operation::CommandData(0x04);
    let mut visitor = TwoReplacements;
    let rval = data.mutate(&mut PanicMode, &mut visitor);
    assert_eq!(rval, Err(Error::OverflowReplacement));
    assert_eq!(data.0, 0x84);

    struct TwoReplacements;

    impl MutateVisitor for TwoReplacements {
        fn propose(&mut self, field: &Field, _current: &Value) -> Option<Replacement> {
            match field.name() {
                "OnOffState" => Some(Replacement::Boolean(true)),
                "TransitionControl" => Some(Replacement::Integer(9)),
                _ => None,
            }
        }
    }
}

#[test]
fn mutate_independent_fields() {
    // two non-overlapping replacements each succeed independently, in
    // either order and regardless of the other's presence
    let base = operation::CommandData(0x04);

    let mut lone = base;
    lone.mutate(
        &mut PanicMode,
        &mut ReplaceByName { name: "VoltageCommandSource", rep: Replacement::Integer(2) },
    )
    .unwrap();

    let mut both = base;
    both.mutate(
        &mut PanicMode,
        &mut ReplaceByName { name: "OnOffState", rep: Replacement::Boolean(true) },
    )
    .unwrap();
    both.mutate(
        &mut PanicMode,
        &mut ReplaceByName { name: "VoltageCommandSource", rep: Replacement::Integer(2) },
    )
    .unwrap();

    // the shared field got the same bits either way, and the first
    // replacement survived the second
    assert_eq!(lone.0 & 0x30, both.0 & 0x30);
    assert_eq!(both.0, 0x84 & !0x30 | 0x20);
}

#[test]
fn direct_encode_wraps() {
    // DIRECT encoding performs no range check: a value beyond the
    // 16-bit window wraps around, as the format prescribes
    let c = Coefficients { m: 1, b: 0, R: 1 };
    let d = Direct::from_fixed(fx(40000.0), c);
    assert_eq!(d.0, (400000 % 65536) as u16);

    // and a value in range encodes by rounding to the nearest code
    let d = Direct::from_fixed(fx(123.46), c);
    assert_eq!(d.0, 1235);
    let d = Direct::from_fixed(fx(-123.46), c);
    assert_eq!(d.0 as i16, -1235);
}

#[test]
fn linear11_encode_decode() {
    // round trip within the mantissa step of the chosen exponent
    let l = Linear11::from_fixed(fx(10.0)).unwrap();
    assert_eq!(l.mantissa() as f32 * (2.0f32).powi(l.exponent() as i32), 10.0);

    let l = Linear11::from_fixed(fx(-52.5)).unwrap();
    assert_eq!(l.mantissa() as f32 * (2.0f32).powi(l.exponent() as i32), -52.5);

    // zero and out-of-range magnitudes have no representation
    assert!(Linear11::from_fixed(Fixed(0)).is_none());
    assert!(Linear11::from_fixed(fx(0.001)).is_none());

    // the format's ceiling: 1023 * 2^15
    let l = Linear11::from_fixed(fx(33521664.0)).unwrap();
    assert_eq!(l.mantissa(), 1023);
    assert_eq!(l.exponent(), 15);
}

#[test]
fn ulinear16_encode_bounds() {
    // the rounded mantissa must fit sixteen unsigned bits
    let e = ULinear16Exponent(0);
    assert_eq!(ULinear16::from_fixed(fx(65535.0), e), Some(ULinear16(65535, e)));
    assert_eq!(ULinear16::from_fixed(fx(65536.0), e), None);

    // a negative value clamps to zero rather than failing
    assert_eq!(ULinear16::from_fixed(fx(-1.0), e), Some(ULinear16(0, e)));
}

#[test]
fn adm1272_overrides_mfr_code() {
    // code 0xd4 is manufacturer-defined for Common, but this device
    // redefines it as a named register with an explicit field layout
    let common = Device::Common.command(0xd4);
    assert_eq!(common.name(), "MFR_SPECIFIC_D4");
    assert_eq!(common.read_op(), pmbus::Operation::MfrDefined);

    let own = Device::Adm1272.command(0xd4);
    assert_eq!(own.name(), "PMON_CONFIG");
    assert_eq!(own.read_op(), pmbus::Operation::ReadWord);

    // Common has no data definition there; the device decodes it
    let mut sink = Collect(Vec::new());
    assert_eq!(
        Device::Common.interpret(0xd4, &[0x12, 0x34], &mut PanicMode, &mut sink),
        Err(Error::InvalidField)
    );

    let mut fields = Collect(Vec::new());
    Device::Adm1272
        .interpret(0xd4, &[0x12, 0x34], &mut PanicMode, &mut fields)
        .unwrap();
    assert_eq!(fields.0.len(), 10);
    assert_eq!(fields.0[0].0.name(), "TSFilter");
}

#[test]
fn adm1272_overrides_standard_code() {
    // READ_VIN is LINEAR11 under Common but DIRECT-coded on this part:
    // the device's layout wins even though a Common definition exists
    let mut fields = Collect(Vec::new());
    Device::Adm1272
        .interpret(0x88, &[0x6d, 0x07], &mut PanicMode, &mut fields)
        .unwrap();
    assert_eq!(fields.0.len(), 1);
    assert!(matches!(fields.0[0].1, Value::DirectRaw(0x076d)));

    let mut fields = Collect(Vec::new());
    Device::Common
        .interpret(0x88, &[0x6d, 0x07], &mut PanicMode, &mut fields)
        .unwrap();
    assert!(matches!(fields.0[0].1, Value::Linear11(Linear11(0x076d))));
}

#[test]
fn device_length_check() {
    // device-level interpretation validates the payload length against
    // the resolved command's declared width before decoding
    let mut sink = Collect(Vec::new());
    assert_eq!(
        Device::Common.interpret(0x01, &[0x04, 0x00], &mut PanicMode, &mut sink),
        Err(Error::InvalidLength)
    );
    assert_eq!(
        Device::Adm1272.interpret(0xd4, &[0x12], &mut PanicMode, &mut sink),
        Err(Error::InvalidLength)
    );
}

#[test]
fn sentinel_codes_unnamed_not_error() {
    // an enumeration code with no name decodes as a plain integer
    let data = operation::CommandData(0x0c);

    let mut fields = Collect(Vec::new());
    data.interpret(&mut PanicMode, &mut fields).unwrap();

    let margin = fields
        .0
        .iter()
        .find(|(f, _)| f.name() == "MarginFaultResponse")
        .unwrap();
    assert!(matches!(margin.1, Value::Unsigned(3)));

    let data = operation::CommandData(0x08);
    let mut fields = Collect(Vec::new());
    data.interpret(&mut PanicMode, &mut fields).unwrap();
    let margin = fields
        .0
        .iter()
        .find(|(f, _)| f.name() == "MarginFaultResponse")
        .unwrap();
    assert!(matches!(margin.1, Value::Sentinel("ActOnFault", 2)));
}

#[test]
fn vout_mode_roundtrip() {
    let mut vout = VOutMode::from_slice(&[0x97]).unwrap();
    assert_eq!(vout.get_parameter(), -9);

    vout.set_parameter(-9).unwrap();
    assert_eq!(vout.0, 0x97);

    vout.set_parameter(15).unwrap();
    assert_eq!(vout.get_parameter(), 15);
    assert_eq!(vout.0 & 0xe0, 0x80);

    assert_eq!(vout.set_parameter(16), Err(Error::ValueOutOfRange));
    assert_eq!(vout.set_parameter(-17), Err(Error::ValueOutOfRange));
}

#[test]
fn pmon_config_fields() {
    let data = adm1272::pmon_config::CommandData::from_slice(&[0x1f, 0x80]).unwrap();

    let mut fields = Collect(Vec::new());
    data.interpret(&mut PanicMode, &mut fields).unwrap();

    assert_eq!(fields.0.len(), 10);
    assert!(matches!(fields.0[0].1, Value::Boolean(true)));
    assert!(matches!(fields.0[9].1, Value::Sentinel("Range30mV", 1)));
}

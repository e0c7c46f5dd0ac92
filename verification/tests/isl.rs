use pmbus::adm1272;
use pmbus::commands::VOutMode;
use pmbus::engine::{FieldVisitor, MutateVisitor, VOutModeSource};
use pmbus::isl68224;
use pmbus::{
    Bitpos, Bitwidth, Coefficients, Direct, Error, Field, Fixed, Replacement, Value,
};

fn powi(base: f32, e: i32) -> f32 {
    // integer powering by repeated multiplication, the reciprocal taken
    // last for negative exponents
    if e < 0 {
        1.0 / num_traits::pow(base, e.wrapping_neg() as usize)
    } else {
        num_traits::pow(base, e as usize)
    }
}

fn direct_to_real(d: Direct) -> f32 {
    let coefficients = d.1;
    let m: f32 = coefficients.m as f32;
    let b: f32 = coefficients.b.into();
    let exp: i32 = coefficients.R.into();
    let y: f32 = (d.0 as i16).into();

    (y * powi(10.0, -exp) - b) / m
}

fn fx(x: f32) -> Fixed {
    Fixed(((x as f64) * 4294967296.0).round() as i64)
}

struct PanicMode;

impl VOutModeSource for PanicMode {
    fn vout_mode(&mut self) -> VOutMode {
        panic!("unexpected call to get VOutMode");
    }
}

struct FixedMode(VOutMode);

impl VOutModeSource for FixedMode {
    fn vout_mode(&mut self) -> VOutMode {
        self.0
    }
}

struct AssertScalarVisit;

impl FieldVisitor for AssertScalarVisit {
    fn visit(&mut self, field: &Field, _value: &Value) {
        assert_eq!(field.bitfield(), false);
        println!("{}", field.name());
    }
}

struct AssertingScalarReplace(Replacement);

impl MutateVisitor for AssertingScalarReplace {
    fn propose(&mut self, field: &Field, _current: &Value) -> Option<Replacement> {
        assert_eq!(field.bitfield(), false);
        assert_eq!(field.bits(), (Bitpos(0), Bitwidth(16)));
        Some(self.0)
    }
}

struct ReplaceAll(Replacement);

impl MutateVisitor for ReplaceAll {
    fn propose(&mut self, field: &Field, _current: &Value) -> Option<Replacement> {
        assert_eq!(field.bitfield(), false);
        Some(self.0)
    }
}

#[test]
fn isl68224_vin() {
    let mode = VOutMode::from_slice(&[0x40]).unwrap();

    let data = [(0x04a9u16, 11.929999), (0xffff, -0.01)];

    for d in data {
        let raw = d.0.to_le_bytes();
        let vin = isl68224::read_vin::CommandData::from_slice(&raw).unwrap();
        assert_eq!(direct_to_real(vin.get().unwrap()), d.1);

        vin.interpret(&mut FixedMode(mode), &mut AssertScalarVisit).unwrap();
    }
}

#[test]
fn isl68224_ton_rise() {
    let mut data = isl68224::ton_rise::CommandData::from_slice(&[0xf4, 0x01]).unwrap();
    assert_eq!(direct_to_real(data.get().unwrap()), 0.5);

    data.set(fx(0.75)).unwrap();
    assert_eq!(direct_to_real(data.get().unwrap()), 0.75000006);

    data.mutate(
        &mut PanicMode,
        &mut AssertingScalarReplace(Replacement::Float(fx(0.25))),
    )
    .unwrap();

    assert_eq!(direct_to_real(data.get().unwrap()), 0.25);
}

#[test]
fn raw() {
    let input = [0xef, 0xbe, 0xad, 0xde];

    let mut data = isl68224::dmafix::CommandData::from_slice(&input).unwrap();
    assert_eq!(data.get(), Ok(0xdeadbeef));

    let rval = data.mutate(&mut PanicMode, &mut ReplaceAll(Replacement::Integer(0xbaddcafe)));

    assert_eq!(rval, Ok(()));
    assert_eq!(data.0, 0xbaddcafe);

    let rval = data.mutate(&mut PanicMode, &mut ReplaceAll(Replacement::Boolean(true)));

    assert_eq!(rval, Err(Error::InvalidReplacement));

    let rval = data.mutate(&mut PanicMode, &mut ReplaceAll(Replacement::Float(fx(1.2))));

    assert_eq!(rval, Err(Error::InvalidReplacement));
}

#[test]
fn adm1272_direct() {
    let voltage = Coefficients { m: 4062, b: 0, R: -2 };
    let current = Coefficients { m: 663, b: 20480, R: -1 };
    let power = Coefficients { m: 10535, b: 0, R: -3 };

    let vin = adm1272::read_vin::CommandData::from_slice(&[0x6d, 0x07]).unwrap();
    assert_eq!(direct_to_real(vin.get(&voltage).unwrap()), 46.799606);

    let vin = adm1272::peak_vin::CommandData::from_slice(&[0x04, 0x09]).unwrap();
    assert_eq!(direct_to_real(vin.get(&voltage).unwrap()), 56.8193);

    let vout = adm1272::read_vout::CommandData::from_slice(&[0x51, 0x08]).unwrap();
    assert_eq!(direct_to_real(vout.get(&voltage).unwrap()), 52.412605);

    let vout = adm1272::peak_vout::CommandData::from_slice(&[0x03, 0x09]).unwrap();
    assert_eq!(direct_to_real(vout.get(&voltage).unwrap()), 56.79468);

    let pin = adm1272::read_pin::CommandData::from_slice(&[0x10, 0x01]).unwrap();
    assert_eq!(direct_to_real(pin.get(&power).unwrap()), 25.818699);

    let pin = adm1272::peak_pin::CommandData::from_slice(&[0x3d, 0x01]).unwrap();
    assert_eq!(direct_to_real(pin.get(&power).unwrap()), 30.090176);

    let iout = adm1272::read_iout::CommandData::from_slice(&[0x24, 0x08]).unwrap();
    assert_eq!(direct_to_real(iout.get(&current).unwrap()), 0.54298645);

    let iout = adm1272::peak_iout::CommandData::from_slice(&[0x2b, 0x08]).unwrap();
    assert_eq!(direct_to_real(iout.get(&current).unwrap()), 0.64856714);
}

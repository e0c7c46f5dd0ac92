use pmbus::commands::{vout_command, VOutMode};
use pmbus::engine::{MutateVisitor, VOutModeSource};
use pmbus::{
    Bitpos, Bitwidth, Device, Error, Field, Fixed, Replacement, ULinear16, Value,
};

fn powi(base: f32, e: i32) -> f32 {
    // integer powering by repeated multiplication, the reciprocal taken
    // last for negative exponents
    if e < 0 {
        1.0 / num_traits::pow(base, e.wrapping_neg() as usize)
    } else {
        num_traits::pow(base, e as usize)
    }
}

fn ulinear16_to_real(u: ULinear16) -> f32 {
    u.0 as f32 * powi(2.0, (u.1).0 as i32)
}

fn fx(x: f32) -> Fixed {
    Fixed(((x as f64) * 4294967296.0).round() as i64)
}

struct FixedMode(VOutMode);

impl VOutModeSource for FixedMode {
    fn vout_mode(&mut self) -> VOutMode {
        self.0
    }
}

struct AssertingScalarReplace(Replacement);

impl MutateVisitor for AssertingScalarReplace {
    fn propose(&mut self, field: &Field, _current: &Value) -> Option<Replacement> {
        assert_eq!(field.bitfield(), false);
        assert_eq!(field.bits(), (Bitpos(0), Bitwidth(16)));
        Some(self.0)
    }
}

struct ReplaceAll(Replacement);

impl MutateVisitor for ReplaceAll {
    fn propose(&mut self, _field: &Field, _current: &Value) -> Option<Replacement> {
        Some(self.0)
    }
}

#[test]
fn vout_command_set() {
    let mut vout = VOutMode::from_slice(&[0x97]).unwrap();

    println!("param is {}", vout.get_parameter());
    let mut data = vout_command::CommandData::from_slice(&[0x63, 0x02]).unwrap();
    assert_eq!(ulinear16_to_real(data.get(vout).unwrap()), 1.1933594);

    data.set(vout, fx(1.20)).unwrap();
    assert_eq!(data.0, 0x0266);
    assert_eq!(ulinear16_to_real(data.get(vout).unwrap()), 1.1992188);

    //
    // Now crank our resolution up
    //
    vout.set_parameter(-12).unwrap();
    assert_eq!(vout.get_parameter(), -12);
    data.set(vout, fx(1.20)).unwrap();
    println!("{:?}", data.get(vout).unwrap());

    vout.set_parameter(-15).unwrap();
    assert_eq!(vout.get_parameter(), -15);
    data.set(vout, fx(1.20)).unwrap();
    assert_eq!(ulinear16_to_real(data.get(vout).unwrap()), 1.2000122);

    //
    // With our exponent cranked to its maximum, there is no room
    // left for anything greater than 1.
    //
    vout.set_parameter(-16).unwrap();
    assert_eq!(vout.get_parameter(), -16);

    assert_eq!(vout.set_parameter(-101), Err(Error::ValueOutOfRange));
    println!("{:?}", vout.get_parameter());

    data.set(vout, fx(0.20)).unwrap();
    assert_eq!(ulinear16_to_real(data.get(vout).unwrap()), 0.19999695);

    assert_eq!(data.set(vout, fx(1.20)), Err(Error::ValueOutOfRange));

    println!("{:?}", data.get(vout).unwrap());
}

#[test]
fn vout_command_mutate() {
    let vout = VOutMode::from_slice(&[0x97]).unwrap();

    let mut data = vout_command::CommandData::from_slice(&[0x63, 0x02]).unwrap();
    assert_eq!(ulinear16_to_real(data.get(vout).unwrap()), 1.1933594);

    let rval = data.mutate(
        &mut FixedMode(vout),
        &mut AssertingScalarReplace(Replacement::Float(fx(1.20))),
    );

    assert_eq!(rval, Ok(()));
    assert_eq!(data.0, 0x0266);
    assert_eq!(ulinear16_to_real(data.get(vout).unwrap()), 1.1992188);

    let rval = data.mutate(&mut FixedMode(vout), &mut ReplaceAll(Replacement::Integer(3)));

    assert_eq!(rval, Ok(()));
    assert_eq!(ulinear16_to_real(data.get(vout).unwrap()), 3.0);

    let rval = data.mutate(&mut FixedMode(vout), &mut ReplaceAll(Replacement::Boolean(true)));

    assert_eq!(rval, Err(Error::InvalidReplacement));

    let rval = data.mutate(
        &mut FixedMode(vout),
        &mut ReplaceAll(Replacement::Float(fx(150.0))),
    );

    assert_eq!(rval, Err(Error::ValueOutOfRange));
}

#[test]
fn device_vout_command_mutate() {
    let vout = VOutMode::from_slice(&[0x97]).unwrap();

    let mut payload = vec![0x63u8, 0x02];

    let data = vout_command::CommandData::from_slice(&payload).unwrap();
    assert_eq!(ulinear16_to_real(data.get(vout).unwrap()), 1.1933594);

    let rval = Device::Common.mutate(
        pmbus::CommandCode::VOUT_COMMAND as u8,
        &mut payload,
        &mut FixedMode(vout),
        &mut AssertingScalarReplace(Replacement::Float(fx(1.20))),
    );

    assert_eq!(rval, Ok(()));
    assert_eq!(payload[0], 0x66);
    assert_eq!(payload[1], 0x02);

    let data = vout_command::CommandData::from_slice(&payload).unwrap();
    assert_eq!(data.0, 0x0266);
    assert_eq!(ulinear16_to_real(data.get(vout).unwrap()), 1.1992188);
}

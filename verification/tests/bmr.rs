use pmbus::bmr480;
use pmbus::bmr491;
use pmbus::commands::VOutMode;
use pmbus::engine::{FieldVisitor, VOutModeSource};
use pmbus::{Direct, Field, Fixed, Linear11, ULinear16, Value};

fn powi(base: f32, e: i32) -> f32 {
    // integer powering by repeated multiplication, the reciprocal taken
    // last for negative exponents
    if e < 0 {
        1.0 / num_traits::pow(base, e.wrapping_neg() as usize)
    } else {
        num_traits::pow(base, e as usize)
    }
}

fn direct_to_real(d: Direct) -> f32 {
    let coefficients = d.1;
    let m: f32 = coefficients.m as f32;
    let b: f32 = coefficients.b.into();
    let exp: i32 = coefficients.R.into();
    let y: f32 = (d.0 as i16).into();

    (y * powi(10.0, -exp) - b) / m
}

fn linear11_to_real(l: Linear11) -> f32 {
    l.mantissa() as f32 * powi(2.0, l.exponent() as i32)
}

fn ulinear16_to_real(u: ULinear16) -> f32 {
    u.0 as f32 * powi(2.0, (u.1).0 as i32)
}

fn fx(x: f32) -> Fixed {
    Fixed(((x as f64) * 4294967296.0).round() as i64)
}

struct PanicMode;

impl VOutModeSource for PanicMode {
    fn vout_mode(&mut self) -> VOutMode {
        panic!("unexpected call to get VOutMode");
    }
}

fn value_str(v: &Value) -> String {
    match v {
        Value::Boolean(b) => format!("{}", b),
        Value::Unsigned(u) => format!("0x{:x}", u),
        Value::Sentinel(name, raw) => format!("{} (0x{:x})", name, raw),
        Value::Direct(d) => format!("direct 0x{:04x}", d.0),
        Value::DirectRaw(w) => format!("direct 0x{:04x}", w),
        Value::Linear11(l) => format!("linear11 0x{:04x}", l.0),
        Value::ULinear16(u) => format!("ulinear16 0x{:04x}", u.0),
    }
}

struct PrintFields;

impl FieldVisitor for PrintFields {
    fn visit(&mut self, field: &Field, value: &Value) {
        println!("{} = {}", field.desc(), value_str(value));
    }
}

struct AssertScalar;

impl FieldVisitor for AssertScalar {
    fn visit(&mut self, field: &Field, value: &Value) {
        assert_eq!(field.bitfield(), false);
        println!("{} = {}", field.name(), value_str(value));
    }
}

#[test]
fn bmr480_default() {
    let data = bmr480::mfr_fast_ocp_cfg::CommandData::from_slice(&[0xe9, 0x02]).unwrap();
    data.interpret(&mut PanicMode, &mut PrintFields).unwrap();

    let data = bmr480::mfr_response_unit_cfg::CommandData::from_slice(&[0x51]).unwrap();
    data.interpret(&mut PanicMode, &mut PrintFields).unwrap();

    let data = bmr480::mfr_ishare_threshold::CommandData::from_slice(&[
        0x10, 0x10, 0x00, 0x64, 0x00, 0x00, 0x00, 0x01,
    ])
    .unwrap();

    assert_eq!(direct_to_real(data.get_trim_limit()), 0.170);

    data.interpret(&mut PanicMode, &mut PrintFields).unwrap();
}

#[test]
fn bmr491_default() {
    let data = bmr491::mfr_fast_ocp_cfg::CommandData::from_slice(&[0xe9, 0x02]).unwrap();
    data.interpret(&mut PanicMode, &mut PrintFields).unwrap();

    let data = bmr491::mfr_response_unit_cfg::CommandData::from_slice(&[0x51]).unwrap();
    data.interpret(&mut PanicMode, &mut PrintFields).unwrap();

    let mut data = bmr491::mfr_ishare_threshold::CommandData::from_slice(&[
        0x10, 0x10, 0x00, 0x64, 0x00, 0x00, 0x00, 0x01,
    ])
    .unwrap();

    assert_eq!(direct_to_real(data.get_trim_limit()), 0.170);

    assert_eq!(data.set_trim_limit(fx(0.136)), Ok(()));
    assert_eq!(direct_to_real(data.get_trim_limit()), 0.136);

    data.interpret(&mut PanicMode, &mut PrintFields).unwrap();
}

#[test]
fn bmr480_iout() {
    let data = [
        (0xf028u16, 10.0),
        (0xf133, 76.75),
        (0xf040, 16.0),
        (0xf004, 1.0),
        (0xf051, 20.25),
        (0xf079, 30.25),
        (0xf00a, 2.5),
        (0xf0c9, 50.25),
        (0xf07d, 31.25),
        (0xf00b, 2.75),
        (0xf009, 2.25),
    ];

    for d in data {
        let raw = d.0.to_le_bytes();
        let iout = bmr480::read_iout::CommandData::from_slice(&raw).unwrap();
        assert_eq!(linear11_to_real(iout.get().unwrap()), d.1);

        iout.interpret(&mut PanicMode, &mut AssertScalar).unwrap();
    }
}

#[test]
fn bmr480_vout() {
    let mode = VOutMode::from_slice(&[0x15]).unwrap();

    let data = [
        (0x0071u16, 0.05517578f32),
        (0x0754, 0.9160156),
        (0x5f72, 11.930664),
        (0x5f80, 11.9375),
        (0x5fd3, 11.978027),
        (0x5fdb, 11.981934),
        (0x5fe4, 11.986328),
        (0x5fe6, 11.987305),
        (0x5fec, 11.990234),
        (0x5fee, 11.991211),
        (0x5ff7, 11.995605),
        (0x6007, 12.003418),
        (0x6039, 12.027832),
        (0x603f, 12.030762),
        (0x6091, 12.070801),
        (0x65b7, 12.714355),
        (0x65d8, 12.730469),
        (0x670a, 12.879883),
        (0x68b0, 13.0859375),
        (0x69c1, 13.219238),
        (0x69e2, 13.235352),
    ];

    struct FixedMode(VOutMode);

    impl VOutModeSource for FixedMode {
        fn vout_mode(&mut self) -> VOutMode {
            self.0
        }
    }

    for d in data {
        let raw = d.0.to_le_bytes();
        let vout = bmr480::read_vout::CommandData::from_slice(&raw).unwrap();
        assert_eq!(ulinear16_to_real(vout.get(mode).unwrap()), d.1);

        vout.interpret(&mut FixedMode(mode), &mut AssertScalar).unwrap();
    }
}

#[test]
fn bmr480_vin() {
    let data = [
        (0x0a5cu16, 1208.0),
        (0x0a8c, 1304.0),
        (0xe9a0, 52.0),
        (0xe9a1, 52.125),
        (0xe9a2, 52.25),
        (0xe9a3, 52.375),
        (0xe9a4, 52.5),
        (0xe9a6, 52.75),
        (0xe9a7, 52.875),
    ];

    for d in data {
        let raw = d.0.to_le_bytes();
        let vin = bmr480::read_vin::CommandData::from_slice(&raw).unwrap();
        assert_eq!(linear11_to_real(vin.get().unwrap()), d.1);

        vin.interpret(&mut PanicMode, &mut AssertScalar).unwrap();
    }
}

#[test]
fn bmr491_rc_level() {
    let rc = bmr491::mfr_rc_level::CommandData::from_slice(&[0xc8]).unwrap();
    assert_eq!(direct_to_real(rc.get().unwrap()), 20.0);
}

#[test]
fn bmr491_ks_pretrig() {
    let ks = bmr491::mfr_ks_pretrig::CommandData::from_slice(&[0x89]).unwrap();
    assert_eq!(direct_to_real(ks.get().unwrap()), 61.649998);
}

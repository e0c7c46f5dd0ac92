use pmbus::commands::{capability, VOutMode};
use pmbus::engine::{FieldVisitor, VOutModeSource};
use pmbus::tps546b24a::read_all;
use pmbus::{Device, Field, Value};

struct PanicMode;

impl VOutModeSource for PanicMode {
    fn vout_mode(&mut self) -> VOutMode {
        panic!("unexpected call to get VOutMode");
    }
}

struct FixedMode(VOutMode);

impl VOutModeSource for FixedMode {
    fn vout_mode(&mut self) -> VOutMode {
        self.0
    }
}

fn value_str(v: &Value) -> String {
    match v {
        Value::Boolean(b) => format!("{}", b),
        Value::Unsigned(u) => format!("0x{:x}", u),
        Value::Sentinel(name, raw) => format!("{} (0x{:x})", name, raw),
        Value::Direct(d) => format!("direct 0x{:04x}", d.0),
        Value::DirectRaw(w) => format!("direct 0x{:04x}", w),
        Value::Linear11(l) => format!("linear11 0x{:04x}", l.0),
        Value::ULinear16(u) => format!("ulinear16 0x{:04x}", u.0),
    }
}

struct PrintNames;

impl FieldVisitor for PrintNames {
    fn visit(&mut self, field: &Field, _value: &Value) {
        println!("f is {}", field.desc());
    }
}

struct MatchByName {
    name: &'static str,
    result: Option<String>,
}

impl FieldVisitor for MatchByName {
    fn visit(&mut self, field: &Field, value: &Value) {
        if field.name() == self.name {
            self.result = Some(value_str(value));
        }
    }
}

#[test]
fn tps_read_all() {
    let data = read_all::CommandData::from_slice(&[
        0x02, 0x00, 0x63, 0x02, 0xee, 0xad, 0xd8, 0xdb, 0xfe, 0xd2, 0x00, 0x00, 0x00, 0x00,
    ])
    .unwrap();

    assert_eq!(data.get_read_vin(), 0xd2fe);
    assert_eq!(data.get_read_vout(), 0x0263);
    assert_eq!(data.get_status_word(), 0x0002);
    assert_eq!(data.get_read_temperature_1(), 0xdbd8);
}

#[test]
fn tps_read_all_data() {
    let _code = pmbus::tps546b24a::CommandCode::READ_ALL.code();
    let mode = VOutMode::from_slice(&[0x97]).unwrap();

    let data = [
        0x02, 0x00, 0x63, 0x02, 0xee, 0xad, 0xd8, 0xdb, 0xfe, 0xd2, 0x00, 0x00, 0x00, 0x00,
    ];

    for code in 0..=0xffu8 {
        let _ = Device::Tps546B24A.interpret(
            code,
            &data[0..],
            &mut FixedMode(mode),
            &mut PrintNames,
        );
    }
}

#[test]
fn tps_passthrough() {
    //
    // This is a bit of a mouthful of a test to assure that common registers
    // are correctly passed through into device-specific modules.
    //
    let code = pmbus::CommandCode::CAPABILITY as u8;
    let payload = &[0xd0];

    let name = capability::Field::MaximumBusSpeed.name();

    let cap = capability::CommandData::from_slice(payload).unwrap();
    let val = cap.get(capability::Field::MaximumBusSpeed).unwrap();
    let target = value_str(&val);

    let mut matcher = MatchByName { name, result: None };
    Device::Tps546B24A
        .interpret(code, payload, &mut PanicMode, &mut matcher)
        .unwrap();

    assert_eq!(matcher.result, Some(target));
}

use pmbus::commands::operation::{CommandData, OnOffState, VoltageCommandSource};
use pmbus::commands::VOutMode;
use pmbus::engine::{FieldVisitor, MutateVisitor, VOutModeSource};
use pmbus::{Bitpos, Bitwidth, Device, Error, Field, Replacement, Value};

struct PanicMode;

impl VOutModeSource for PanicMode {
    fn vout_mode(&mut self) -> VOutMode {
        panic!("unexpected call to get VOutMode");
    }
}

fn value_str(v: &Value) -> String {
    match v {
        Value::Boolean(b) => format!("{}", b),
        Value::Unsigned(u) => format!("0x{:x}", u),
        Value::Sentinel(name, raw) => format!("{} (0x{:x})", name, raw),
        Value::Direct(d) => format!("direct 0x{:04x}", d.0),
        Value::DirectRaw(w) => format!("direct 0x{:04x}", w),
        Value::Linear11(l) => format!("linear11 0x{:04x}", l.0),
        Value::ULinear16(u) => format!("ulinear16 0x{:04x}", u.0),
    }
}

struct PrintFields;

impl FieldVisitor for PrintFields {
    fn visit(&mut self, field: &Field, value: &Value) {
        println!("{} = {}", field.desc(), value_str(value));
    }
}

struct ReplaceByName {
    name: &'static str,
    rep: Replacement,
}

impl MutateVisitor for ReplaceByName {
    fn propose(&mut self, field: &Field, _current: &Value) -> Option<Replacement> {
        if field.name() == self.name {
            Some(self.rep)
        } else {
            None
        }
    }
}

#[test]
fn verify_operation() {
    let data = CommandData(0x4);

    data.interpret(&mut PanicMode, &mut PrintFields).unwrap();
}

#[test]
fn verify_operation_set() {
    let mut data = CommandData(0x4);

    data.interpret(&mut PanicMode, &mut PrintFields).unwrap();

    assert_ne!(
        data.get_voltage_command_source(),
        Some(VoltageCommandSource::VOUT_MARGIN_HIGH)
    );

    data.set_voltage_command_source(VoltageCommandSource::VOUT_MARGIN_HIGH);

    data.interpret(&mut PanicMode, &mut PrintFields).unwrap();

    assert_eq!(
        data.get_voltage_command_source(),
        Some(VoltageCommandSource::VOUT_MARGIN_HIGH)
    );
}

#[test]
fn raw_operation() {
    pmbus::CommandCode::OPERATION
        .interpret(&[0x4], &mut PanicMode, &mut PrintFields)
        .unwrap();
}

#[test]
fn mutate_operation() {
    let mut data = CommandData(0x4);
    data.interpret(&mut PanicMode, &mut PrintFields).unwrap();

    println!("{:?}", data.get_on_off_state());
    assert_eq!(data.get_on_off_state(), Some(OnOffState::Off));

    data.mutate(
        &mut PanicMode,
        &mut ReplaceByName { name: "OnOffState", rep: Replacement::Boolean(true) },
    )
    .unwrap();

    assert_eq!(data.get_on_off_state(), Some(OnOffState::On));

    data.interpret(&mut PanicMode, &mut PrintFields).unwrap();
}

#[test]
fn mutate_overflow_replacement() {
    let mut data = CommandData(0x4);

    let rval = data.mutate(
        &mut PanicMode,
        &mut ReplaceByName { name: "OnOffState", rep: Replacement::Integer(3) },
    );

    assert_eq!(rval, Err(Error::OverflowReplacement));
}

#[test]
fn mutate_invalid() {
    let mut data = CommandData(0x4);

    let rval = data.mutate(
        &mut PanicMode,
        &mut ReplaceByName {
            name: "OnOffState",
            rep: Replacement::Float(pmbus::Fixed(((3.1f64) * 4294967296.0).round() as i64)),
        },
    );

    assert_eq!(rval, Err(Error::InvalidReplacement));
}

#[test]
fn sentinels() {
    let data = CommandData::from_slice(&[0x88]).unwrap();
    data.interpret(&mut PanicMode, &mut PrintFields).unwrap();

    for val in CommandData::sentinels(Bitpos(4)).unwrap() {
        match val.name() {
            "VOUT_COMMAND" => {
                assert_eq!(val.raw(), 0);
            }
            "VOUT_MARGIN_LOW" => {
                assert_eq!(val.raw(), 1);
            }
            "VOUT_MARGIN_HIGH" => {
                assert_eq!(val.raw(), 2);
            }
            "AVS_VOUT_COMMAND" => {
                assert_eq!(val.raw(), 3);
            }
            _ => {
                panic!("unrecognized sentinel");
            }
        }

        println!("{} => {}", val.name(), val.raw());
    }

    assert_eq!(
        CommandData::sentinels(Bitpos(5)).map(|_| ()),
        Err(Error::InvalidField)
    );
}

#[test]
fn device_sentinels() {
    for val in Device::Common.sentinels(1, Bitpos(4)).unwrap() {
        match val.name() {
            "VOUT_COMMAND" => {
                assert_eq!(val.raw(), 0);
            }
            "VOUT_MARGIN_LOW" => {
                assert_eq!(val.raw(), 1);
            }
            "VOUT_MARGIN_HIGH" => {
                assert_eq!(val.raw(), 2);
            }
            "AVS_VOUT_COMMAND" => {
                assert_eq!(val.raw(), 3);
            }
            _ => {
                panic!("unrecognized sentinel");
            }
        }

        println!("{} => {}", val.name(), val.raw());
    }

    assert_eq!(
        Device::Common.sentinels(1, Bitpos(5)).map(|_| ()),
        Err(Error::InvalidField)
    );
}

#[test]
fn device_fields() {
    for f in Device::Common.fields(1).unwrap() {
        let bits = f.bits();

        match f.name() {
            "OnOffState" => {
                assert_eq!(bits, (Bitpos(7), Bitwidth(1)));
            }
            "TurnOffBehavior" => {
                assert_eq!(bits, (Bitpos(6), Bitwidth(1)));
            }
            "VoltageCommandSource" => {
                assert_eq!(bits, (Bitpos(4), Bitwidth(2)));
            }
            "MarginFaultResponse" => {
                assert_eq!(bits, (Bitpos(2), Bitwidth(2)));
            }
            "TransitionControl" => {
                assert_eq!(bits, (Bitpos(1), Bitwidth(1)));
            }
            _ => {
                panic!("unrecognized field");
            }
        }

        println!("{} => {:?}", f.name(), f.bits());
    }
}

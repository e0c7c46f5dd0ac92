use pmbus::commands::{
    capability, on_off_config, status_cml, status_iout, status_other, status_vout, status_word,
    vout_mode, VOutMode,
};
use pmbus::adm1272::status_mfr_specific;
use pmbus::engine::{FieldVisitor, VOutModeSource};
use pmbus::{Field, Value};

struct PanicMode;

impl VOutModeSource for PanicMode {
    fn vout_mode(&mut self) -> VOutMode {
        panic!("unexpected call to get VOutMode");
    }
}

fn value_str(v: &Value) -> String {
    match v {
        Value::Boolean(b) => format!("{}", b),
        Value::Unsigned(u) => format!("0x{:x}", u),
        Value::Sentinel(name, raw) => format!("{} (0x{:x})", name, raw),
        Value::Direct(d) => format!("direct 0x{:04x}", d.0),
        Value::DirectRaw(w) => format!("direct 0x{:04x}", w),
        Value::Linear11(l) => format!("linear11 0x{:04x}", l.0),
        Value::ULinear16(u) => format!("ulinear16 0x{:04x}", u.0),
    }
}

struct PrintFields;

impl FieldVisitor for PrintFields {
    fn visit(&mut self, field: &Field, value: &Value) {
        println!("{} = {}", field.desc(), value_str(value));
    }
}

#[test]
fn verify_status_word() {
    let data = status_word::CommandData::from_slice(&[0x43, 0x18]).unwrap();

    data.interpret(&mut PanicMode, &mut PrintFields).unwrap();

    data.interpret(&mut PanicMode, &mut PrintFields).unwrap();
}

#[test]
fn verify_on_off_config() {
    let data = on_off_config::CommandData::from_slice(&[0x17]).unwrap();
    data.interpret(&mut PanicMode, &mut PrintFields).unwrap();
}

#[test]
fn verify_capability() {
    let data = capability::CommandData::from_slice(&[0xd0]).unwrap();
    data.interpret(&mut PanicMode, &mut PrintFields).unwrap();

    let data = capability::CommandData::from_slice(&[0xb0]).unwrap();
    data.interpret(&mut PanicMode, &mut PrintFields).unwrap();
}

#[test]
fn verify_vout_mode() {
    let data = vout_mode::CommandData::from_slice(&[0x97]).unwrap();
    data.interpret(&mut PanicMode, &mut PrintFields).unwrap();
}

#[test]
fn verify_status_vout() {
    let data = status_vout::CommandData::from_slice(&[0x0]).unwrap();
    data.interpret(&mut PanicMode, &mut PrintFields).unwrap();
}

#[test]
fn verify_status_iout() {
    let data = status_iout::CommandData::from_slice(&[0x0]).unwrap();
    data.interpret(&mut PanicMode, &mut PrintFields).unwrap();
}

#[test]
fn verify_status_cml() {
    let data = status_cml::CommandData::from_slice(&[0x82]).unwrap();
    data.interpret(&mut PanicMode, &mut PrintFields).unwrap();
}

#[test]
fn verify_status_other() {
    let data = status_other::CommandData::from_slice(&[0x1]).unwrap();
    data.interpret(&mut PanicMode, &mut PrintFields).unwrap();
}

#[test]
fn verify_status_adm1272() {
    let data = status_mfr_specific::CommandData::from_slice(&[0x40]).unwrap();
    data.interpret(&mut PanicMode, &mut PrintFields).unwrap();
}

pub mod capability;
pub mod code;
pub mod on_off_config;
pub mod operation;
pub mod read_iin;
pub mod read_iout;
pub mod read_pin;
pub mod read_pout;
pub mod read_temperature_1;
pub mod read_vin;
pub mod read_vout;
pub mod status_cml;
pub mod status_iout;
pub mod status_other;
pub mod status_vout;
pub mod status_word;
pub mod vout_command;
pub mod vout_mode;

pub use code::CommandCode;
pub use crate::device::{Command, Device, devices};
pub use vout_mode::CommandData as VOutMode;

pub use crate::adm1272;
pub use crate::bmr480;
pub use crate::bmr491;
pub use crate::isl68224;
pub use crate::tps546b24a;

//! The BMR480 power module: standard LINEAR11 and ULINEAR16 readings
//! plus manufacturer configuration registers.

pub mod mfr_fast_ocp_cfg;
pub mod mfr_ishare_threshold;
pub mod mfr_response_unit_cfg;

pub use crate::commands::read_iout;
pub use crate::commands::read_vin;
pub use crate::commands::read_vout;

//! The BMR491 power module: it shares the BMR480's manufacturer
//! configuration registers and adds ramp-control and kickstart tuning.

pub mod mfr_ks_pretrig;
pub mod mfr_rc_level;

pub use crate::bmr480::mfr_fast_ocp_cfg;
pub use crate::bmr480::mfr_ishare_threshold;
pub use crate::bmr480::mfr_response_unit_cfg;
pub use crate::commands::read_iout;
pub use crate::commands::read_vin;
pub use crate::commands::read_vout;

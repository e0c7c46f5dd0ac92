//! The ADM1272 hot-swap controller: DIRECT-coded readings whose
//! coefficients the caller supplies, peak registers on manufacturer
//! codes, and a power-monitor configuration register.

pub mod peak_iout;
pub mod peak_pin;
pub mod peak_vin;
pub mod peak_vout;
pub mod pmon_config;
pub mod read_iout;
pub mod read_pin;
pub mod read_vin;
pub mod read_vout;
pub mod status_mfr_specific;

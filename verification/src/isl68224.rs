//! The ISL68224 multiphase controller: DIRECT-coded readings with
//! fixed per-register coefficients and a raw DMA register.

pub mod dmafix;
pub mod read_vin;
pub mod ton_rise;

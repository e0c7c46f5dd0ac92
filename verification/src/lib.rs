//! A verified model of the PMBus command protocol: the command-data
//! engine that embedded controllers and host tools share when they talk
//! to power-management devices over a byte-oriented bus.
//!
//! The crate covers the protocol's hard core: the bit-field vocabulary
//! (`Field`, `Value`, `Replacement`), the per-command decode and encode
//! engine, the numeric codecs of the DIRECT, LINEAR11 and unsigned
//! LINEAR16 data formats, the command-identity table (`CommandCode`,
//! `Operation`), and the device-dispatch layer that resolves a command
//! code to a device's own definition or to the common one.  Two very
//! different consumers use the same engine: firmware that knows its
//! device at build time and addresses specific command types directly,
//! and host tools that discover a device's command set dynamically and
//! go through `Device` with a code and a payload.
//!
//! The engine is purely computational.  It performs no bus traffic and
//! trusts the caller's framing; payload bytes come in as slices and go
//! back out as bytes.  Physical quantities cross the crate boundary in
//! an exact binary fixed-point form (`Fixed`), so every codec is integer
//! arithmetic with a precise contract; turning a datum into a floating
//! value is left to the caller.
//!
//! Contracts throughout state exactly which inputs succeed, which error
//! of the closed taxonomy (`Error`) an operation reports, and which bits
//! of a payload change.  The round-trip precision of the codecs, the
//! width invariant of command storage, the independence of replacements
//! aimed at non-overlapping fields, the override rule of device
//! dispatch, and the duplicate-freedom of sentinel enumerations are
//! stated and proved alongside the code they govern.

pub mod adm1272;
pub mod arith;
pub mod bmr480;
pub mod bmr491;
pub mod codec;
pub mod commands;
pub mod device;
pub mod engine;
pub mod field;
pub mod fixed;
pub mod isl68224;
pub mod operation;
pub mod raw;
pub mod tps546b24a;

pub use codec::{Coefficients, Direct, Linear11, ULinear16, ULinear16Exponent};
pub use field::{Bitpos, Bitwidth, Error, Field, Kind, Replacement, Sentinel, Value};
pub use fixed::Fixed;
pub use operation::Operation;
pub use commands::CommandCode;
pub use device::{Command, Device, devices};

use vstd::prelude::*;
use vstd::arithmetic::power2::pow2;
use crate::codec::{Coefficients, Direct, Linear11, ULinear16};
use crate::fixed::Fixed;

verus! {

/// A bit position within a command's raw storage, counted from the least
/// significant bit.
#[derive(Copy, Clone, Debug, PartialEq, Eq, Structural)]
pub struct Bitpos(pub u8);

/// A width in bits.
#[derive(Copy, Clone, Debug, PartialEq, Eq, Structural)]
pub struct Bitwidth(pub u8);

/// The closed error taxonomy of the engine.  Every fallible operation
/// returns one of these to its immediate caller; nothing is retried,
/// logged or defaulted.
#[derive(Copy, Clone, Debug, PartialEq, Eq, Structural)]
pub enum Error {
    /// A byte slice's length does not match the command's declared width.
    InvalidLength,
    /// A query named a field or bit position the command does not declare.
    InvalidField,
    /// A replacement's tag does not match the field's semantic kind.
    InvalidReplacement,
    /// A replacement's integer magnitude exceeds the field's bit width.
    OverflowReplacement,
    /// A physical-quantity replacement that the active numeric codec
    /// cannot represent within the field's width.
    ValueOutOfRange,
}

/// The semantic kind of a field.
#[derive(Copy, Clone, Debug, PartialEq, Eq, Structural)]
pub enum Kind {
    /// A single bit read as a truth value.
    Boolean,
    /// A plain unsigned integer.
    Unsigned,
    /// A DIRECT-coded physical quantity whose coefficients are fixed by
    /// the device's catalog.
    Direct(Coefficients),
    /// A DIRECT-coded physical quantity whose coefficients the caller
    /// must supply out of band.
    DirectCaller,
    /// A LINEAR11-coded physical quantity.
    Linear11,
    /// An unsigned LINEAR16-coded physical quantity; the exponent comes
    /// from VOUT_MODE.
    ULinear16,
    /// An enumeration over named sentinel values.
    Enumerated,
}

/// One named bit range within a command's raw storage.
#[derive(Copy, Clone, Debug)]
pub struct Field {
    pub name: &'static str,
    pub desc: &'static str,
    pub pos: u8,
    pub width: u8,
    pub bitfield: bool,
    pub kind: Kind,
}

impl Field {
    /// Structural well-formedness: the width suits the kind, and the
    /// range stays within the largest storage the engine carries.
    pub open spec fn wf(self) -> bool {
        &&& 1 <= self.width
        &&& self.pos + self.width <= 128
        &&& match self.kind {
            Kind::Boolean => self.width == 1,
            Kind::Unsigned => self.width <= 32,
            Kind::Direct(_) => self.width == 8 || self.width == 16,
            Kind::DirectCaller => self.width == 8 || self.width == 16,
            Kind::Linear11 => self.width == 16,
            Kind::ULinear16 => self.width == 16,
            Kind::Enumerated => self.width <= 32,
        }
    }

    /// The field's short name.
    pub fn name(&self) -> (r: &'static str)
        ensures
            r == self.name,
    {
        self.name
    }

    /// The field's human description.
    pub fn desc(&self) -> (r: &'static str)
        ensures
            r == self.desc,
    {
        self.desc
    }

    /// The bit range the field occupies.
    pub fn bits(&self) -> (r: (Bitpos, Bitwidth))
        ensures
            r.0.0 == self.pos,
            r.1.0 == self.width,
    {
        (Bitpos(self.pos), Bitwidth(self.width))
    }

    /// Whether the field is a sub-byte bitfield rather than a full-width
    /// scalar.
    pub fn bitfield(&self) -> (r: bool)
        ensures
            r == self.bitfield,
    {
        self.bitfield
    }

    /// The field's semantic kind.
    pub fn kind(&self) -> (r: Kind)
        ensures
            r == self.kind,
    {
        self.kind
    }
}

/// One named value of an enumeration field.
#[derive(Copy, Clone, Debug)]
pub struct Sentinel {
    pub name: &'static str,
    pub raw: u32,
}

impl Sentinel {
    /// The value's name.
    pub fn name(&self) -> (r: &'static str)
        ensures
            r == self.name,
    {
        self.name
    }

    /// The value's raw code.
    pub fn raw(&self) -> (r: u32)
        ensures
            r == self.raw,
    {
        self.raw
    }
}

/// The named values of one enumeration field, keyed by its bit position.
#[derive(Debug)]
pub struct SentinelGroup {
    pub pos: u8,
    pub width: u8,
    pub values: Vec<Sentinel>,
}

/// A sentinel group is well-formed when every raw code fits the field
/// width and no code repeats.
pub open spec fn group_wf(g: SentinelGroup) -> bool {
    &&& forall|i: int|
        0 <= i < g.values@.len() ==> (#[trigger] g.values@[i].raw as int) < pow2(g.width as nat)
    &&& forall|i: int, j: int|
        0 <= i < j < g.values@.len() ==> g.values@[i].raw != g.values@[j].raw
}

/// A decoded result.  It is produced only by decoding a field against raw
/// storage, never constructed independently of one.
#[derive(Copy, Clone, Debug)]
pub enum Value {
    /// A decoded truth value.
    Boolean(bool),
    /// A plain integer, from an integer field or from an enumeration
    /// code with no name.
    Unsigned(u32),
    /// A DIRECT datum with its catalog coefficients attached.
    Direct(Direct),
    /// A DIRECT wire word whose coefficients the caller holds.
    DirectRaw(u16),
    /// A LINEAR11 datum.
    Linear11(Linear11),
    /// A ULINEAR16 datum with the exponent that was in force.
    ULinear16(ULinear16),
    /// A named enumeration value and its raw code.
    Sentinel(&'static str, u32),
}

/// A caller-proposed new value for a field, checked against the field's
/// kind and width before being folded into raw storage.
#[derive(Copy, Clone, Debug)]
pub enum Replacement {
    /// For single-bit fields.
    Boolean(bool),
    /// A plain integer for integer fields, or a whole number for
    /// physical fields.
    Integer(u32),
    /// A fixed-point real for physical fields.
    Float(Fixed),
}

} // verus!

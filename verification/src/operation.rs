use vstd::prelude::*;

verus! {

/// The kind of bus transfer a command requires in one direction.  A
/// direction a command does not support is `Illegal`; manufacturer-
/// defined codes are `MfrDefined`; the two extended-command codes are
/// `Extended`; codes the protocol leaves unassigned are `Unknown`.
#[derive(Copy, Clone, Debug, PartialEq, Eq, Structural)]
pub enum Operation {
    ReadByte,
    WriteByte,
    ReadWord,
    WriteWord,
    ReadWord32,
    ReadBlock,
    WriteBlock,
    ProcessCall,
    MfrDefined,
    Extended,
    SendByte,
    Illegal,
    Unknown,
}

} // verus!

//! The TPS546B24A buck converter: the standard command set plus an
//! atomic READ_ALL snapshot register.

pub mod read_all;

use vstd::prelude::*;

verus! {

/// The commands this part's catalog declares beyond pass-through, with
/// the codes they answer to.
#[derive(Copy, Clone, Debug, PartialEq, Eq, Structural)]
#[allow(non_camel_case_types)]
pub enum CommandCode {
    READ_ALL,
}

impl CommandCode {
    /// The code the command answers to.
    pub fn code(&self) -> (r: u8)
        ensures
            r == 0xef,
    {
        match *self {
            CommandCode::READ_ALL => 0xef,
        }
    }
}

} // verus!

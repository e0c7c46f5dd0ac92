use vstd::prelude::*;
use vstd::arithmetic::power2::pow2;
use crate::engine::{Layout, VOutModeSource, FieldVisitor, MutateVisitor};
use crate::field::{Error, Kind, Sentinel, SentinelGroup};
use crate::raw::{le_value, extract_bits, insert_bits};

verus! {

/// The READ_ALL register of this part: one atomic snapshot of the principal readings: 14 bytes wide, code 0xef.
#[derive(Copy, Clone, Debug, PartialEq, Eq, Structural)]
pub struct CommandData(pub u128);

/// The declared fields, most significant first.
pub open spec fn fields_spec() -> Seq<crate::field::Field> {
    seq![
        crate::field::Field {
            name: "READ_POUT",
            desc: "Snapshot of READ_POUT",
            pos: 96,
            width: 16,
            bitfield: false,
            kind: Kind::Linear11,
        },
        crate::field::Field {
            name: "READ_IIN",
            desc: "Snapshot of READ_IIN",
            pos: 80,
            width: 16,
            bitfield: false,
            kind: Kind::Linear11,
        },
        crate::field::Field {
            name: "READ_VIN",
            desc: "Snapshot of READ_VIN",
            pos: 64,
            width: 16,
            bitfield: false,
            kind: Kind::Linear11,
        },
        crate::field::Field {
            name: "READ_TEMPERATURE_1",
            desc: "Snapshot of READ_TEMPERATURE_1",
            pos: 48,
            width: 16,
            bitfield: false,
            kind: Kind::Linear11,
        },
        crate::field::Field {
            name: "READ_IOUT",
            desc: "Snapshot of READ_IOUT",
            pos: 32,
            width: 16,
            bitfield: false,
            kind: Kind::Linear11,
        },
        crate::field::Field {
            name: "READ_VOUT",
            desc: "Snapshot of READ_VOUT",
            pos: 16,
            width: 16,
            bitfield: false,
            kind: Kind::ULinear16,
        },
        crate::field::Field {
            name: "STATUS_WORD",
            desc: "Snapshot of STATUS_WORD",
            pos: 0,
            width: 16,
            bitfield: false,
            kind: Kind::Unsigned,
        },
    ]
}

/// The declared sentinel groups, as plain data: this command has
/// no enumeration fields.
pub open spec fn groups_spec() -> Seq<(u8, u8, Seq<Sentinel>)> {
    Seq::empty()
}

/// The catalog entry for READ_ALL.
pub fn layout() -> (r: Layout)
    ensures
        r.wf(),
        r.code == 0xef,
        r.width == 14,
        r.fields@ == fields_spec(),
        crate::engine::groups_match(r, groups_spec()),
{
    let fields = vec![
        crate::field::Field {
            name: "READ_POUT",
            desc: "Snapshot of READ_POUT",
            pos: 96,
            width: 16,
            bitfield: false,
            kind: Kind::Linear11,
        },
        crate::field::Field {
            name: "READ_IIN",
            desc: "Snapshot of READ_IIN",
            pos: 80,
            width: 16,
            bitfield: false,
            kind: Kind::Linear11,
        },
        crate::field::Field {
            name: "READ_VIN",
            desc: "Snapshot of READ_VIN",
            pos: 64,
            width: 16,
            bitfield: false,
            kind: Kind::Linear11,
        },
        crate::field::Field {
            name: "READ_TEMPERATURE_1",
            desc: "Snapshot of READ_TEMPERATURE_1",
            pos: 48,
            width: 16,
            bitfield: false,
            kind: Kind::Linear11,
        },
        crate::field::Field {
            name: "READ_IOUT",
            desc: "Snapshot of READ_IOUT",
            pos: 32,
            width: 16,
            bitfield: false,
            kind: Kind::Linear11,
        },
        crate::field::Field {
            name: "READ_VOUT",
            desc: "Snapshot of READ_VOUT",
            pos: 16,
            width: 16,
            bitfield: false,
            kind: Kind::ULinear16,
        },
        crate::field::Field {
            name: "STATUS_WORD",
            desc: "Snapshot of STATUS_WORD",
            pos: 0,
            width: 16,
            bitfield: false,
            kind: Kind::Unsigned,
        },
    ];
    let sentinels: Vec<SentinelGroup> = Vec::new();
    let r = Layout { code: 0xef, name: "READ_ALL", width: 14, fields, sentinels };
    proof {
        vstd::arithmetic::power2::lemma2_to64();
        assert(r.fields@.len() == 7);
        assert(r.sentinels@.len() == 0);
        assert(r.fields@ =~= fields_spec());
        assert(crate::engine::groups_match(r, groups_spec()));
    }
    r
}

impl CommandData {
    /// Construct from the raw payload; the slice length must equal
    /// the declared width exactly: no truncation, no padding.
    pub fn from_slice(bytes: &[u8]) -> (r: Result<CommandData, Error>)
        ensures
            r is Ok <==> bytes@.len() == 14,
            r matches Err(e) ==> e == Error::InvalidLength,
            r matches Ok(d) ==> d.0 as int == le_value(bytes@),
    {
        match crate::engine::parse_bytes(bytes, 14) {
            Ok(v) => {
                proof {
                    vstd::arithmetic::power2::lemma2_to64();
                }
                Ok(CommandData(v))
            },
            Err(e) => Err(e),
        }
    }

    /// Hand each declared field and its decoded value to the
    /// visitor, most significant field first.  The VOUT_MODE source
    /// is consulted only for fields that need an exponent.
    pub fn interpret<P: VOutModeSource, V: FieldVisitor>(
        &self,
        provider: &mut P,
        visitor: &mut V,
    ) -> (r: Result<(), Error>)
        ensures
            r is Ok,
    {
        let l = layout();
        crate::engine::interpret_with(&l, self.0 as u128, provider, visitor)
    }

    /// The raw STATUS_WORD word captured in this snapshot.
    pub fn get_status_word(&self) -> (r: u16)
        ensures
            r as int == extract_bits(self.0 as int, 0, 16),
    {
        proof {
            vstd::arithmetic::power2::lemma2_to64();
        }
        crate::raw::extract(self.0 as u128, 0, 16) as u16
    }

    /// The raw READ_VOUT word captured in this snapshot.
    pub fn get_read_vout(&self) -> (r: u16)
        ensures
            r as int == extract_bits(self.0 as int, 16, 16),
    {
        proof {
            vstd::arithmetic::power2::lemma2_to64();
        }
        crate::raw::extract(self.0 as u128, 16, 16) as u16
    }

    /// The raw READ_IOUT word captured in this snapshot.
    pub fn get_read_iout(&self) -> (r: u16)
        ensures
            r as int == extract_bits(self.0 as int, 32, 16),
    {
        proof {
            vstd::arithmetic::power2::lemma2_to64();
        }
        crate::raw::extract(self.0 as u128, 32, 16) as u16
    }

    /// The raw READ_TEMPERATURE_1 word captured in this snapshot.
    pub fn get_read_temperature_1(&self) -> (r: u16)
        ensures
            r as int == extract_bits(self.0 as int, 48, 16),
    {
        proof {
            vstd::arithmetic::power2::lemma2_to64();
        }
        crate::raw::extract(self.0 as u128, 48, 16) as u16
    }

    /// The raw READ_VIN word captured in this snapshot.
    pub fn get_read_vin(&self) -> (r: u16)
        ensures
            r as int == extract_bits(self.0 as int, 64, 16),
    {
        proof {
            vstd::arithmetic::power2::lemma2_to64();
        }
        crate::raw::extract(self.0 as u128, 64, 16) as u16
    }

    /// The raw READ_IIN word captured in this snapshot.
    pub fn get_read_iin(&self) -> (r: u16)
        ensures
            r as int == extract_bits(self.0 as int, 80, 16),
    {
        proof {
            vstd::arithmetic::power2::lemma2_to64();
        }
        crate::raw::extract(self.0 as u128, 80, 16) as u16
    }

    /// The raw READ_POUT word captured in this snapshot.
    pub fn get_read_pout(&self) -> (r: u16)
        ensures
            r as int == extract_bits(self.0 as int, 96, 16),
    {
        proof {
            vstd::arithmetic::power2::lemma2_to64();
        }
        crate::raw::extract(self.0 as u128, 96, 16) as u16
    }
}

} // verus!

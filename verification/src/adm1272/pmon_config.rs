use vstd::prelude::*;
use vstd::arithmetic::power2::pow2;
use crate::engine::{Layout, VOutModeSource, FieldVisitor, MutateVisitor};
use crate::field::{Error, Kind, Sentinel, SentinelGroup};
use crate::raw::{le_value, extract_bits, insert_bits};

verus! {

/// The PMON_CONFIG register of this part: power monitor configuration: 2 bytes wide, code 0xd4.
#[derive(Copy, Clone, Debug, PartialEq, Eq, Structural)]
pub struct CommandData(pub u16);

/// The declared fields, most significant first.
pub open spec fn fields_spec() -> Seq<crate::field::Field> {
    seq![
        crate::field::Field {
            name: "TSFilter",
            desc: "Temperature sense filter enabled",
            pos: 15,
            width: 1,
            bitfield: true,
            kind: Kind::Boolean,
        },
        crate::field::Field {
            name: "Simultaneous",
            desc: "Simultaneous voltage and current sampling",
            pos: 14,
            width: 1,
            bitfield: true,
            kind: Kind::Boolean,
        },
        crate::field::Field {
            name: "PowerAverage",
            desc: "Power averaging sample count",
            pos: 11,
            width: 3,
            bitfield: true,
            kind: Kind::Unsigned,
        },
        crate::field::Field {
            name: "ViAverage",
            desc: "Voltage and current averaging sample count",
            pos: 8,
            width: 3,
            bitfield: true,
            kind: Kind::Unsigned,
        },
        crate::field::Field {
            name: "VRange",
            desc: "Input voltage range",
            pos: 5,
            width: 1,
            bitfield: true,
            kind: Kind::Enumerated,
        },
        crate::field::Field {
            name: "PMONMode",
            desc: "Power monitor conversion mode",
            pos: 4,
            width: 1,
            bitfield: true,
            kind: Kind::Enumerated,
        },
        crate::field::Field {
            name: "TemperatureEnable",
            desc: "Temperature sampling enabled",
            pos: 3,
            width: 1,
            bitfield: true,
            kind: Kind::Boolean,
        },
        crate::field::Field {
            name: "VinEnable",
            desc: "Input voltage sampling enabled",
            pos: 2,
            width: 1,
            bitfield: true,
            kind: Kind::Boolean,
        },
        crate::field::Field {
            name: "VoutEnable",
            desc: "Output voltage sampling enabled",
            pos: 1,
            width: 1,
            bitfield: true,
            kind: Kind::Boolean,
        },
        crate::field::Field {
            name: "IRange",
            desc: "Sense resistor voltage range",
            pos: 0,
            width: 1,
            bitfield: true,
            kind: Kind::Enumerated,
        },
    ]
}

/// The declared sentinel groups, as plain data.
pub open spec fn groups_spec() -> Seq<(u8, u8, Seq<Sentinel>)> {
    seq![
        (5u8, 1u8, seq![(Sentinel { name: "Range60V", raw: 0 }), (Sentinel { name: "Range100V", raw: 1 })]),
        (4u8, 1u8, seq![(Sentinel { name: "SingleShot", raw: 0 }), (Sentinel { name: "Continuous", raw: 1 })]),
        (0u8, 1u8, seq![(Sentinel { name: "Range15mV", raw: 0 }), (Sentinel { name: "Range30mV", raw: 1 })]),
    ]
}

/// The catalog entry for PMON_CONFIG.
pub fn layout() -> (r: Layout)
    ensures
        r.wf(),
        r.code == 0xd4,
        r.width == 2,
        r.fields@ == fields_spec(),
        crate::engine::groups_match(r, groups_spec()),
        r.sentinels@.len() == 3,
        r.sentinels@[0].pos == 5 && r.sentinels@[0].width == 1,
        r.sentinels@[0].values@ == seq![(Sentinel { name: "Range60V", raw: 0 }), (Sentinel { name: "Range100V", raw: 1 })],
        r.sentinels@[1].pos == 4 && r.sentinels@[1].width == 1,
        r.sentinels@[1].values@ == seq![(Sentinel { name: "SingleShot", raw: 0 }), (Sentinel { name: "Continuous", raw: 1 })],
        r.sentinels@[2].pos == 0 && r.sentinels@[2].width == 1,
        r.sentinels@[2].values@ == seq![(Sentinel { name: "Range15mV", raw: 0 }), (Sentinel { name: "Range30mV", raw: 1 })],
{
    let fields = vec![
        crate::field::Field {
            name: "TSFilter",
            desc: "Temperature sense filter enabled",
            pos: 15,
            width: 1,
            bitfield: true,
            kind: Kind::Boolean,
        },
        crate::field::Field {
            name: "Simultaneous",
            desc: "Simultaneous voltage and current sampling",
            pos: 14,
            width: 1,
            bitfield: true,
            kind: Kind::Boolean,
        },
        crate::field::Field {
            name: "PowerAverage",
            desc: "Power averaging sample count",
            pos: 11,
            width: 3,
            bitfield: true,
            kind: Kind::Unsigned,
        },
        crate::field::Field {
            name: "ViAverage",
            desc: "Voltage and current averaging sample count",
            pos: 8,
            width: 3,
            bitfield: true,
            kind: Kind::Unsigned,
        },
        crate::field::Field {
            name: "VRange",
            desc: "Input voltage range",
            pos: 5,
            width: 1,
            bitfield: true,
            kind: Kind::Enumerated,
        },
        crate::field::Field {
            name: "PMONMode",
            desc: "Power monitor conversion mode",
            pos: 4,
            width: 1,
            bitfield: true,
            kind: Kind::Enumerated,
        },
        crate::field::Field {
            name: "TemperatureEnable",
            desc: "Temperature sampling enabled",
            pos: 3,
            width: 1,
            bitfield: true,
            kind: Kind::Boolean,
        },
        crate::field::Field {
            name: "VinEnable",
            desc: "Input voltage sampling enabled",
            pos: 2,
            width: 1,
            bitfield: true,
            kind: Kind::Boolean,
        },
        crate::field::Field {
            name: "VoutEnable",
            desc: "Output voltage sampling enabled",
            pos: 1,
            width: 1,
            bitfield: true,
            kind: Kind::Boolean,
        },
        crate::field::Field {
            name: "IRange",
            desc: "Sense resistor voltage range",
            pos: 0,
            width: 1,
            bitfield: true,
            kind: Kind::Enumerated,
        },
    ];
    let sentinels = vec![
        SentinelGroup { pos: 5, width: 1, values: vec![Sentinel { name: "Range60V", raw: 0 }, Sentinel { name: "Range100V", raw: 1 }] },
        SentinelGroup { pos: 4, width: 1, values: vec![Sentinel { name: "SingleShot", raw: 0 }, Sentinel { name: "Continuous", raw: 1 }] },
        SentinelGroup { pos: 0, width: 1, values: vec![Sentinel { name: "Range15mV", raw: 0 }, Sentinel { name: "Range30mV", raw: 1 }] },
    ];
    let r = Layout { code: 0xd4, name: "PMON_CONFIG", width: 2, fields, sentinels };
    proof {
        vstd::arithmetic::power2::lemma2_to64();
        assert(r.fields@.len() == 10);
        assert(r.sentinels@.len() == 3);
        assert(r.sentinels@[0].values@.len() == 2);
        assert(crate::field::group_wf(r.sentinels@[0]));
        assert(r.fields@[4].pos == 5 && r.fields@[4].kind == Kind::Enumerated);
        assert(r.sentinels@[1].values@.len() == 2);
        assert(crate::field::group_wf(r.sentinels@[1]));
        assert(r.fields@[5].pos == 4 && r.fields@[5].kind == Kind::Enumerated);
        assert(r.sentinels@[2].values@.len() == 2);
        assert(crate::field::group_wf(r.sentinels@[2]));
        assert(r.fields@[9].pos == 0 && r.fields@[9].kind == Kind::Enumerated);
        assert(r.fields@ =~= fields_spec());
        assert(crate::engine::groups_match(r, groups_spec()));
        assert(r.sentinels@[0].values@ =~= seq![(Sentinel { name: "Range60V", raw: 0 }), (Sentinel { name: "Range100V", raw: 1 })]);
        assert(r.sentinels@[1].values@ =~= seq![(Sentinel { name: "SingleShot", raw: 0 }), (Sentinel { name: "Continuous", raw: 1 })]);
        assert(r.sentinels@[2].values@ =~= seq![(Sentinel { name: "Range15mV", raw: 0 }), (Sentinel { name: "Range30mV", raw: 1 })]);
    }
    r
}

impl CommandData {
    /// Construct from the raw payload; the slice length must equal
    /// the declared width exactly: no truncation, no padding.
    pub fn from_slice(bytes: &[u8]) -> (r: Result<CommandData, Error>)
        ensures
            r is Ok <==> bytes@.len() == 2,
            r matches Err(e) ==> e == Error::InvalidLength,
            r matches Ok(d) ==> d.0 as int == le_value(bytes@),
    {
        match crate::engine::parse_bytes(bytes, 2) {
            Ok(v) => {
                proof {
                    vstd::arithmetic::power2::lemma2_to64();
                }
                Ok(CommandData(v as u16))
            },
            Err(e) => Err(e),
        }
    }

    /// Hand each declared field and its decoded value to the
    /// visitor, most significant field first.  The VOUT_MODE source
    /// is consulted only for fields that need an exponent.
    pub fn interpret<P: VOutModeSource, V: FieldVisitor>(
        &self,
        provider: &mut P,
        visitor: &mut V,
    ) -> (r: Result<(), Error>)
        ensures
            r is Ok,
    {
        let l = layout();
        crate::engine::interpret_with(&l, self.0 as u128, provider, visitor)
    }

    /// Walk the fields under the visitor's direction, validating and
    /// applying each proposed replacement in place.  On the first
    /// rejection the walk stops and the error is returned; fields
    /// already applied before the failing one remain applied.
    pub fn mutate<P: VOutModeSource, V: MutateVisitor>(
        &mut self,
        provider: &mut P,
        visitor: &mut V,
    ) -> (r: Result<(), Error>)
        ensures
            r matches Err(e) ==> (e == Error::InvalidReplacement
                || e == Error::OverflowReplacement || e == Error::ValueOutOfRange),
            forall|p: nat|
                p < 16 && !crate::engine::fields_claim_bit(fields_spec(), p as int)
                    ==> #[trigger] extract_bits(final(self).0 as int, p, 1) == extract_bits(
                    old(self).0 as int,
                    p,
                    1,
                ),
    {
        let l = layout();
        proof {
            vstd::arithmetic::power2::lemma2_to64();
        }
        let (nv, err) = crate::engine::mutate_fields(&l, self.0 as u128, provider, visitor);
        self.0 = nv as u16;
        proof {
            assert forall|p: nat|
                p < 16 && !crate::engine::fields_claim_bit(fields_spec(), p as int)
                    implies #[trigger] extract_bits(self.0 as int, p, 1) == extract_bits(
                old(self).0 as int,
                p,
                1,
            ) by {
                assert(extract_bits(nv as int, p, 1) == extract_bits(old(self).0 as int, p, 1));
            }
        }
        match err {
            None => Ok(()),
            Some(e) => Err(e),
        }
    }
}

} // verus!

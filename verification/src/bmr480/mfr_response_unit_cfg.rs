use vstd::prelude::*;
use vstd::arithmetic::power2::pow2;
use crate::engine::{Layout, VOutModeSource, FieldVisitor, MutateVisitor};
use crate::field::{Error, Kind, Sentinel, SentinelGroup};
use crate::raw::{le_value, extract_bits, insert_bits};

verus! {

/// The MFR_RESPONSE_UNIT_CFG register of this family: fault response routing: 1 byte wide, code 0xd6.
#[derive(Copy, Clone, Debug, PartialEq, Eq, Structural)]
pub struct CommandData(pub u8);

/// The declared fields, most significant first.
pub open spec fn fields_spec() -> Seq<crate::field::Field> {
    seq![
        crate::field::Field {
            name: "VinResponse",
            desc: "Response unit for input voltage faults",
            pos: 4,
            width: 2,
            bitfield: true,
            kind: Kind::Enumerated,
        },
        crate::field::Field {
            name: "VoutResponse",
            desc: "Response unit for output voltage faults",
            pos: 2,
            width: 2,
            bitfield: true,
            kind: Kind::Enumerated,
        },
        crate::field::Field {
            name: "IoutResponse",
            desc: "Response unit for output current faults",
            pos: 0,
            width: 2,
            bitfield: true,
            kind: Kind::Enumerated,
        },
    ]
}

/// The declared sentinel groups, as plain data.
pub open spec fn groups_spec() -> Seq<(u8, u8, Seq<Sentinel>)> {
    seq![
        (4u8, 2u8, seq![(Sentinel { name: "Ignore", raw: 0 }), (Sentinel { name: "Shutdown", raw: 1 }), (Sentinel { name: "Restart", raw: 2 })]),
        (2u8, 2u8, seq![(Sentinel { name: "IgnoreFault", raw: 0 }), (Sentinel { name: "ShutdownUnit", raw: 1 }), (Sentinel { name: "RestartUnit", raw: 2 })]),
        (0u8, 2u8, seq![(Sentinel { name: "NoResponse", raw: 0 }), (Sentinel { name: "UnitShutdown", raw: 1 }), (Sentinel { name: "UnitRestart", raw: 2 })]),
    ]
}

/// The catalog entry for MFR_RESPONSE_UNIT_CFG.
pub fn layout() -> (r: Layout)
    ensures
        r.wf(),
        r.code == 0xd6,
        r.width == 1,
        r.fields@ == fields_spec(),
        crate::engine::groups_match(r, groups_spec()),
        r.sentinels@.len() == 3,
        r.sentinels@[0].pos == 4 && r.sentinels@[0].width == 2,
        r.sentinels@[0].values@ == seq![(Sentinel { name: "Ignore", raw: 0 }), (Sentinel { name: "Shutdown", raw: 1 }), (Sentinel { name: "Restart", raw: 2 })],
        r.sentinels@[1].pos == 2 && r.sentinels@[1].width == 2,
        r.sentinels@[1].values@ == seq![(Sentinel { name: "IgnoreFault", raw: 0 }), (Sentinel { name: "ShutdownUnit", raw: 1 }), (Sentinel { name: "RestartUnit", raw: 2 })],
        r.sentinels@[2].pos == 0 && r.sentinels@[2].width == 2,
        r.sentinels@[2].values@ == seq![(Sentinel { name: "NoResponse", raw: 0 }), (Sentinel { name: "UnitShutdown", raw: 1 }), (Sentinel { name: "UnitRestart", raw: 2 })],
{
    let fields = vec![
        crate::field::Field {
            name: "VinResponse",
            desc: "Response unit for input voltage faults",
            pos: 4,
            width: 2,
            bitfield: true,
            kind: Kind::Enumerated,
        },
        crate::field::Field {
            name: "VoutResponse",
            desc: "Response unit for output voltage faults",
            pos: 2,
            width: 2,
            bitfield: true,
            kind: Kind::Enumerated,
        },
        crate::field::Field {
            name: "IoutResponse",
            desc: "Response unit for output current faults",
            pos: 0,
            width: 2,
            bitfield: true,
            kind: Kind::Enumerated,
        },
    ];
    let sentinels = vec![
        SentinelGroup { pos: 4, width: 2, values: vec![Sentinel { name: "Ignore", raw: 0 }, Sentinel { name: "Shutdown", raw: 1 }, Sentinel { name: "Restart", raw: 2 }] },
        SentinelGroup { pos: 2, width: 2, values: vec![Sentinel { name: "IgnoreFault", raw: 0 }, Sentinel { name: "ShutdownUnit", raw: 1 }, Sentinel { name: "RestartUnit", raw: 2 }] },
        SentinelGroup { pos: 0, width: 2, values: vec![Sentinel { name: "NoResponse", raw: 0 }, Sentinel { name: "UnitShutdown", raw: 1 }, Sentinel { name: "UnitRestart", raw: 2 }] },
    ];
    let r = Layout { code: 0xd6, name: "MFR_RESPONSE_UNIT_CFG", width: 1, fields, sentinels };
    proof {
        vstd::arithmetic::power2::lemma2_to64();
        assert(r.fields@.len() == 3);
        assert(r.sentinels@.len() == 3);
        assert(r.sentinels@[0].values@.len() == 3);
        assert(crate::field::group_wf(r.sentinels@[0]));
        assert(r.fields@[0].pos == 4 && r.fields@[0].kind == Kind::Enumerated);
        assert(r.sentinels@[1].values@.len() == 3);
        assert(crate::field::group_wf(r.sentinels@[1]));
        assert(r.fields@[1].pos == 2 && r.fields@[1].kind == Kind::Enumerated);
        assert(r.sentinels@[2].values@.len() == 3);
        assert(crate::field::group_wf(r.sentinels@[2]));
        assert(r.fields@[2].pos == 0 && r.fields@[2].kind == Kind::Enumerated);
        assert(r.fields@ =~= fields_spec());
        assert(crate::engine::groups_match(r, groups_spec()));
        assert(r.sentinels@[0].values@ =~= seq![(Sentinel { name: "Ignore", raw: 0 }), (Sentinel { name: "Shutdown", raw: 1 }), (Sentinel { name: "Restart", raw: 2 })]);
        assert(r.sentinels@[1].values@ =~= seq![(Sentinel { name: "IgnoreFault", raw: 0 }), (Sentinel { name: "ShutdownUnit", raw: 1 }), (Sentinel { name: "RestartUnit", raw: 2 })]);
        assert(r.sentinels@[2].values@ =~= seq![(Sentinel { name: "NoResponse", raw: 0 }), (Sentinel { name: "UnitShutdown", raw: 1 }), (Sentinel { name: "UnitRestart", raw: 2 })]);
    }
    r
}

impl CommandData {
    /// Construct from the raw payload; the slice length must equal
    /// the declared width exactly: no truncation, no padding.
    pub fn from_slice(bytes: &[u8]) -> (r: Result<CommandData, Error>)
        ensures
            r is Ok <==> bytes@.len() == 1,
            r matches Err(e) ==> e == Error::InvalidLength,
            r matches Ok(d) ==> d.0 as int == le_value(bytes@),
    {
        match crate::engine::parse_bytes(bytes, 1) {
            Ok(v) => {
                proof {
                    vstd::arithmetic::power2::lemma2_to64();
                }
                Ok(CommandData(v as u8))
            },
            Err(e) => Err(e),
        }
    }

    /// Hand each declared field and its decoded value to the
    /// visitor, most significant field first.  The VOUT_MODE source
    /// is consulted only for fields that need an exponent.
    pub fn interpret<P: VOutModeSource, V: FieldVisitor>(
        &self,
        provider: &mut P,
        visitor: &mut V,
    ) -> (r: Result<(), Error>)
        ensures
            r is Ok,
    {
        let l = layout();
        crate::engine::interpret_with(&l, self.0 as u128, provider, visitor)
    }

    /// Walk the fields under the visitor's direction, validating and
    /// applying each proposed replacement in place.  On the first
    /// rejection the walk stops and the error is returned; fields
    /// already applied before the failing one remain applied.
    pub fn mutate<P: VOutModeSource, V: MutateVisitor>(
        &mut self,
        provider: &mut P,
        visitor: &mut V,
    ) -> (r: Result<(), Error>)
        ensures
            r matches Err(e) ==> (e == Error::InvalidReplacement
                || e == Error::OverflowReplacement || e == Error::ValueOutOfRange),
            forall|p: nat|
                p < 8 && !crate::engine::fields_claim_bit(fields_spec(), p as int)
                    ==> #[trigger] extract_bits(final(self).0 as int, p, 1) == extract_bits(
                    old(self).0 as int,
                    p,
                    1,
                ),
    {
        let l = layout();
        proof {
            vstd::arithmetic::power2::lemma2_to64();
        }
        let (nv, err) = crate::engine::mutate_fields(&l, self.0 as u128, provider, visitor);
        self.0 = nv as u8;
        proof {
            assert forall|p: nat|
                p < 8 && !crate::engine::fields_claim_bit(fields_spec(), p as int)
                    implies #[trigger] extract_bits(self.0 as int, p, 1) == extract_bits(
                old(self).0 as int,
                p,
                1,
            ) by {
                assert(extract_bits(nv as int, p, 1) == extract_bits(old(self).0 as int, p, 1));
            }
        }
        match err {
            None => Ok(()),
            Some(e) => Err(e),
        }
    }
}

} // verus!

use vstd::prelude::*;
use vstd::arithmetic::power2::pow2;
use crate::engine::{Layout, VOutModeSource, FieldVisitor, MutateVisitor};
use crate::field::{Error, Kind, Sentinel, SentinelGroup};
use crate::raw::{le_value, extract_bits, insert_bits};

verus! {

/// The OPERATION command data: on/off and margin control: 1 byte wide, code 0x01.
#[derive(Copy, Clone, Debug, PartialEq, Eq, Structural)]
pub struct CommandData(pub u8);

/// The declared fields, most significant first.
pub open spec fn fields_spec() -> Seq<crate::field::Field> {
    seq![
        crate::field::Field {
            name: "OnOffState",
            desc: "On/off state",
            pos: 7,
            width: 1,
            bitfield: true,
            kind: Kind::Enumerated,
        },
        crate::field::Field {
            name: "TurnOffBehavior",
            desc: "Behavior on turn off",
            pos: 6,
            width: 1,
            bitfield: true,
            kind: Kind::Enumerated,
        },
        crate::field::Field {
            name: "VoltageCommandSource",
            desc: "Source of output voltage command",
            pos: 4,
            width: 2,
            bitfield: true,
            kind: Kind::Enumerated,
        },
        crate::field::Field {
            name: "MarginFaultResponse",
            desc: "Response to margin fault",
            pos: 2,
            width: 2,
            bitfield: true,
            kind: Kind::Enumerated,
        },
        crate::field::Field {
            name: "TransitionControl",
            desc: "AVS transition control",
            pos: 1,
            width: 1,
            bitfield: true,
            kind: Kind::Enumerated,
        },
    ]
}

/// The declared sentinel groups, as plain data.
pub open spec fn groups_spec() -> Seq<(u8, u8, Seq<Sentinel>)> {
    seq![
        (7u8, 1u8, seq![(Sentinel { name: "Off", raw: 0 }), (Sentinel { name: "On", raw: 1 })]),
        (6u8, 1u8, seq![(Sentinel { name: "Immediate", raw: 0 }), (Sentinel { name: "SoftOff", raw: 1 })]),
        (4u8, 2u8, seq![(Sentinel { name: "VOUT_COMMAND", raw: 0 }), (Sentinel { name: "VOUT_MARGIN_LOW", raw: 1 }), (Sentinel { name: "VOUT_MARGIN_HIGH", raw: 2 }), (Sentinel { name: "AVS_VOUT_COMMAND", raw: 3 })]),
        (2u8, 2u8, seq![(Sentinel { name: "Ignore", raw: 1 }), (Sentinel { name: "ActOnFault", raw: 2 })]),
        (1u8, 1u8, seq![(Sentinel { name: "Disabled", raw: 0 }), (Sentinel { name: "Enabled", raw: 1 })]),
    ]
}

/// The catalog entry for OPERATION.
pub fn layout() -> (r: Layout)
    ensures
        r.wf(),
        r.code == 0x01,
        r.width == 1,
        r.fields@ == fields_spec(),
        crate::engine::groups_match(r, groups_spec()),
        r.sentinels@.len() == 5,
        r.sentinels@[0].pos == 7 && r.sentinels@[0].width == 1,
        r.sentinels@[0].values@ == seq![(Sentinel { name: "Off", raw: 0 }), (Sentinel { name: "On", raw: 1 })],
        r.sentinels@[1].pos == 6 && r.sentinels@[1].width == 1,
        r.sentinels@[1].values@ == seq![(Sentinel { name: "Immediate", raw: 0 }), (Sentinel { name: "SoftOff", raw: 1 })],
        r.sentinels@[2].pos == 4 && r.sentinels@[2].width == 2,
        r.sentinels@[2].values@ == seq![(Sentinel { name: "VOUT_COMMAND", raw: 0 }), (Sentinel { name: "VOUT_MARGIN_LOW", raw: 1 }), (Sentinel { name: "VOUT_MARGIN_HIGH", raw: 2 }), (Sentinel { name: "AVS_VOUT_COMMAND", raw: 3 })],
        r.sentinels@[3].pos == 2 && r.sentinels@[3].width == 2,
        r.sentinels@[3].values@ == seq![(Sentinel { name: "Ignore", raw: 1 }), (Sentinel { name: "ActOnFault", raw: 2 })],
        r.sentinels@[4].pos == 1 && r.sentinels@[4].width == 1,
        r.sentinels@[4].values@ == seq![(Sentinel { name: "Disabled", raw: 0 }), (Sentinel { name: "Enabled", raw: 1 })],
{
    let fields = vec![
        crate::field::Field {
            name: "OnOffState",
            desc: "On/off state",
            pos: 7,
            width: 1,
            bitfield: true,
            kind: Kind::Enumerated,
        },
        crate::field::Field {
            name: "TurnOffBehavior",
            desc: "Behavior on turn off",
            pos: 6,
            width: 1,
            bitfield: true,
            kind: Kind::Enumerated,
        },
        crate::field::Field {
            name: "VoltageCommandSource",
            desc: "Source of output voltage command",
            pos: 4,
            width: 2,
            bitfield: true,
            kind: Kind::Enumerated,
        },
        crate::field::Field {
            name: "MarginFaultResponse",
            desc: "Response to margin fault",
            pos: 2,
            width: 2,
            bitfield: true,
            kind: Kind::Enumerated,
        },
        crate::field::Field {
            name: "TransitionControl",
            desc: "AVS transition control",
            pos: 1,
            width: 1,
            bitfield: true,
            kind: Kind::Enumerated,
        },
    ];
    let sentinels = vec![
        SentinelGroup { pos: 7, width: 1, values: vec![Sentinel { name: "Off", raw: 0 }, Sentinel { name: "On", raw: 1 }] },
        SentinelGroup { pos: 6, width: 1, values: vec![Sentinel { name: "Immediate", raw: 0 }, Sentinel { name: "SoftOff", raw: 1 }] },
        SentinelGroup { pos: 4, width: 2, values: vec![Sentinel { name: "VOUT_COMMAND", raw: 0 }, Sentinel { name: "VOUT_MARGIN_LOW", raw: 1 }, Sentinel { name: "VOUT_MARGIN_HIGH", raw: 2 }, Sentinel { name: "AVS_VOUT_COMMAND", raw: 3 }] },
        SentinelGroup { pos: 2, width: 2, values: vec![Sentinel { name: "Ignore", raw: 1 }, Sentinel { name: "ActOnFault", raw: 2 }] },
        SentinelGroup { pos: 1, width: 1, values: vec![Sentinel { name: "Disabled", raw: 0 }, Sentinel { name: "Enabled", raw: 1 }] },
    ];
    let r = Layout { code: 0x01, name: "OPERATION", width: 1, fields, sentinels };
    proof {
        vstd::arithmetic::power2::lemma2_to64();
        assert(r.fields@.len() == 5);
        assert(r.sentinels@.len() == 5);
        assert(r.sentinels@[0].values@.len() == 2);
        assert(crate::field::group_wf(r.sentinels@[0]));
        assert(r.fields@[0].pos == 7 && r.fields@[0].kind == Kind::Enumerated);
        assert(r.sentinels@[1].values@.len() == 2);
        assert(crate::field::group_wf(r.sentinels@[1]));
        assert(r.fields@[1].pos == 6 && r.fields@[1].kind == Kind::Enumerated);
        assert(r.sentinels@[2].values@.len() == 4);
        assert(crate::field::group_wf(r.sentinels@[2]));
        assert(r.fields@[2].pos == 4 && r.fields@[2].kind == Kind::Enumerated);
        assert(r.sentinels@[3].values@.len() == 2);
        assert(crate::field::group_wf(r.sentinels@[3]));
        assert(r.fields@[3].pos == 2 && r.fields@[3].kind == Kind::Enumerated);
        assert(r.sentinels@[4].values@.len() == 2);
        assert(crate::field::group_wf(r.sentinels@[4]));
        assert(r.fields@[4].pos == 1 && r.fields@[4].kind == Kind::Enumerated);
        assert(r.fields@ =~= fields_spec());
        assert(crate::engine::groups_match(r, groups_spec()));
        assert(r.sentinels@[0].values@ =~= seq![(Sentinel { name: "Off", raw: 0 }), (Sentinel { name: "On", raw: 1 })]);
        assert(r.sentinels@[1].values@ =~= seq![(Sentinel { name: "Immediate", raw: 0 }), (Sentinel { name: "SoftOff", raw: 1 })]);
        assert(r.sentinels@[2].values@ =~= seq![(Sentinel { name: "VOUT_COMMAND", raw: 0 }), (Sentinel { name: "VOUT_MARGIN_LOW", raw: 1 }), (Sentinel { name: "VOUT_MARGIN_HIGH", raw: 2 }), (Sentinel { name: "AVS_VOUT_COMMAND", raw: 3 })]);
        assert(r.sentinels@[3].values@ =~= seq![(Sentinel { name: "Ignore", raw: 1 }), (Sentinel { name: "ActOnFault", raw: 2 })]);
        assert(r.sentinels@[4].values@ =~= seq![(Sentinel { name: "Disabled", raw: 0 }), (Sentinel { name: "Enabled", raw: 1 })]);
    }
    r
}

/// The decoded on/off state of the OPERATION command.
#[derive(Copy, Clone, Debug, PartialEq, Eq, Structural)]
pub enum OnOffState {
    Off,
    On,
}

/// The selectable sources of the output voltage command.
#[derive(Copy, Clone, Debug, PartialEq, Eq, Structural)]
#[allow(non_camel_case_types)]
pub enum VoltageCommandSource {
    VOUT_COMMAND,
    VOUT_MARGIN_LOW,
    VOUT_MARGIN_HIGH,
    AVS_VOUT_COMMAND,
}

/// The two-bit code of a voltage command source.
pub open spec fn source_code_spec(s: VoltageCommandSource) -> u8 {
    match s {
        VoltageCommandSource::VOUT_COMMAND => 0,
        VoltageCommandSource::VOUT_MARGIN_LOW => 1,
        VoltageCommandSource::VOUT_MARGIN_HIGH => 2,
        VoltageCommandSource::AVS_VOUT_COMMAND => 3,
    }
}

impl CommandData {
    /// Construct from the raw payload; the slice length must equal
    /// the declared width exactly: no truncation, no padding.
    pub fn from_slice(bytes: &[u8]) -> (r: Result<CommandData, Error>)
        ensures
            r is Ok <==> bytes@.len() == 1,
            r matches Err(e) ==> e == Error::InvalidLength,
            r matches Ok(d) ==> d.0 as int == le_value(bytes@),
    {
        match crate::engine::parse_bytes(bytes, 1) {
            Ok(v) => {
                proof {
                    vstd::arithmetic::power2::lemma2_to64();
                }
                Ok(CommandData(v as u8))
            },
            Err(e) => Err(e),
        }
    }

    /// Hand each declared field and its decoded value to the
    /// visitor, most significant field first.  The VOUT_MODE source
    /// is consulted only for fields that need an exponent.
    pub fn interpret<P: VOutModeSource, V: FieldVisitor>(
        &self,
        provider: &mut P,
        visitor: &mut V,
    ) -> (r: Result<(), Error>)
        ensures
            r is Ok,
    {
        let l = layout();
        crate::engine::interpret_with(&l, self.0 as u128, provider, visitor)
    }

    /// Walk the fields under the visitor's direction, validating and
    /// applying each proposed replacement in place.  On the first
    /// rejection the walk stops and the error is returned; fields
    /// already applied before the failing one remain applied.
    pub fn mutate<P: VOutModeSource, V: MutateVisitor>(
        &mut self,
        provider: &mut P,
        visitor: &mut V,
    ) -> (r: Result<(), Error>)
        ensures
            r matches Err(e) ==> (e == Error::InvalidReplacement
                || e == Error::OverflowReplacement || e == Error::ValueOutOfRange),
            forall|p: nat|
                p < 8 && !crate::engine::fields_claim_bit(fields_spec(), p as int)
                    ==> #[trigger] extract_bits(final(self).0 as int, p, 1) == extract_bits(
                    old(self).0 as int,
                    p,
                    1,
                ),
    {
        let l = layout();
        proof {
            vstd::arithmetic::power2::lemma2_to64();
        }
        let (nv, err) = crate::engine::mutate_fields(&l, self.0 as u128, provider, visitor);
        self.0 = nv as u8;
        proof {
            assert forall|p: nat|
                p < 8 && !crate::engine::fields_claim_bit(fields_spec(), p as int)
                    implies #[trigger] extract_bits(self.0 as int, p, 1) == extract_bits(
                old(self).0 as int,
                p,
                1,
            ) by {
                assert(extract_bits(nv as int, p, 1) == extract_bits(old(self).0 as int, p, 1));
            }
        }
        match err {
            None => Ok(()),
            Some(e) => Err(e),
        }
    }

    /// Enumerate the named values of the enumeration field at the
    /// given bit position; the raw codes never repeat.  Fails with
    /// `InvalidField` when no enumeration field sits there.
    pub fn sentinels(pos: crate::field::Bitpos) -> (r: Result<Vec<Sentinel>, Error>)
        ensures
            r matches Err(e) ==> e == Error::InvalidField,
            r matches Ok(v) ==> forall|i: int, j: int|
                0 <= i < j < v@.len() ==> v@[i].raw != v@[j].raw,
    {
        let l = layout();
        crate::engine::sentinels_at(&l, pos.0)
    }

    /// The decoded on/off state bit.
    pub fn get_on_off_state(&self) -> (r: Option<OnOffState>)
        ensures
            r == Some(
                if extract_bits(self.0 as int, 7, 1) == 1 {
                    OnOffState::On
                } else {
                    OnOffState::Off
                },
            ),
    {
        let v = crate::raw::extract(self.0 as u128, 7, 1);
        if v == 1 {
            Some(OnOffState::On)
        } else {
            Some(OnOffState::Off)
        }
    }

    /// The decoded voltage command source field.
    pub fn get_voltage_command_source(&self) -> (r: Option<VoltageCommandSource>)
        ensures
            r matches Some(s) && source_code_spec(s) as int == extract_bits(self.0 as int, 4, 2),
    {
        proof {
            vstd::arithmetic::power2::lemma2_to64();
        }
        let v = crate::raw::extract(self.0 as u128, 4, 2);
        if v == 0 {
            Some(VoltageCommandSource::VOUT_COMMAND)
        } else if v == 1 {
            Some(VoltageCommandSource::VOUT_MARGIN_LOW)
        } else if v == 2 {
            Some(VoltageCommandSource::VOUT_MARGIN_HIGH)
        } else {
            Some(VoltageCommandSource::AVS_VOUT_COMMAND)
        }
    }

    /// Point the output voltage command at a new source, leaving every
    /// other field's bits untouched.
    pub fn set_voltage_command_source(&mut self, source: VoltageCommandSource)
        ensures
            final(self).0 as int == insert_bits(
                old(self).0 as int,
                4,
                2,
                source_code_spec(source) as int,
            ),
    {
        let code: u128 = match source {
            VoltageCommandSource::VOUT_COMMAND => 0,
            VoltageCommandSource::VOUT_MARGIN_LOW => 1,
            VoltageCommandSource::VOUT_MARGIN_HIGH => 2,
            VoltageCommandSource::AVS_VOUT_COMMAND => 3,
        };
        proof {
            vstd::arithmetic::power2::lemma2_to64();
            crate::raw::lemma_insert_bits(self.0 as int, 4, 2, code as int, 8);
        }
        let nv = crate::raw::insert(self.0 as u128, 4, 2, code);
        self.0 = nv as u8;
    }
}

} // verus!

use vstd::prelude::*;
use vstd::arithmetic::power2::pow2;
use crate::engine::{Layout, VOutModeSource, FieldVisitor, MutateVisitor};
use crate::field::{Error, Kind, Sentinel, SentinelGroup};
use crate::raw::{le_value, extract_bits, insert_bits};

verus! {

/// The CAPABILITY command data: what the device supports on the bus: 1 byte wide, code 0x19.
#[derive(Copy, Clone, Debug, PartialEq, Eq, Structural)]
pub struct CommandData(pub u8);

/// The declared fields, most significant first.
pub open spec fn fields_spec() -> Seq<crate::field::Field> {
    seq![
        crate::field::Field {
            name: "PacketErrorChecking",
            desc: "Packet error checking supported",
            pos: 7,
            width: 1,
            bitfield: true,
            kind: Kind::Boolean,
        },
        crate::field::Field {
            name: "MaximumBusSpeed",
            desc: "Maximum supported bus speed",
            pos: 5,
            width: 2,
            bitfield: true,
            kind: Kind::Enumerated,
        },
        crate::field::Field {
            name: "SMBAlert",
            desc: "SMBALERT# supported",
            pos: 4,
            width: 1,
            bitfield: true,
            kind: Kind::Boolean,
        },
    ]
}

/// The declared sentinel groups, as plain data.
pub open spec fn groups_spec() -> Seq<(u8, u8, Seq<Sentinel>)> {
    seq![
        (5u8, 2u8, seq![(Sentinel { name: "100kHz", raw: 0 }), (Sentinel { name: "400kHz", raw: 1 }), (Sentinel { name: "1MHz", raw: 2 })]),
    ]
}

/// The catalog entry for CAPABILITY.
pub fn layout() -> (r: Layout)
    ensures
        r.wf(),
        r.code == 0x19,
        r.width == 1,
        r.fields@ == fields_spec(),
        crate::engine::groups_match(r, groups_spec()),
        r.sentinels@.len() == 1,
        r.sentinels@[0].pos == 5 && r.sentinels@[0].width == 2,
        r.sentinels@[0].values@ == seq![(Sentinel { name: "100kHz", raw: 0 }), (Sentinel { name: "400kHz", raw: 1 }), (Sentinel { name: "1MHz", raw: 2 })],
{
    let fields = vec![
        crate::field::Field {
            name: "PacketErrorChecking",
            desc: "Packet error checking supported",
            pos: 7,
            width: 1,
            bitfield: true,
            kind: Kind::Boolean,
        },
        crate::field::Field {
            name: "MaximumBusSpeed",
            desc: "Maximum supported bus speed",
            pos: 5,
            width: 2,
            bitfield: true,
            kind: Kind::Enumerated,
        },
        crate::field::Field {
            name: "SMBAlert",
            desc: "SMBALERT# supported",
            pos: 4,
            width: 1,
            bitfield: true,
            kind: Kind::Boolean,
        },
    ];
    let sentinels = vec![
        SentinelGroup { pos: 5, width: 2, values: vec![Sentinel { name: "100kHz", raw: 0 }, Sentinel { name: "400kHz", raw: 1 }, Sentinel { name: "1MHz", raw: 2 }] },
    ];
    let r = Layout { code: 0x19, name: "CAPABILITY", width: 1, fields, sentinels };
    proof {
        vstd::arithmetic::power2::lemma2_to64();
        assert(r.fields@.len() == 3);
        assert(r.sentinels@.len() == 1);
        assert(r.sentinels@[0].values@.len() == 3);
        assert(crate::field::group_wf(r.sentinels@[0]));
        assert(r.fields@[1].pos == 5 && r.fields@[1].kind == Kind::Enumerated);
        assert(r.fields@ =~= fields_spec());
        assert(crate::engine::groups_match(r, groups_spec()));
        assert(r.sentinels@[0].values@ =~= seq![(Sentinel { name: "100kHz", raw: 0 }), (Sentinel { name: "400kHz", raw: 1 }), (Sentinel { name: "1MHz", raw: 2 })]);
    }
    r
}

/// Selects one of CAPABILITY's declared fields.
#[derive(Copy, Clone, Debug, PartialEq, Eq, Structural)]
pub enum Field {
    PacketErrorChecking,
    MaximumBusSpeed,
    SMBAlert,
}

/// The index of the selected field in the declared field list.
pub open spec fn selected_index_spec(field: Field) -> int {
    match field {
        Field::PacketErrorChecking => 0,
        Field::MaximumBusSpeed => 1,
        Field::SMBAlert => 2,
    }
}

/// The named values of the selected field; the boolean fields have none.
pub open spec fn selected_vals_spec(field: Field) -> Seq<Sentinel> {
    match field {
        Field::MaximumBusSpeed => seq![
            (Sentinel { name: "100kHz", raw: 0 }),
            (Sentinel { name: "400kHz", raw: 1 }),
            (Sentinel { name: "1MHz", raw: 2 }),
        ],
        _ => Seq::empty(),
    }
}

impl Field {
    /// The name of the selected field, as declared in the catalog.
    pub fn name(&self) -> (r: &'static str) {
        match *self {
            Field::PacketErrorChecking => "PacketErrorChecking",
            Field::MaximumBusSpeed => "MaximumBusSpeed",
            Field::SMBAlert => "SMBAlert",
        }
    }

    /// The bit position of the selected field.
    pub fn pos(&self) -> (r: u8)
        ensures
            r == match *self {
                Field::PacketErrorChecking => 7u8,
                Field::MaximumBusSpeed => 5u8,
                Field::SMBAlert => 4u8,
            },
    {
        match *self {
            Field::PacketErrorChecking => 7,
            Field::MaximumBusSpeed => 5,
            Field::SMBAlert => 4,
        }
    }
}

impl CommandData {
    /// Construct from the raw payload; the slice length must equal
    /// the declared width exactly: no truncation, no padding.
    pub fn from_slice(bytes: &[u8]) -> (r: Result<CommandData, Error>)
        ensures
            r is Ok <==> bytes@.len() == 1,
            r matches Err(e) ==> e == Error::InvalidLength,
            r matches Ok(d) ==> d.0 as int == le_value(bytes@),
    {
        match crate::engine::parse_bytes(bytes, 1) {
            Ok(v) => {
                proof {
                    vstd::arithmetic::power2::lemma2_to64();
                }
                Ok(CommandData(v as u8))
            },
            Err(e) => Err(e),
        }
    }

    /// Hand each declared field and its decoded value to the
    /// visitor, most significant field first.  The VOUT_MODE source
    /// is consulted only for fields that need an exponent.
    pub fn interpret<P: VOutModeSource, V: FieldVisitor>(
        &self,
        provider: &mut P,
        visitor: &mut V,
    ) -> (r: Result<(), Error>)
        ensures
            r is Ok,
    {
        let l = layout();
        crate::engine::interpret_with(&l, self.0 as u128, provider, visitor)
    }

    /// Walk the fields under the visitor's direction, validating and
    /// applying each proposed replacement in place.  On the first
    /// rejection the walk stops and the error is returned; fields
    /// already applied before the failing one remain applied.
    pub fn mutate<P: VOutModeSource, V: MutateVisitor>(
        &mut self,
        provider: &mut P,
        visitor: &mut V,
    ) -> (r: Result<(), Error>)
        ensures
            r matches Err(e) ==> (e == Error::InvalidReplacement
                || e == Error::OverflowReplacement || e == Error::ValueOutOfRange),
            forall|p: nat|
                p < 8 && !crate::engine::fields_claim_bit(fields_spec(), p as int)
                    ==> #[trigger] extract_bits(final(self).0 as int, p, 1) == extract_bits(
                    old(self).0 as int,
                    p,
                    1,
                ),
    {
        let l = layout();
        proof {
            vstd::arithmetic::power2::lemma2_to64();
        }
        let (nv, err) = crate::engine::mutate_fields(&l, self.0 as u128, provider, visitor);
        self.0 = nv as u8;
        proof {
            assert forall|p: nat|
                p < 8 && !crate::engine::fields_claim_bit(fields_spec(), p as int)
                    implies #[trigger] extract_bits(self.0 as int, p, 1) == extract_bits(
                old(self).0 as int,
                p,
                1,
            ) by {
                assert(extract_bits(nv as int, p, 1) == extract_bits(old(self).0 as int, p, 1));
            }
        }
        match err {
            None => Ok(()),
            Some(e) => Err(e),
        }
    }

    /// Decode the selected field of this payload: the named-field query
    /// variant of interpretation.  Every selector names a declared
    /// field, so the query cannot fail, and the result is exactly the
    /// field's decoding against the raw byte.
    pub fn get(&self, field: Field) -> (r: Result<crate::field::Value, Error>)
        ensures
            r == Ok::<crate::field::Value, Error>(crate::engine::decode_field_spec(
                fields_spec()[selected_index_spec(field)],
                selected_vals_spec(field),
                self.0 as int,
                0,
            )),
    {
        let l = layout();
        let empty: Vec<Sentinel> = Vec::new();
        proof {
            assert(empty@ =~= Seq::<Sentinel>::empty());
        }
        let v = match field {
            Field::PacketErrorChecking => {
                let f = l.fields[0];
                crate::engine::decode_field(&f, &empty, self.0 as u128, 0)
            },
            Field::MaximumBusSpeed => {
                let f = l.fields[1];
                proof {
                    assert(crate::field::group_wf(l.sentinels@[0]));
                    assert(selected_vals_spec(field) =~= l.sentinels@[0].values@);
                }
                crate::engine::decode_field(&f, &l.sentinels[0].values, self.0 as u128, 0)
            },
            Field::SMBAlert => {
                let f = l.fields[2];
                crate::engine::decode_field(&f, &empty, self.0 as u128, 0)
            },
        };
        Ok(v)
    }
}

} // verus!

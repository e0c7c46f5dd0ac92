use vstd::prelude::*;
use vstd::arithmetic::power2::pow2;
use crate::engine::{Layout, VOutModeSource, FieldVisitor};
use crate::field::{Error, Field, Kind, Sentinel, SentinelGroup};
use crate::raw::le_value;

verus! {

/// The VOUT_MODE command data: one byte holding the output-voltage data
/// format selector and its 5-bit signed parameter.  For the linear mode
/// the parameter is the ULINEAR16 exponent that governs every
/// VOUT-family command.
#[derive(Copy, Clone, Debug, PartialEq, Eq, Structural)]
pub struct CommandData(pub u8);

/// The signed value of the low five bits of the VOUT_MODE byte.
pub open spec fn parameter_spec(w: int) -> int {
    if w % 32 >= 16 {
        w % 32 - 32
    } else {
        w % 32
    }
}

impl CommandData {
    /// Construct from the raw payload; the slice must be exactly one
    /// byte.
    pub fn from_slice(bytes: &[u8]) -> (r: Result<CommandData, Error>)
        ensures
            r is Ok <==> bytes@.len() == 1,
            r matches Err(e) ==> e == Error::InvalidLength,
            r matches Ok(d) ==> d.0 as int == le_value(bytes@),
    {
        match crate::engine::parse_bytes(bytes, 1) {
            Ok(v) => {
                proof {
                    vstd::arithmetic::power2::lemma2_to64();
                }
                Ok(CommandData(v as u8))
            },
            Err(e) => Err(e),
        }
    }

    /// The signed exponent parameter in the low five bits.
    pub fn get_parameter(&self) -> (r: i8)
        ensures
            r as int == parameter_spec(self.0 as int),
            -16 <= r <= 15,
    {
        let p = self.0 % 32;
        if p >= 16 {
            (p as i8) - 32
        } else {
            p as i8
        }
    }

    /// The same exponent, for the engine's ULINEAR16 decoding.
    pub fn parameter(&self) -> (r: i8)
        ensures
            r as int == parameter_spec(self.0 as int),
            -16 <= r <= 15,
    {
        self.get_parameter()
    }

    /// Replace the exponent parameter.  Fails with `ValueOutOfRange`
    /// exactly when the value cannot be carried in five signed bits; the
    /// mode bits are untouched.
    pub fn set_parameter(&mut self, p: i8) -> (r: Result<(), Error>)
        ensures
            r is Ok <==> -16 <= p <= 15,
            r matches Err(e) ==> e == Error::ValueOutOfRange && *final(self) == *old(self),
            r is Ok ==> parameter_spec(final(self).0 as int) == p as int && final(self).0 as int / 32
                == old(self).0 as int / 32,
    {
        if p < -16 || p > 15 {
            return Err(Error::ValueOutOfRange);
        }
        let bits: u8 = if p < 0 {
            (p + 32) as u8
        } else {
            p as u8
        };
        let upper = self.0 - self.0 % 32;
        let nv = upper + bits;
        proof {
            let o = old(self).0 as int;
            vstd::arithmetic::div_mod::lemma_fundamental_div_mod(o, 32);
            vstd::arithmetic::div_mod::lemma_fundamental_div_mod_converse(
                nv as int,
                32,
                o / 32,
                bits as int,
            );
        }
        self.0 = nv;
        Ok(())
    }

    /// Hand each declared field and its decoded value to the visitor,
    /// most significant field first.
    pub fn interpret<P: VOutModeSource, V: FieldVisitor>(
        &self,
        provider: &mut P,
        visitor: &mut V,
    ) -> (r: Result<(), Error>)
        ensures
            r is Ok,
    {
        let l = layout();
        crate::engine::interpret_with(&l, self.0 as u128, provider, visitor)
    }
}

/// The declared fields, most significant first.
pub open spec fn fields_spec() -> Seq<Field> {
    seq![
        Field {
            name: "Mode",
            desc: "Output voltage mode",
            pos: 5,
            width: 2,
            bitfield: true,
            kind: Kind::Enumerated,
        },
        Field {
            name: "Parameter",
            desc: "Mode parameter",
            pos: 0,
            width: 5,
            bitfield: true,
            kind: Kind::Unsigned,
        },
    ]
}

/// The declared sentinel groups, as plain data.
pub open spec fn groups_spec() -> Seq<(u8, u8, Seq<Sentinel>)> {
    seq![
        (5u8, 2u8, seq![
            (Sentinel { name: "Linear", raw: 0 }),
            (Sentinel { name: "VID", raw: 1 }),
            (Sentinel { name: "Direct", raw: 2 }),
        ]),
    ]
}

/// The declared data definition of VOUT_MODE.
pub fn layout() -> (r: Layout)
    ensures
        r.wf(),
        r.code == 0x20,
        r.width == 1,
        r.fields@ == fields_spec(),
        crate::engine::groups_match(r, groups_spec()),
        r.sentinels@.len() == 1,
        r.sentinels@[0].pos == 5 && r.sentinels@[0].width == 2,
        r.sentinels@[0].values@ == seq![
            (Sentinel { name: "Linear", raw: 0 }),
            (Sentinel { name: "VID", raw: 1 }),
            (Sentinel { name: "Direct", raw: 2 }),
        ],
{
    let fields = vec![
        Field {
            name: "Mode",
            desc: "Output voltage mode",
            pos: 5,
            width: 2,
            bitfield: true,
            kind: Kind::Enumerated,
        },
        Field {
            name: "Parameter",
            desc: "Mode parameter",
            pos: 0,
            width: 5,
            bitfield: true,
            kind: Kind::Unsigned,
        },
    ];
    let modes = vec![
        Sentinel { name: "Linear", raw: 0 },
        Sentinel { name: "VID", raw: 1 },
        Sentinel { name: "Direct", raw: 2 },
    ];
    let sentinels = vec![SentinelGroup { pos: 5, width: 2, values: modes }];
    let r = Layout { code: 0x20, name: "VOUT_MODE", width: 1, fields, sentinels };
    proof {
        vstd::arithmetic::power2::lemma2_to64();
        assert(r.fields@.len() == 2);
        assert(r.sentinels@.len() == 1);
        assert(r.sentinels@[0].values@.len() == 3);
        assert(crate::field::group_wf(r.sentinels@[0]));
        assert(r.fields@[0].pos == 5 && r.fields@[0].kind == Kind::Enumerated);
        assert(r.fields@ =~= fields_spec());
        assert(r.sentinels@[0].values@ =~= seq![
            (Sentinel { name: "Linear", raw: 0 }),
            (Sentinel { name: "VID", raw: 1 }),
            (Sentinel { name: "Direct", raw: 2 }),
        ]);
        assert(crate::engine::groups_match(r, groups_spec()));
    }
    r
}

} // verus!

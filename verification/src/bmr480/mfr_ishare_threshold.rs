use vstd::prelude::*;
use vstd::arithmetic::power2::pow2;
use crate::engine::{Layout, VOutModeSource, FieldVisitor, MutateVisitor};
use crate::field::{Error, Kind, Sentinel, SentinelGroup};
use crate::raw::{le_value, extract_bits, insert_bits};
use crate::codec::{Coefficients, Direct, direct_scaled};
use crate::fixed::Fixed;

verus! {

/// The MFR_ISHARE_THRESHOLD register of this family: current share tuning: 8 bytes wide, code 0xd7.
#[derive(Copy, Clone, Debug, PartialEq, Eq, Structural)]
pub struct CommandData(pub u64);

/// The declared fields, most significant first.
pub open spec fn fields_spec() -> Seq<crate::field::Field> {
    seq![
        crate::field::Field {
            name: "RampUpTime",
            desc: "Current share ramp up time",
            pos: 56,
            width: 8,
            bitfield: true,
            kind: Kind::Unsigned,
        },
        crate::field::Field {
            name: "Threshold2",
            desc: "Secondary share threshold",
            pos: 40,
            width: 16,
            bitfield: true,
            kind: Kind::Unsigned,
        },
        crate::field::Field {
            name: "TrimLimit",
            desc: "Largest allowed share trim",
            pos: 24,
            width: 16,
            bitfield: true,
            kind: Kind::Direct(Coefficients { m: 500, b: 15, R: 0 }),
        },
        crate::field::Field {
            name: "Threshold1",
            desc: "Primary share threshold",
            pos: 16,
            width: 8,
            bitfield: true,
            kind: Kind::Unsigned,
        },
        crate::field::Field {
            name: "Gain",
            desc: "Share loop gain",
            pos: 8,
            width: 8,
            bitfield: true,
            kind: Kind::Unsigned,
        },
        crate::field::Field {
            name: "Window",
            desc: "Share comparison window",
            pos: 0,
            width: 8,
            bitfield: true,
            kind: Kind::Unsigned,
        },
    ]
}

/// The declared sentinel groups, as plain data: this command has
/// no enumeration fields.
pub open spec fn groups_spec() -> Seq<(u8, u8, Seq<Sentinel>)> {
    Seq::empty()
}

/// The catalog entry for MFR_ISHARE_THRESHOLD.
pub fn layout() -> (r: Layout)
    ensures
        r.wf(),
        r.code == 0xd7,
        r.width == 8,
        r.fields@ == fields_spec(),
        crate::engine::groups_match(r, groups_spec()),
{
    let fields = vec![
        crate::field::Field {
            name: "RampUpTime",
            desc: "Current share ramp up time",
            pos: 56,
            width: 8,
            bitfield: true,
            kind: Kind::Unsigned,
        },
        crate::field::Field {
            name: "Threshold2",
            desc: "Secondary share threshold",
            pos: 40,
            width: 16,
            bitfield: true,
            kind: Kind::Unsigned,
        },
        crate::field::Field {
            name: "TrimLimit",
            desc: "Largest allowed share trim",
            pos: 24,
            width: 16,
            bitfield: true,
            kind: Kind::Direct(Coefficients { m: 500, b: 15, R: 0 }),
        },
        crate::field::Field {
            name: "Threshold1",
            desc: "Primary share threshold",
            pos: 16,
            width: 8,
            bitfield: true,
            kind: Kind::Unsigned,
        },
        crate::field::Field {
            name: "Gain",
            desc: "Share loop gain",
            pos: 8,
            width: 8,
            bitfield: true,
            kind: Kind::Unsigned,
        },
        crate::field::Field {
            name: "Window",
            desc: "Share comparison window",
            pos: 0,
            width: 8,
            bitfield: true,
            kind: Kind::Unsigned,
        },
    ];
    let sentinels: Vec<SentinelGroup> = Vec::new();
    let r = Layout { code: 0xd7, name: "MFR_ISHARE_THRESHOLD", width: 8, fields, sentinels };
    proof {
        vstd::arithmetic::power2::lemma2_to64();
        assert(r.fields@.len() == 6);
        assert(r.sentinels@.len() == 0);
        assert(r.fields@ =~= fields_spec());
        assert(crate::engine::groups_match(r, groups_spec()));
    }
    r
}

impl CommandData {
    /// Construct from the raw payload; the slice length must equal
    /// the declared width exactly: no truncation, no padding.
    pub fn from_slice(bytes: &[u8]) -> (r: Result<CommandData, Error>)
        ensures
            r is Ok <==> bytes@.len() == 8,
            r matches Err(e) ==> e == Error::InvalidLength,
            r matches Ok(d) ==> d.0 as int == le_value(bytes@),
    {
        match crate::engine::parse_bytes(bytes, 8) {
            Ok(v) => {
                proof {
                    vstd::arithmetic::power2::lemma2_to64();
                }
                Ok(CommandData(v as u64))
            },
            Err(e) => Err(e),
        }
    }

    /// Hand each declared field and its decoded value to the
    /// visitor, most significant field first.  The VOUT_MODE source
    /// is consulted only for fields that need an exponent.
    pub fn interpret<P: VOutModeSource, V: FieldVisitor>(
        &self,
        provider: &mut P,
        visitor: &mut V,
    ) -> (r: Result<(), Error>)
        ensures
            r is Ok,
    {
        let l = layout();
        crate::engine::interpret_with(&l, self.0 as u128, provider, visitor)
    }

    /// Walk the fields under the visitor's direction, validating and
    /// applying each proposed replacement in place.  On the first
    /// rejection the walk stops and the error is returned; fields
    /// already applied before the failing one remain applied.
    pub fn mutate<P: VOutModeSource, V: MutateVisitor>(
        &mut self,
        provider: &mut P,
        visitor: &mut V,
    ) -> (r: Result<(), Error>)
        ensures
            r matches Err(e) ==> (e == Error::InvalidReplacement
                || e == Error::OverflowReplacement || e == Error::ValueOutOfRange),
            forall|p: nat|
                p < 64 && !crate::engine::fields_claim_bit(fields_spec(), p as int)
                    ==> #[trigger] extract_bits(final(self).0 as int, p, 1) == extract_bits(
                    old(self).0 as int,
                    p,
                    1,
                ),
    {
        let l = layout();
        proof {
            vstd::arithmetic::power2::lemma2_to64();
        }
        let (nv, err) = crate::engine::mutate_fields(&l, self.0 as u128, provider, visitor);
        self.0 = nv as u64;
        proof {
            assert forall|p: nat|
                p < 64 && !crate::engine::fields_claim_bit(fields_spec(), p as int)
                    implies #[trigger] extract_bits(self.0 as int, p, 1) == extract_bits(
                old(self).0 as int,
                p,
                1,
            ) by {
                assert(extract_bits(nv as int, p, 1) == extract_bits(old(self).0 as int, p, 1));
            }
        }
        match err {
            None => Ok(()),
            Some(e) => Err(e),
        }
    }

    /// The trim limit datum, with this register's catalog coefficients
    /// attached.
    pub fn get_trim_limit(&self) -> (r: Direct)
        ensures
            r.0 as int == extract_bits(self.0 as int, 24, 16),
            r.1 == (Coefficients { m: 500, b: 15, R: 0 }),
    {
        proof {
            vstd::arithmetic::power2::lemma2_to64();
        }
        let v = crate::raw::extract(self.0 as u128, 24, 16);
        Direct(v as u16, Coefficients { m: 500, b: 15, R: 0 })
    }

    /// Encode a new trim limit and store it; every other field's bits
    /// are untouched.  DIRECT encoding is total, so this cannot fail.
    pub fn set_trim_limit(&mut self, value: Fixed) -> (r: Result<(), Error>)
        ensures
            r is Ok,
            final(self).0 as int == insert_bits(
                old(self).0 as int,
                24,
                16,
                direct_scaled(value.units(), 500, 15, 0) % (pow2(16) as int),
            ),
    {
        let d = Direct::from_fixed(value, Coefficients { m: 500, b: 15, R: 0 });
        proof {
            vstd::arithmetic::power2::lemma2_to64();
            vstd::arithmetic::div_mod::lemma_mod_bound(
                direct_scaled(value.units(), 500, 15, 0),
                pow2(16) as int,
            );
            crate::raw::lemma_insert_bits(self.0 as int, 24, 16, d.0 as int, 64);
        }
        let nv = crate::raw::insert(self.0 as u128, 24, 16, d.0 as u128);
        self.0 = nv as u64;
        Ok(())
    }
}

} // verus!

use vstd::prelude::*;
use vstd::arithmetic::power2::pow2;
use crate::engine::{Layout, VOutModeSource, FieldVisitor, MutateVisitor};
use crate::field::{Error, Kind, Sentinel, SentinelGroup};
use crate::raw::{le_value, extract_bits, insert_bits};
use crate::codec::{Coefficients, Direct};

verus! {

/// The PEAK_VOUT register of this part: the peak output voltage in the DIRECT format: 2 bytes wide, code 0xd2.
#[derive(Copy, Clone, Debug, PartialEq, Eq, Structural)]
pub struct CommandData(pub u16);

/// The declared fields, most significant first.
pub open spec fn fields_spec() -> Seq<crate::field::Field> {
    seq![
        crate::field::Field {
            name: "PEAK_VOUT",
            desc: "Measured peak output voltage",
            pos: 0,
            width: 16,
            bitfield: false,
            kind: Kind::DirectCaller,
        },
    ]
}

/// The declared sentinel groups, as plain data: this command has
/// no enumeration fields.
pub open spec fn groups_spec() -> Seq<(u8, u8, Seq<Sentinel>)> {
    Seq::empty()
}

/// The catalog entry for PEAK_VOUT.
pub fn layout() -> (r: Layout)
    ensures
        r.wf(),
        r.code == 0xd2,
        r.width == 2,
        r.fields@ == fields_spec(),
        crate::engine::groups_match(r, groups_spec()),
{
    let fields = vec![
        crate::field::Field {
            name: "PEAK_VOUT",
            desc: "Measured peak output voltage",
            pos: 0,
            width: 16,
            bitfield: false,
            kind: Kind::DirectCaller,
        },
    ];
    let sentinels: Vec<SentinelGroup> = Vec::new();
    let r = Layout { code: 0xd2, name: "PEAK_VOUT", width: 2, fields, sentinels };
    proof {
        vstd::arithmetic::power2::lemma2_to64();
        assert(r.fields@.len() == 1);
        assert(r.sentinels@.len() == 0);
        assert(r.fields@ =~= fields_spec());
        assert(crate::engine::groups_match(r, groups_spec()));
    }
    r
}

impl CommandData {
    /// Construct from the raw payload; the slice length must equal
    /// the declared width exactly: no truncation, no padding.
    pub fn from_slice(bytes: &[u8]) -> (r: Result<CommandData, Error>)
        ensures
            r is Ok <==> bytes@.len() == 2,
            r matches Err(e) ==> e == Error::InvalidLength,
            r matches Ok(d) ==> d.0 as int == le_value(bytes@),
    {
        match crate::engine::parse_bytes(bytes, 2) {
            Ok(v) => {
                proof {
                    vstd::arithmetic::power2::lemma2_to64();
                }
                Ok(CommandData(v as u16))
            },
            Err(e) => Err(e),
        }
    }

    /// Hand each declared field and its decoded value to the
    /// visitor, most significant field first.  The VOUT_MODE source
    /// is consulted only for fields that need an exponent.
    pub fn interpret<P: VOutModeSource, V: FieldVisitor>(
        &self,
        provider: &mut P,
        visitor: &mut V,
    ) -> (r: Result<(), Error>)
        ensures
            r is Ok,
    {
        let l = layout();
        crate::engine::interpret_with(&l, self.0 as u128, provider, visitor)
    }

    /// Walk the fields under the visitor's direction, validating and
    /// applying each proposed replacement in place.  On the first
    /// rejection the walk stops and the error is returned; fields
    /// already applied before the failing one remain applied.
    pub fn mutate<P: VOutModeSource, V: MutateVisitor>(
        &mut self,
        provider: &mut P,
        visitor: &mut V,
    ) -> (r: Result<(), Error>)
        ensures
            r matches Err(e) ==> (e == Error::InvalidReplacement
                || e == Error::OverflowReplacement || e == Error::ValueOutOfRange),
            forall|p: nat|
                p < 16 && !crate::engine::fields_claim_bit(fields_spec(), p as int)
                    ==> #[trigger] extract_bits(final(self).0 as int, p, 1) == extract_bits(
                    old(self).0 as int,
                    p,
                    1,
                ),
    {
        let l = layout();
        proof {
            vstd::arithmetic::power2::lemma2_to64();
        }
        let (nv, err) = crate::engine::mutate_fields(&l, self.0 as u128, provider, visitor);
        self.0 = nv as u16;
        proof {
            assert forall|p: nat|
                p < 16 && !crate::engine::fields_claim_bit(fields_spec(), p as int)
                    implies #[trigger] extract_bits(self.0 as int, p, 1) == extract_bits(
                old(self).0 as int,
                p,
                1,
            ) by {
                assert(extract_bits(nv as int, p, 1) == extract_bits(old(self).0 as int, p, 1));
            }
        }
        match err {
            None => Ok(()),
            Some(e) => Err(e),
        }
    }

    /// The DIRECT datum this payload carries, under caller-supplied
    /// coefficients.
    pub fn get(&self, coefficients: &Coefficients) -> (r: Result<Direct, Error>)
        ensures
            r matches Ok(d) && d.0 == self.0 && d.1 == *coefficients,
    {
        Ok(Direct(self.0, *coefficients))
    }
}

} // verus!

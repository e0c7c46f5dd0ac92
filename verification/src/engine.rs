use vstd::prelude::*;
use vstd::arithmetic::power2::pow2;
use crate::arith::pow2_u128;
use crate::codec::{
    Direct, Linear11, ULinear16, ULinear16Exponent, direct_scaled, l11_encodable, l11_encodes,
    ul16_rounded,
};
use crate::field::{Error, Field, Kind, Replacement, Sentinel, SentinelGroup, Value, group_wf};
use crate::fixed::Fixed;
use crate::raw::{extract_bits, insert_bits, le_value, extract, insert, le_from_bytes};

verus! {

/// A command's data definition: its code, name, declared byte width, its
/// fields in decoding order, and the named values of its enumeration
/// fields.
#[derive(Debug)]
pub struct Layout {
    pub code: u8,
    pub name: &'static str,
    pub width: u8,
    pub fields: Vec<Field>,
    pub sentinels: Vec<SentinelGroup>,
}

impl Layout {
    /// Well-formedness of a catalog entry: every field fits the declared
    /// width, fields are listed by strictly descending bit position (the
    /// fixed decoding order), sentinel groups are keyed uniquely by
    /// position, hold no duplicate codes, and each belongs to an
    /// enumeration field of the same shape.
    pub open spec fn wf(self) -> bool {
        &&& 1 <= self.width <= 16
        &&& forall|i: int|
            0 <= i < self.fields@.len() ==> (#[trigger] self.fields@[i]).wf()
                && self.fields@[i].pos + self.fields@[i].width <= 8 * self.width
        &&& forall|i: int, j: int|
            0 <= i < j < self.fields@.len() ==> self.fields@[i].pos > self.fields@[j].pos
        &&& forall|g: int| 0 <= g < self.sentinels@.len() ==> group_wf(#[trigger] self.sentinels@[g])
        &&& forall|g: int, h: int|
            0 <= g < h < self.sentinels@.len() ==> (#[trigger] self.sentinels@[g].pos)
                != (#[trigger] self.sentinels@[h].pos)
        &&& forall|g: int|
            0 <= g < self.sentinels@.len() ==> exists|i: int|
                0 <= i < self.fields@.len() && (#[trigger] self.fields@[i]).pos
                    == (#[trigger] self.sentinels@[g]).pos && self.fields@[i].width
                    == self.sentinels@[g].width && self.fields@[i].kind == Kind::Enumerated
    }

    /// Whether a raw value lies within the command's declared width.
    pub open spec fn fits(self, raw: int) -> bool {
        0 <= raw < pow2((8 * self.width) as nat)
    }

    /// The named values of the enumeration field at `pos`, if any.
    pub open spec fn vals_for(self, pos: int) -> Seq<Sentinel> {
        if exists|g: int|
            0 <= g < self.sentinels@.len() && (#[trigger] self.sentinels@[g].pos) as int == pos {
            let g = choose|g: int|
                0 <= g < self.sentinels@.len() && (#[trigger] self.sentinels@[g].pos) as int
                    == pos;
            self.sentinels@[g].values@
        } else {
            Seq::empty()
        }
    }

    /// Whether an enumeration field sits at bit position `pos`.
    pub open spec fn has_enumerated_at(self, pos: int) -> bool {
        exists|i: int|
            0 <= i < self.fields@.len() && (#[trigger] self.fields@[i]).pos as int == pos
                && self.fields@[i].kind == Kind::Enumerated
    }

    /// The command code this definition answers to.
    pub fn code(&self) -> (r: u8)
        ensures
            r == self.code,
    {
        self.code
    }

    /// The command's name.
    pub fn name(&self) -> (r: &'static str)
        ensures
            r == self.name,
    {
        self.name
    }

    /// The declared payload width in bytes.
    pub fn width_bytes(&self) -> (r: u8)
        ensures
            r == self.width,
    {
        self.width
    }

    /// A copy of the field list, in decoding order.
    pub fn fields_list(&self) -> (r: Vec<Field>)
        ensures
            r@ == self.fields@,
    {
        let mut out: Vec<Field> = Vec::new();
        let n = self.fields.len();
        let mut i: usize = 0;
        while i < n
            invariant
                i <= n,
                n == self.fields@.len(),
                out@ =~= self.fields@.take(i as int),
            decreases n - i,
        {
            out.push(self.fields[i]);
            proof {
                assert(out@ =~= self.fields@.take(i as int + 1));
            }
            i = i + 1;
        }
        proof {
            assert(self.fields@.take(n as int) =~= self.fields@);
        }
        out
    }
}

/// Supplies the VOUT_MODE datum that governs ULINEAR16 fields.  The
/// engine invokes it lazily: only for a field that needs it, and at most
/// once per field.
pub trait VOutModeSource {
    /// Produce the current VOUT_MODE command data.
    fn vout_mode(&mut self) -> crate::commands::vout_mode::CommandData;
}

/// Receives one decoded field at a time during interpretation.
pub trait FieldVisitor {
    /// Called once per declared field, most significant first.
    fn visit(&mut self, field: &Field, value: &Value);
}

/// Decides, field by field, whether to replace a field's value during
/// mutation.
pub trait MutateVisitor {
    /// Called once per declared field with its current value; `None`
    /// leaves the field unchanged.
    fn propose(&mut self, field: &Field, current: &Value) -> Option<Replacement>;
}

/// The decoded `Value` of an enumeration code: the named sentinel if one
/// matches, a plain integer otherwise.
pub open spec fn named_value(vals: Seq<Sentinel>, v: int) -> Value {
    if exists|k: int| 0 <= k < vals.len() && (#[trigger] vals[k].raw) as int == v {
        let k = choose|k: int| 0 <= k < vals.len() && (#[trigger] vals[k].raw) as int == v;
        Value::Sentinel(vals[k].name, v as u32)
    } else {
        Value::Unsigned(v as u32)
    }
}

/// The decoded `Value` of one field against raw storage.  `vexp` is the
/// VOUT_MODE exponent; only ULINEAR16 fields read it.
pub open spec fn decode_field_spec(f: Field, vals: Seq<Sentinel>, raw: int, vexp: int) -> Value {
    let v = extract_bits(raw, f.pos as nat, f.width as nat);
    match f.kind {
        Kind::Boolean => Value::Boolean(v == 1),
        Kind::Unsigned => Value::Unsigned(v as u32),
        Kind::Direct(c) => Value::Direct(Direct(v as u16, c)),
        Kind::DirectCaller => Value::DirectRaw(v as u16),
        Kind::Linear11 => Value::Linear11(Linear11(v as u16)),
        Kind::ULinear16 => Value::ULinear16(ULinear16(v as u16, ULinear16Exponent(vexp as i8))),
        Kind::Enumerated => named_value(vals, v),
    }
}

/// Whether a proposed replacement is legal for a field.  Legality never
/// depends on the storage's current contents: it is a function of the
/// field, the replacement, and (for ULINEAR16) the exponent in force.
pub open spec fn replacement_accepted(f: Field, rep: Replacement, vexp: int) -> bool {
    match rep {
        Replacement::Boolean(_) => f.width == 1,
        Replacement::Integer(v) => match f.kind {
            Kind::Boolean | Kind::Unsigned | Kind::Enumerated => (v as int) < pow2(
                f.width as nat,
            ),
            Kind::Direct(_) => v < 0x8000_0000,
            Kind::Linear11 => v < 0x8000_0000 && l11_encodable((v as int) * (pow2(32) as int)),
            Kind::ULinear16 => v < 0x8000_0000 && ul16_rounded(
                (v as int) * (pow2(32) as int),
                vexp,
            ) <= 0xffff,
            Kind::DirectCaller => false,
        },
        Replacement::Float(x) => match f.kind {
            Kind::Direct(_) => true,
            Kind::Linear11 => l11_encodable(x.units()),
            Kind::ULinear16 => ul16_rounded(x.units(), vexp) <= 0xffff,
            _ => false,
        },
    }
}

/// The error a rejected replacement reports: a tag that does not suit
/// the field's kind is `InvalidReplacement`; an integer wider than the
/// field is `OverflowReplacement`; a physical value the codec cannot
/// represent is `ValueOutOfRange`.
pub open spec fn replacement_error(f: Field, rep: Replacement, vexp: int) -> Error {
    match rep {
        Replacement::Boolean(_) => Error::InvalidReplacement,
        Replacement::Integer(v) => match f.kind {
            Kind::Boolean | Kind::Unsigned | Kind::Enumerated => Error::OverflowReplacement,
            Kind::Direct(_) => Error::OverflowReplacement,
            Kind::Linear11 | Kind::ULinear16 => if v >= 0x8000_0000 {
                Error::OverflowReplacement
            } else {
                Error::ValueOutOfRange
            },
            Kind::DirectCaller => Error::InvalidReplacement,
        },
        Replacement::Float(_) => match f.kind {
            Kind::Linear11 | Kind::ULinear16 => Error::ValueOutOfRange,
            _ => Error::InvalidReplacement,
        },
    }
}

/// The ULINEAR16 mantissa with a negative result clamped to zero.
pub open spec fn ul16_clamped(units: int, vexp: int) -> int {
    if ul16_rounded(units, vexp) < 0 {
        0int
    } else {
        ul16_rounded(units, vexp)
    }
}

/// The wire bits an accepted replacement folds into the field.
pub open spec fn encoded_wire(f: Field, rep: Replacement, vexp: int, w: int) -> bool {
    match rep {
        Replacement::Boolean(bv) => w == (if bv {
            1int
        } else {
            0int
        }),
        Replacement::Integer(v) => match f.kind {
            Kind::Boolean | Kind::Unsigned | Kind::Enumerated => w == v as int,
            Kind::Direct(c) => w == direct_scaled(
                (v as int) * (pow2(32) as int),
                c.m as int,
                c.b as int,
                c.R as int,
            ) % (pow2(f.width as nat) as int),
            Kind::Linear11 => l11_encodes((v as int) * (pow2(32) as int), w),
            Kind::ULinear16 => w == ul16_clamped((v as int) * (pow2(32) as int), vexp),
            Kind::DirectCaller => false,
        },
        Replacement::Float(x) => match f.kind {
            Kind::Direct(c) => w == direct_scaled(
                x.units(),
                c.m as int,
                c.b as int,
                c.R as int,
            ) % (pow2(f.width as nat) as int),
            Kind::Linear11 => l11_encodes(x.units(), w),
            Kind::ULinear16 => w == ul16_clamped(x.units(), vexp),
            _ => false,
        },
    }
}

/// Decode one field.  `vals` must be the sentinel values declared for
/// the field's position (empty when there are none).
pub fn decode_field(f: &Field, vals: &Vec<Sentinel>, raw: u128, vexp: i8) -> (r: Value)
    requires
        f.wf(),
        forall|i: int, j: int| 0 <= i < j < vals@.len() ==> vals@[i].raw != vals@[j].raw,
    ensures
        r == decode_field_spec(*f, vals@, raw as int, vexp as int),
{
    proof {
        vstd::arithmetic::power2::lemma2_to64();
        crate::arith::lemma_pow2_le(f.width as nat, 32);
    }
    let v = extract(raw, f.pos as u32, f.width as u32);
    let v32 = v as u32;
    match f.kind {
        Kind::Boolean => Value::Boolean(v == 1),
        Kind::Unsigned => Value::Unsigned(v32),
        Kind::Direct(c) => {
            proof {
                crate::arith::lemma_pow2_le(f.width as nat, 16);
            }
            Value::Direct(Direct(v as u16, c))
        },
        Kind::DirectCaller => {
            proof {
                crate::arith::lemma_pow2_le(f.width as nat, 16);
            }
            Value::DirectRaw(v as u16)
        },
        Kind::Linear11 => Value::Linear11(Linear11(v as u16)),
        Kind::ULinear16 => Value::ULinear16(ULinear16(v as u16, ULinear16Exponent(vexp))),
        Kind::Enumerated => {
            let n = vals.len();
            let mut k: usize = 0;
            while k < n
                invariant
                    k <= n,
                    n == vals@.len(),
                    f.wf(),
                    f.kind == Kind::Enumerated,
                    v32 as int == extract_bits(raw as int, f.pos as nat, f.width as nat),
                    forall|m: int| 0 <= m < k ==> (#[trigger] vals@[m].raw) != v32,
                    forall|i: int, j: int|
                        0 <= i < j < vals@.len() ==> vals@[i].raw != vals@[j].raw,
                decreases n - k,
            {
                if vals[k].raw == v32 {
                    proof {
                        let vv = extract_bits(raw as int, f.pos as nat, f.width as nat);
                        assert((vals@[k as int].raw) as int == vv);
                        assert(exists|t: int|
                            0 <= t < vals@.len() && (#[trigger] vals@[t].raw) as int == vv);
                        let kk = choose|t: int|
                            0 <= t < vals@.len() && (#[trigger] vals@[t].raw) as int == vv;
                        if kk < k as int {
                            assert(vals@[kk].raw != vals@[k as int].raw);
                        } else if (k as int) < kk {
                            assert(vals@[k as int].raw != vals@[kk].raw);
                        }
                        assert(kk == k as int);
                        assert(named_value(vals@, vv) == Value::Sentinel(
                            vals@[k as int].name,
                            vv as u32,
                        ));
                    }
                    return Value::Sentinel(vals[k].name, v32);
                }
                k = k + 1;
            }
            Value::Unsigned(v32)
        },
    }
}

/// Validate a replacement against a field and fold it into raw storage.
/// Success is decided by the field, the replacement and the exponent
/// alone, never by the current contents; on success the field's bits are
/// overwritten and every other bit is untouched.
pub fn apply_replacement(f: &Field, raw: u128, rep: Replacement, vexp: i8) -> (r: Result<
    u128,
    Error,
>)
    requires
        f.wf(),
    ensures
        r is Ok <==> replacement_accepted(*f, rep, vexp as int),
        r matches Err(e) ==> e == replacement_error(*f, rep, vexp as int),
        r matches Ok(new) ==> exists|w: int|
            0 <= w < pow2(f.width as nat) && #[trigger] encoded_wire(*f, rep, vexp as int, w)
                && new as int == insert_bits(raw as int, f.pos as nat, f.width as nat, w),
{
    proof {
        vstd::arithmetic::power2::lemma2_to64();
    }
    match rep {
        Replacement::Boolean(bv) => {
            if f.width == 1 {
                let w: u128 = if bv {
                    1
                } else {
                    0
                };
                proof {
                    vstd::arithmetic::power2::lemma2_to64();
                    assert(encoded_wire(*f, rep, vexp as int, w as int));
                }
                Ok(insert(raw, f.pos as u32, 1, w))
            } else {
                Err(Error::InvalidReplacement)
            }
        },
        Replacement::Integer(v) => {
            match f.kind {
                Kind::Boolean | Kind::Unsigned | Kind::Enumerated => {
                    let pw = pow2_u128(f.width as u32);
                    if (v as u128) < pw {
                        proof {
                            assert(encoded_wire(*f, rep, vexp as int, v as int));
                        }
                        Ok(insert(raw, f.pos as u32, f.width as u32, v as u128))
                    } else {
                        Err(Error::OverflowReplacement)
                    }
                },
                Kind::Direct(c) => {
                    if v >= 0x8000_0000 {
                        Err(Error::OverflowReplacement)
                    } else {
                        let d = Direct::from_fixed(Fixed::from_int(v), c);
                        let pw = pow2_u128(f.width as u32);
                        proof {
                            lemma_wire_narrow(
                                direct_scaled(
                                    (v as int) * (pow2(32) as int),
                                    c.m as int,
                                    c.b as int,
                                    c.R as int,
                                ),
                                f.width as nat,
                            );
                            assert(encoded_wire(
                                *f,
                                rep,
                                vexp as int,
                                ((d.0 as u128) % pw) as int,
                            ));
                        }
                        Ok(insert(raw, f.pos as u32, f.width as u32, (d.0 as u128) % pw))
                    }
                },
                Kind::Linear11 => {
                    if v >= 0x8000_0000 {
                        Err(Error::OverflowReplacement)
                    } else {
                        match Linear11::from_fixed(Fixed::from_int(v)) {
                            Some(l) => {
                                proof {
                                    assert(encoded_wire(*f, rep, vexp as int, l.0 as int));
                                }
                                Ok(insert(raw, f.pos as u32, f.width as u32, l.0 as u128))
                            },
                            None => Err(Error::ValueOutOfRange),
                        }
                    }
                },
                Kind::ULinear16 => {
                    if v >= 0x8000_0000 {
                        Err(Error::OverflowReplacement)
                    } else {
                        match ULinear16::from_fixed(
                            Fixed::from_int(v),
                            ULinear16Exponent(vexp),
                        ) {
                            Some(u) => {
                                proof {
                                    vstd::arithmetic::power2::lemma2_to64();
                                    assert(encoded_wire(*f, rep, vexp as int, u.0 as int));
                                }
                                Ok(insert(raw, f.pos as u32, f.width as u32, u.0 as u128))
                            },
                            None => Err(Error::ValueOutOfRange),
                        }
                    }
                },
                Kind::DirectCaller => Err(Error::InvalidReplacement),
            }
        },
        Replacement::Float(x) => {
            match f.kind {
                Kind::Direct(c) => {
                    let d = Direct::from_fixed(x, c);
                    let pw = pow2_u128(f.width as u32);
                    proof {
                        lemma_wire_narrow(
                            direct_scaled(x.units(), c.m as int, c.b as int, c.R as int),
                            f.width as nat,
                        );
                        assert(encoded_wire(*f, rep, vexp as int, ((d.0 as u128) % pw) as int));
                    }
                    Ok(insert(raw, f.pos as u32, f.width as u32, (d.0 as u128) % pw))
                },
                Kind::Linear11 => {
                    match Linear11::from_fixed(x) {
                        Some(l) => {
                            proof {
                                assert(encoded_wire(*f, rep, vexp as int, l.0 as int));
                            }
                            Ok(insert(raw, f.pos as u32, f.width as u32, l.0 as u128))
                        },
                        None => Err(Error::ValueOutOfRange),
                    }
                },
                Kind::ULinear16 => {
                    match ULinear16::from_fixed(x, ULinear16Exponent(vexp)) {
                        Some(u) => {
                            proof {
                                vstd::arithmetic::power2::lemma2_to64();
                                assert(encoded_wire(*f, rep, vexp as int, u.0 as int));
                            }
                            Ok(insert(raw, f.pos as u32, f.width as u32, u.0 as u128))
                        },
                        None => Err(Error::ValueOutOfRange),
                    }
                },
                _ => Err(Error::InvalidReplacement),
            }
        },
    }
}

/// Narrowing a 16-bit wire word to a field of 8 or 16 bits agrees with
/// reducing the scaled value directly.
proof fn lemma_wire_narrow(y: int, width: nat)
    requires
        width == 8 || width == 16,
    ensures
        (y % (pow2(16) as int)) % (pow2(width) as int) == y % (pow2(width) as int),
        0 <= y % (pow2(width) as int) < pow2(width),
        0 <= y % (pow2(16) as int) < pow2(16),
{
    vstd::arithmetic::power2::lemma2_to64();
    vstd::arithmetic::div_mod::lemma_mod_bound(y, pow2(16) as int);
    vstd::arithmetic::div_mod::lemma_mod_bound(y, pow2(width) as int);
    if width == 8 {
        assert(pow2(16) as int == (pow2(8) as int) * 256);
        vstd::arithmetic::div_mod::lemma_mod_mod(y, pow2(8) as int, 256);
    } else {
        vstd::arithmetic::div_mod::lemma_mod_bound(y, pow2(16) as int);
        vstd::arithmetic::div_mod::lemma_small_mod(
            (y % (pow2(16) as int)) as nat,
            pow2(16),
        );
    }
}

/// Find the sentinel group at a bit position, if one is declared.
fn find_group(layout: &Layout, pos: u8) -> (r: Option<usize>)
    requires
        layout.wf(),
    ensures
        r matches Some(g) ==> 0 <= g < layout.sentinels@.len() && layout.sentinels@[g as int].pos
            == pos && layout.sentinels@[g as int].values@ == layout.vals_for(pos as int),
        r is None ==> forall|g: int|
            0 <= g < layout.sentinels@.len() ==> (#[trigger] layout.sentinels@[g].pos) != pos
                && layout.vals_for(pos as int) == Seq::<Sentinel>::empty(),
{
    let n = layout.sentinels.len();
    let mut g: usize = 0;
    while g < n
        invariant
            g <= n,
            layout.wf(),
            n == layout.sentinels@.len(),
            forall|m: int| 0 <= m < g ==> (#[trigger] layout.sentinels@[m].pos) != pos,
        decreases n - g,
    {
        if layout.sentinels[g].pos == pos {
            proof {
                assert(layout.sentinels@[g as int].pos as int == pos as int);
                assert(exists|t: int|
                    0 <= t < layout.sentinels@.len() && (#[trigger] layout.sentinels@[t].pos)
                        as int == pos as int);
                let gg = choose|t: int|
                    0 <= t < layout.sentinels@.len() && (#[trigger] layout.sentinels@[t].pos)
                        as int == pos as int;
                if gg < g as int {
                    assert(layout.sentinels@[gg].pos != layout.sentinels@[g as int].pos);
                } else if (g as int) < gg {
                    assert(layout.sentinels@[g as int].pos != layout.sentinels@[gg].pos);
                }
                assert(gg == g as int);
                assert(layout.vals_for(pos as int) == layout.sentinels@[gg].values@);
            }
            return Some(g);
        }
        g = g + 1;
    }
    None
}

/// Interpret every declared field of a command against its raw storage,
/// returning `(field, value)` pairs in decoding order: most significant
/// field first.  The VOUT_MODE source is consulted lazily, only for
/// fields that need an exponent, once per such field.
pub fn interpret_values<P: VOutModeSource>(
    layout: &Layout,
    raw: u128,
    provider: &mut P,
) -> (r: Vec<(Field, Value)>)
    requires
        layout.wf(),
    ensures
        r@.len() == layout.fields@.len(),
        forall|i: int|
            0 <= i < r@.len() ==> (#[trigger] r@[i]).0 == layout.fields@[i] && exists|e: int|
                r@[i].1 == decode_field_spec(
                    layout.fields@[i],
                    layout.vals_for(layout.fields@[i].pos as int),
                    raw as int,
                    e,
                ),
{
    let mut out: Vec<(Field, Value)> = Vec::new();
    let empty: Vec<Sentinel> = Vec::new();
    let n = layout.fields.len();
    let mut i: usize = 0;
    while i < n
        invariant
            i <= n,
            n == layout.fields@.len(),
            layout.wf(),
            empty@.len() == 0,
            out@.len() == i,
            forall|t: int|
                0 <= t < i ==> (#[trigger] out@[t]).0 == layout.fields@[t] && exists|e: int|
                    out@[t].1 == decode_field_spec(
                        layout.fields@[t],
                        layout.vals_for(layout.fields@[t].pos as int),
                        raw as int,
                        e,
                    ),
        decreases n - i,
    {
        let f = layout.fields[i];
        let vexp: i8 = match f.kind {
            Kind::ULinear16 => provider.vout_mode().parameter(),
            _ => 0,
        };
        let gi = find_group(layout, f.pos);
        let v = match gi {
            Some(g) => decode_field(&f, &layout.sentinels[g].values, raw, vexp),
            None => decode_field(&f, &empty, raw, vexp),
        };
        proof {
            assert(empty@ =~= Seq::<Sentinel>::empty());
            assert(v == decode_field_spec(
                layout.fields@[i as int],
                layout.vals_for(f.pos as int),
                raw as int,
                vexp as int,
            ));
        }
        out.push((f, v));
        proof {
            assert(out@[i as int].0 == layout.fields@[i as int]);
            assert(out@[i as int].1 == decode_field_spec(
                layout.fields@[i as int],
                layout.vals_for(layout.fields@[i as int].pos as int),
                raw as int,
                vexp as int,
            ));
        }
        i = i + 1;
    }
    out
}

/// Interpret a command and hand each `(field, value)` pair to a visitor,
/// most significant field first.
pub fn interpret_with<P: VOutModeSource, V: FieldVisitor>(
    layout: &Layout,
    raw: u128,
    provider: &mut P,
    visitor: &mut V,
) -> (r: Result<(), Error>)
    requires
        layout.wf(),
    ensures
        r is Ok,
{
    let values = interpret_values(layout, raw, provider);
    let n = values.len();
    let mut i: usize = 0;
    while i < n
        invariant
            i <= n,
            n == values@.len(),
        decreases n - i,
    {
        let (f, v) = values[i];
        visitor.visit(&f, &v);
        i = i + 1;
    }
    Ok(())
}

/// Mutate a command's raw storage under a visitor's direction.  Fields
/// are visited most significant first with their current value; a
/// proposed replacement is validated and, if legal, folded in before the
/// next field is visited.  On the first rejection the walk stops and the
/// error is reported together with the storage as mutated so far:
/// replacements already applied stay applied, there is no rollback.
/// Whatever the visitor proposes, bits outside the declared fields are
/// never touched, and the storage never leaves its declared width.
pub fn mutate_fields<P: VOutModeSource, V: MutateVisitor>(
    layout: &Layout,
    raw: u128,
    provider: &mut P,
    visitor: &mut V,
) -> (r: (u128, Option<Error>))
    requires
        layout.wf(),
        layout.fits(raw as int),
    ensures
        layout.fits(r.0 as int),
        layout.fields@.len() == 0 ==> r.0 == raw && r.1 is None,
        r.1 matches Some(e) ==> (e == Error::InvalidReplacement || e == Error::OverflowReplacement
            || e == Error::ValueOutOfRange),
        forall|p: nat|
            p < 128 && !fields_claim_bit(layout.fields@, p as int) ==> #[trigger] extract_bits(
                r.0 as int,
                p,
                1,
            ) == extract_bits(raw as int, p, 1),
{
    let empty: Vec<Sentinel> = Vec::new();
    let n = layout.fields.len();
    let mut cur = raw;
    let mut i: usize = 0;
    while i < n
        invariant
            i <= n,
            n == layout.fields@.len(),
            layout.wf(),
            empty@.len() == 0,
            layout.fits(cur as int),
            n == 0 ==> cur == raw,
            forall|p: nat|
                p < 128 && !fields_claim_bit(layout.fields@, p as int) ==> #[trigger] extract_bits(
                    cur as int,
                    p,
                    1,
                ) == extract_bits(raw as int, p, 1),
        decreases n - i,
    {
        let f = layout.fields[i];
        let vexp: i8 = match f.kind {
            Kind::ULinear16 => provider.vout_mode().parameter(),
            _ => 0,
        };
        let gi = find_group(layout, f.pos);
        let v = match gi {
            Some(g) => decode_field(&f, &layout.sentinels[g].values, cur, vexp),
            None => decode_field(&f, &empty, cur, vexp),
        };
        match visitor.propose(&f, &v) {
            None => {},
            Some(rep) => {
                match apply_replacement(&f, cur, rep, vexp) {
                    Ok(new) => {
                        proof {
                            let w = choose|w: int|
                                0 <= w < pow2(f.width as nat) && #[trigger] encoded_wire(
                                    f,
                                    rep,
                                    vexp as int,
                                    w,
                                ) && new as int == insert_bits(
                                    cur as int,
                                    f.pos as nat,
                                    f.width as nat,
                                    w,
                                );
                            crate::raw::lemma_insert_bits(
                                cur as int,
                                f.pos as nat,
                                f.width as nat,
                                w,
                                (8 * layout.width) as nat,
                            );
                            // bits outside every declared field are untouched:
                            // this write lands inside a declared field
                            assert(pow2(128) == 0x100000000000000000000000000000000int) by {
                                vstd::arithmetic::power2::lemma2_to64();
                                vstd::arithmetic::power2::lemma2_to64_rest();
                                vstd::arithmetic::power2::lemma_pow2_adds(64, 64);
                            }
                            assert forall|p: nat|
                                p < 128 && !fields_claim_bit(layout.fields@, p as int) implies #[trigger] extract_bits(
                                new as int,
                                p,
                                1,
                            ) == extract_bits(cur as int, p, 1) by {
                                assert(layout.fields@[i as int] == f);
                                assert(!(f.pos <= (p as int) < f.pos + f.width));
                                crate::raw::lemma_insert_bits_preserves(
                                    cur as int,
                                    f.pos as nat,
                                    f.width as nat,
                                    w,
                                    p,
                                    1,
                                    128,
                                );
                            }
                        }
                        cur = new;
                    },
                    Err(e) => {
                        return (cur, Some(e));
                    },
                }
            },
        }
        i = i + 1;
    }
    (cur, None)
}

/// A layout's sentinel groups agree with the given plain data: one
/// `(position, width, values)` triple per group, in order.
pub open spec fn groups_match(l: Layout, gs: Seq<(u8, u8, Seq<Sentinel>)>) -> bool {
    &&& l.sentinels@.len() == gs.len()
    &&& forall|g: int|
        0 <= g < gs.len() ==> (#[trigger] l.sentinels@[g]).pos == gs[g].0
            && l.sentinels@[g].width == gs[g].1 && l.sentinels@[g].values@ == gs[g].2
}

/// The values declared at a bit position among plain group data.
pub open spec fn vals_from_groups(gs: Seq<(u8, u8, Seq<Sentinel>)>, pos: int) -> Seq<Sentinel> {
    if exists|g: int| 0 <= g < gs.len() && (#[trigger] gs[g].0) as int == pos {
        let g = choose|g: int| 0 <= g < gs.len() && (#[trigger] gs[g].0) as int == pos;
        gs[g].2
    } else {
        Seq::empty()
    }
}

/// Under `groups_match`, a well-formed layout's value lookup agrees
/// with the plain-data lookup: group positions are unique, so both
/// find the same group or none.
pub proof fn lemma_vals_from_groups(l: Layout, gs: Seq<(u8, u8, Seq<Sentinel>)>, pos: int)
    requires
        l.wf(),
        groups_match(l, gs),
    ensures
        l.vals_for(pos) == vals_from_groups(gs, pos),
{
    if exists|g: int|
        0 <= g < l.sentinels@.len() && (#[trigger] l.sentinels@[g].pos) as int == pos {
        let g1 = choose|g: int|
            0 <= g < l.sentinels@.len() && (#[trigger] l.sentinels@[g].pos) as int == pos;
        assert((gs[g1].0) as int == pos);
        assert(exists|g: int| 0 <= g < gs.len() && (#[trigger] gs[g].0) as int == pos);
        let g2 = choose|g: int| 0 <= g < gs.len() && (#[trigger] gs[g].0) as int == pos;
        assert(l.sentinels@[g2].pos as int == pos);
        if g1 < g2 {
            assert(l.sentinels@[g1].pos != l.sentinels@[g2].pos);
        } else if g2 < g1 {
            assert(l.sentinels@[g2].pos != l.sentinels@[g1].pos);
        }
        assert(g1 == g2);
        assert(l.sentinels@[g1].values@ == gs[g1].2);
        assert(l.vals_for(pos) == l.sentinels@[g1].values@);
        // positions are unique among the groups, so any index the
        // plain-data lookup picks is this one
        assert forall|g: int|
            0 <= g < gs.len() && (#[trigger] gs[g].0) as int == pos implies g == g1 by {
            assert(l.sentinels@[g].pos as int == pos);
            if g1 < g {
                assert(l.sentinels@[g1].pos != l.sentinels@[g].pos);
            } else if g < g1 {
                assert(l.sentinels@[g].pos != l.sentinels@[g1].pos);
            }
        }
        assert(vals_from_groups(gs, pos) == gs[g1].2);
    } else {
        if exists|g: int| 0 <= g < gs.len() && (#[trigger] gs[g].0) as int == pos {
            let g2 = choose|g: int| 0 <= g < gs.len() && (#[trigger] gs[g].0) as int == pos;
            assert(l.sentinels@[g2].pos as int == pos);
            assert(false);
        }
    }
}

/// Whether any field of `fields` covers bit `p`.
pub open spec fn fields_claim_bit(fields: Seq<Field>, p: int) -> bool {
    exists|i: int|
        0 <= i < fields.len() && (#[trigger] fields[i]).pos <= p < fields[i].pos
            + fields[i].width
}

/// Mutation applies monotonically.  Whether a replacement is accepted
/// never depends on the storage contents — `apply_replacement` promises
/// `Ok` exactly when `replacement_accepted(field, rep, vexp)` holds,
/// whatever the storage — so for two replacements aimed at
/// non-overlapping fields, each succeeds or fails independently of the
/// other's success.  This lemma adds the storage side: applying the
/// second replacement leaves the bits written by the first intact, and
/// the first leaves the second's field untouched until it is written.
pub proof fn lemma_mutate_monotonic(
    f1: Field,
    rep1: Replacement,
    f2: Field,
    rep2: Replacement,
    vexp: int,
    raw: int,
    w1: int,
    w2: int,
)
    requires
        f1.wf(),
        f2.wf(),
        f1.pos + f1.width <= f2.pos || f2.pos + f2.width <= f1.pos,
        0 <= raw < pow2(128),
        0 <= w1 < pow2(f1.width as nat),
        encoded_wire(f1, rep1, vexp, w1),
        0 <= w2 < pow2(f2.width as nat),
        encoded_wire(f2, rep2, vexp, w2),
    ensures
        extract_bits(
            insert_bits(
                insert_bits(raw, f1.pos as nat, f1.width as nat, w1),
                f2.pos as nat,
                f2.width as nat,
                w2,
            ),
            f1.pos as nat,
            f1.width as nat,
        ) == w1,
        extract_bits(
            insert_bits(raw, f1.pos as nat, f1.width as nat, w1),
            f2.pos as nat,
            f2.width as nat,
        ) == extract_bits(raw, f2.pos as nat, f2.width as nat),
{
    crate::raw::lemma_insert_bits(raw, f1.pos as nat, f1.width as nat, w1, 128);
    let x = insert_bits(raw, f1.pos as nat, f1.width as nat, w1);
    crate::raw::lemma_insert_bits_preserves(
        x,
        f2.pos as nat,
        f2.width as nat,
        w2,
        f1.pos as nat,
        f1.width as nat,
        128,
    );
    crate::raw::lemma_insert_bits_preserves(
        raw,
        f1.pos as nat,
        f1.width as nat,
        w1,
        f2.pos as nat,
        f2.width as nat,
        128,
    );
}

/// Enumerate the named values of the enumeration field at `pos`,
/// most conveniently as a list.  Fails with `InvalidField` exactly when
/// no enumeration field sits at that bit position; codes the list does
/// not cover are not an error, they decode as plain integers.
pub fn sentinels_at(layout: &Layout, pos: u8) -> (r: Result<Vec<Sentinel>, Error>)
    requires
        layout.wf(),
    ensures
        r is Ok <==> layout.has_enumerated_at(pos as int),
        r matches Err(e) ==> e == Error::InvalidField,
        r matches Ok(v) ==> v@ == layout.vals_for(pos as int),
        r matches Ok(v) ==> forall|i: int, j: int|
            0 <= i < j < v@.len() ==> v@[i].raw != v@[j].raw,
{
    let n = layout.fields.len();
    let mut i: usize = 0;
    let mut found = false;
    while i < n && !found
        invariant
            i <= n,
            n == layout.fields@.len(),
            !found ==> forall|t: int|
                0 <= t < i ==> !((#[trigger] layout.fields@[t]).pos as int == pos as int
                    && layout.fields@[t].kind == Kind::Enumerated),
            found ==> layout.has_enumerated_at(pos as int),
        decreases n - i + (if found { 0int } else { 1int }),
    {
        let f = &layout.fields[i];
        if f.pos == pos {
            match f.kind {
                Kind::Enumerated => {
                    found = true;
                },
                _ => {
                    i = i + 1;
                },
            }
        } else {
            i = i + 1;
        }
    }
    if !found {
        return Err(Error::InvalidField);
    }
    let gi = find_group(layout, pos);
    match gi {
        None => {
            let out: Vec<Sentinel> = Vec::new();
            proof {
                assert(out@ =~= layout.vals_for(pos as int));
            }
            Ok(out)
        },
        Some(g) => {
            let vals = &layout.sentinels[g].values;
            let m = vals.len();
            let mut out: Vec<Sentinel> = Vec::new();
            let mut k: usize = 0;
            while k < m
                invariant
                    k <= m,
                    m == vals@.len(),
                    out@ =~= vals@.take(k as int),
                decreases m - k,
            {
                out.push(vals[k]);
                proof {
                    assert(out@ =~= vals@.take(k as int + 1));
                }
                k = k + 1;
            }
            proof {
                assert(vals@.take(m as int) =~= vals@);
            }
            Ok(out)
        },
    }
}

/// Decode the single field at a bit position, if the command declares
/// one there; fails with `InvalidField` otherwise.  This is the
/// named-field query variant of interpretation.
pub fn decode_at(layout: &Layout, pos: u8, raw: u128, vexp: i8) -> (r: Result<
    (Field, Value),
    Error,
>)
    requires
        layout.wf(),
    ensures
        r is Ok <==> exists|i: int|
            0 <= i < layout.fields@.len() && (#[trigger] layout.fields@[i]).pos == pos,
        r matches Err(e) ==> e == Error::InvalidField,
        r matches Ok(fv) ==> exists|i: int|
            0 <= i < layout.fields@.len() && (#[trigger] layout.fields@[i]).pos == pos && fv.0
                == layout.fields@[i] && fv.1 == decode_field_spec(
                layout.fields@[i],
                layout.vals_for(pos as int),
                raw as int,
                vexp as int,
            ),
{
    let empty: Vec<Sentinel> = Vec::new();
    let n = layout.fields.len();
    let mut i: usize = 0;
    while i < n
        invariant
            i <= n,
            n == layout.fields@.len(),
            layout.wf(),
            empty@.len() == 0,
            forall|t: int| 0 <= t < i ==> (#[trigger] layout.fields@[t]).pos != pos,
        decreases n - i,
    {
        let f = layout.fields[i];
        if f.pos == pos {
            let gi = find_group(layout, f.pos);
            let v = match gi {
                Some(g) => decode_field(&f, &layout.sentinels[g].values, raw, vexp),
                None => decode_field(&f, &empty, raw, vexp),
            };
            proof {
                assert(empty@ =~= Seq::<Sentinel>::empty());
                assert(v == decode_field_spec(
                    layout.fields@[i as int],
                    layout.vals_for(pos as int),
                    raw as int,
                    vexp as int,
                ));
            }
            return Ok((f, v));
        }
        i = i + 1;
    }
    Err(Error::InvalidField)
}

/// Check a byte slice against a declared width and assemble it into raw
/// storage.  Fails with `InvalidLength` exactly when the length differs
/// from the declared width: no truncation, no padding.
pub fn parse_bytes(bytes: &[u8], width: u8) -> (r: Result<u128, Error>)
    requires
        1 <= width <= 16,
    ensures
        r is Ok <==> bytes@.len() == width as int,
        r matches Err(e) ==> e == Error::InvalidLength,
        r matches Ok(v) ==> v as int == le_value(bytes@) && (v as int) < pow2((8 * width) as nat),
{
    if bytes.len() != width as usize {
        return Err(Error::InvalidLength);
    }
    Ok(le_from_bytes(bytes))
}

} // verus!

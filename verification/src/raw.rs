use vstd::prelude::*;
use vstd::arithmetic::power2::pow2;
use crate::arith::{pow2_u128, lemma_pow2_le};

verus! {

/// The integer a little-endian byte sequence stands for.
pub open spec fn le_value(s: Seq<u8>) -> int
    decreases s.len(),
{
    if s.len() == 0 {
        0
    } else {
        le_value(s.drop_last()) + (s.last() as int) * (pow2((8 * (s.len() - 1)) as nat) as int)
    }
}

/// The little-endian value of a byte sequence is bounded by the width.
pub proof fn lemma_le_value_bound(s: Seq<u8>)
    ensures
        0 <= le_value(s) < pow2((8 * s.len()) as nat),
    decreases s.len(),
{
    if s.len() == 0 {
        vstd::arithmetic::power2::lemma_pow2_pos(0);
        assert(pow2(0) == 1) by {
            vstd::arithmetic::power2::lemma2_to64();
        }
    } else {
        lemma_le_value_bound(s.drop_last());
        let k = (8 * (s.len() - 1)) as nat;
        vstd::arithmetic::power2::lemma_pow2_pos(k);
        vstd::arithmetic::power2::lemma_pow2_adds(k, 8);
        assert(pow2(8) == 256) by {
            vstd::arithmetic::power2::lemma2_to64();
        }
        assert((s.last() as int) * (pow2(k) as int) <= 255 * (pow2(k) as int)) by {
            vstd::arithmetic::mul::lemma_mul_inequality(s.last() as int, 255, pow2(k) as int);
        }
        assert(pow2(k) as int + 255 * (pow2(k) as int) == 256 * (pow2(k) as int));
    }
}

/// The bits of `raw` at positions `pos .. pos + width`, as an integer.
pub open spec fn extract_bits(raw: int, pos: nat, width: nat) -> int {
    (raw / (pow2(pos) as int)) % (pow2(width) as int)
}

/// `raw` with the bits at `pos .. pos + width` replaced by `v`.
pub open spec fn insert_bits(raw: int, pos: nat, width: nat, v: int) -> int {
    raw - extract_bits(raw, pos, width) * (pow2(pos) as int) + v * (pow2(pos) as int)
}

/// Decomposition of `raw` around a bit field: high bits, field, low bits.
pub proof fn lemma_split3(raw: int, pos: nat, width: nat)
    requires
        raw >= 0,
    ensures
        raw == (raw / (pow2((pos + width) as nat) as int)) * (pow2((pos + width) as nat) as int)
            + extract_bits(raw, pos, width) * (pow2(pos) as int) + raw % (pow2(pos) as int),
        0 <= raw % (pow2(pos) as int) < pow2(pos) as int,
        0 <= extract_bits(raw, pos, width) < pow2(width) as int,
        raw / (pow2((pos + width) as nat) as int) >= 0,
{
    let pp = pow2(pos) as int;
    let pw = pow2(width) as int;
    let pc = pow2((pos + width) as nat) as int;
    vstd::arithmetic::power2::lemma_pow2_pos(pos);
    vstd::arithmetic::power2::lemma_pow2_pos(width);
    vstd::arithmetic::power2::lemma_pow2_pos((pos + width) as nat);
    vstd::arithmetic::power2::lemma_pow2_adds(pos, width);
    assert(pc == pp * pw);
    vstd::arithmetic::div_mod::lemma_breakdown(raw, pp, pw);
    assert(raw % pc == pp * ((raw / pp) % pw) + raw % pp);
    vstd::arithmetic::div_mod::lemma_fundamental_div_mod(raw, pc);
    vstd::arithmetic::div_mod::lemma_mod_bound(raw, pp);
    vstd::arithmetic::div_mod::lemma_mod_bound(raw / pp, pw);
    vstd::arithmetic::div_mod::lemma_div_pos_is_pos(raw, pp);
    vstd::arithmetic::div_mod::lemma_div_pos_is_pos(raw, pc);
    assert(raw == pc * (raw / pc) + raw % pc);
    assert(pc * (raw / pc) == (raw / pc) * pc) by {
        vstd::arithmetic::mul::lemma_mul_is_commutative(pc, raw / pc);
    }
    assert(pp * ((raw / pp) % pw) == ((raw / pp) % pw) * pp) by {
        vstd::arithmetic::mul::lemma_mul_is_commutative(pp, (raw / pp) % pw);
    }
}

/// Inserting a value that fits the field keeps the raw value within any
/// containing width, and the inserted value reads back exactly.
pub proof fn lemma_insert_bits(raw: int, pos: nat, width: nat, v: int, total: nat)
    requires
        0 <= raw < pow2(total),
        0 <= v < pow2(width),
        pos + width <= total,
    ensures
        0 <= insert_bits(raw, pos, width, v) < pow2(total),
        extract_bits(insert_bits(raw, pos, width, v), pos, width) == v,
        insert_bits(raw, pos, width, v) % (pow2(pos) as int) == raw % (pow2(pos) as int),
        insert_bits(raw, pos, width, v) / (pow2((pos + width) as nat) as int) == raw / (pow2(
            (pos + width) as nat,
        ) as int),
{
    let pp = pow2(pos) as int;
    let pw = pow2(width) as int;
    let pc = pow2((pos + width) as nat) as int;
    lemma_split3(raw, pos, width);
    let hi = raw / pc;
    let ex = extract_bits(raw, pos, width);
    let lo = raw % pp;
    let x = insert_bits(raw, pos, width, v);
    assert(x == hi * pc + v * pp + lo);
    vstd::arithmetic::power2::lemma_pow2_pos(pos);
    vstd::arithmetic::power2::lemma_pow2_pos(width);
    vstd::arithmetic::power2::lemma_pow2_pos((pos + width) as nat);
    vstd::arithmetic::power2::lemma_pow2_adds(pos, width);

    // v * pp + lo occupies fewer than pos + width bits
    assert(v * pp <= (pw - 1) * pp) by {
        vstd::arithmetic::mul::lemma_mul_inequality(v, pw - 1, pp);
    }
    assert((pw - 1) * pp == pc - pp) by {
        vstd::arithmetic::mul::lemma_mul_is_distributive_sub(pp, pw, 1);
        vstd::arithmetic::mul::lemma_mul_is_commutative(pw - 1, pp);
        vstd::arithmetic::mul::lemma_mul_is_commutative(pp, pw);
        vstd::arithmetic::mul::lemma_mul_basics(pp);
    }
    assert(0 <= v * pp + lo < pc) by {
        vstd::arithmetic::mul::lemma_mul_nonnegative(v, pp);
    }

    // the field reads back: x / pp == hi * pw + v, whose residue mod pw is v
    assert(x == (hi * pw + v) * pp + lo) by {
        vstd::arithmetic::mul::lemma_mul_is_distributive_add_other_way(pp, hi * pw, v);
        assert((hi * pw) * pp == hi * (pw * pp)) by {
            vstd::arithmetic::mul::lemma_mul_is_associative(hi, pw, pp);
        }
        vstd::arithmetic::mul::lemma_mul_is_commutative(pw, pp);
    }
    assert(x / pp == hi * pw + v) by {
        vstd::arithmetic::div_mod::lemma_fundamental_div_mod_converse(
            x,
            pp,
            hi * pw + v,
            lo,
        );
    }
    assert(x % pp == lo) by {
        vstd::arithmetic::div_mod::lemma_fundamental_div_mod_converse(
            x,
            pp,
            hi * pw + v,
            lo,
        );
    }
    assert((hi * pw + v) % pw == v) by {
        vstd::arithmetic::mul::lemma_mul_is_commutative(hi, pw);
        vstd::arithmetic::div_mod::lemma_mod_multiples_vanish(hi, v, pw);
        vstd::arithmetic::div_mod::lemma_small_mod(v as nat, pw as nat);
    }

    // x / pc == hi
    assert(x / pc == hi) by {
        vstd::arithmetic::div_mod::lemma_fundamental_div_mod_converse(
            x,
            pc,
            hi,
            v * pp + lo,
        );
    }

    // and the whole stays under the containing width
    let pt = pow2(total) as int;
    vstd::arithmetic::power2::lemma_pow2_pos(total);
    vstd::arithmetic::power2::lemma_pow2_adds((pos + width) as nat, (total - pos - width) as nat);
    assert(hi < pow2((total - pos - width) as nat)) by {
        assert(raw < pt);
        assert(pt == pc * (pow2((total - pos - width) as nat) as int));
        if hi >= pow2((total - pos - width) as nat) {
            assert(hi * pc >= (pow2((total - pos - width) as nat) as int) * pc) by {
                vstd::arithmetic::mul::lemma_mul_inequality(
                    pow2((total - pos - width) as nat) as int,
                    hi,
                    pc,
                );
            }
            assert(raw >= hi * pc) by {
                vstd::arithmetic::mul::lemma_mul_nonnegative(ex, pp);
            }
            assert((pow2((total - pos - width) as nat) as int) * pc == pt) by {
                vstd::arithmetic::mul::lemma_mul_is_commutative(
                    pow2((total - pos - width) as nat) as int,
                    pc,
                );
            }
            assert(false);
        }
    }
    assert(hi * pc <= (pow2((total - pos - width) as nat) - 1) * pc) by {
        vstd::arithmetic::mul::lemma_mul_inequality(
            hi,
            pow2((total - pos - width) as nat) - 1,
            pc,
        );
    }
    assert((pow2((total - pos - width) as nat) - 1) * pc == pt - pc) by {
        vstd::arithmetic::mul::lemma_mul_is_distributive_sub_other_way(
            pc,
            pow2((total - pos - width) as nat) as int,
            1,
        );
        vstd::arithmetic::mul::lemma_mul_is_commutative(
            pow2((total - pos - width) as nat) as int,
            pc,
        );
        vstd::arithmetic::mul::lemma_mul_basics(pc);
    }
    assert(x <= (pt - pc) + (pc - 1));
    assert(x >= 0) by {
        vstd::arithmetic::mul::lemma_mul_nonnegative(hi, pc);
        vstd::arithmetic::mul::lemma_mul_nonnegative(v, pp);
    }
}

/// Writing one field never disturbs another that does not overlap it:
/// the second field reads the same before and after the insertion.
pub proof fn lemma_insert_bits_preserves(
    raw: int,
    pos: nat,
    width: nat,
    v: int,
    pos2: nat,
    width2: nat,
    total: nat,
)
    requires
        0 <= raw < pow2(total),
        0 <= v < pow2(width),
        pos + width <= total,
        pos2 + width2 <= total,
        pos2 + width2 <= pos || pos + width <= pos2,
    ensures
        extract_bits(insert_bits(raw, pos, width, v), pos2, width2) == extract_bits(
            raw,
            pos2,
            width2,
        ),
{
    let x = insert_bits(raw, pos, width, v);
    lemma_insert_bits(raw, pos, width, v, total);
    let pp2 = pow2(pos2) as int;
    let pw2 = pow2(width2) as int;
    let pc2 = pow2((pos2 + width2) as nat) as int;
    vstd::arithmetic::power2::lemma_pow2_pos(pos2);
    vstd::arithmetic::power2::lemma_pow2_pos(width2);
    vstd::arithmetic::power2::lemma_pow2_pos((pos2 + width2) as nat);
    vstd::arithmetic::power2::lemma_pow2_adds(pos2, width2);
    if pos2 + width2 <= pos {
        // both reads are functions of the low `pos` bits, which agree
        let pp = pow2(pos) as int;
        vstd::arithmetic::power2::lemma_pow2_pos(pos);
        assert(x % pp == raw % pp);
        vstd::arithmetic::power2::lemma_pow2_adds((pos2 + width2) as nat, (pos - pos2
            - width2) as nat);
        vstd::arithmetic::power2::lemma_pow2_pos((pos - pos2 - width2) as nat);
        assert(x % pc2 == (x % pp) % pc2) by {
            vstd::arithmetic::div_mod::lemma_mod_mod(
                x,
                pc2,
                pow2((pos - pos2 - width2) as nat) as int,
            );
        }
        assert(raw % pc2 == (raw % pp) % pc2) by {
            vstd::arithmetic::div_mod::lemma_mod_mod(
                raw,
                pc2,
                pow2((pos - pos2 - width2) as nat) as int,
            );
        }
        assert(x % pc2 == raw % pc2);
        vstd::arithmetic::power2::lemma_pow2_adds(pos2, (pos - pos2) as nat);
        vstd::arithmetic::power2::lemma_pow2_pos((pos - pos2) as nat);
        assert(x % pp2 == raw % pp2) by {
            vstd::arithmetic::div_mod::lemma_mod_mod(x, pp2, pow2((pos - pos2) as nat) as int);
            vstd::arithmetic::div_mod::lemma_mod_mod(raw, pp2, pow2((pos - pos2) as nat) as int);
        }
        lemma_extract_from_low(x, pos2, width2);
        lemma_extract_from_low(raw, pos2, width2);
    } else {
        // both reads are functions of the bits above `pos + width`
        let pc = pow2((pos + width) as nat) as int;
        vstd::arithmetic::power2::lemma_pow2_pos((pos + width) as nat);
        assert(x / pc == raw / pc);
        vstd::arithmetic::power2::lemma_pow2_adds((pos + width) as nat, (pos2 - pos
            - width) as nat);
        vstd::arithmetic::power2::lemma_pow2_pos((pos2 - pos - width) as nat);
        let k = pow2((pos2 - pos - width) as nat) as int;
        assert(x / pp2 == (x / pc) / k) by {
            vstd::arithmetic::div_mod::lemma_div_denominator(x, pc, k);
        }
        assert(raw / pp2 == (raw / pc) / k) by {
            vstd::arithmetic::div_mod::lemma_div_denominator(raw, pc, k);
        }
        assert(x / pp2 == raw / pp2);
    }
}

/// A field's value is a function of the value modulo `2^(pos+width)`:
/// explicitly, `extract_bits(raw) == extract_bits(raw % 2^(pos+width))`
/// via the breakdown of `raw` around the field.
proof fn lemma_extract_from_low(raw: int, pos: nat, width: nat)
    requires
        raw >= 0,
    ensures
        extract_bits(raw, pos, width) == (raw % (pow2((pos + width) as nat) as int) - raw % (
        pow2(pos) as nat as int)) / (pow2(pos) as int),
{
    let pp = pow2(pos) as int;
    let pw = pow2(width) as int;
    let pc = pow2((pos + width) as nat) as int;
    vstd::arithmetic::power2::lemma_pow2_pos(pos);
    vstd::arithmetic::power2::lemma_pow2_pos(width);
    vstd::arithmetic::power2::lemma_pow2_adds(pos, width);
    vstd::arithmetic::div_mod::lemma_breakdown(raw, pp, pw);
    assert(raw % pc == pp * ((raw / pp) % pw) + raw % pp);
    assert((raw % pc - raw % pp) == pp * extract_bits(raw, pos, width));
    assert(pp * extract_bits(raw, pos, width) / pp == extract_bits(raw, pos, width)) by {
        vstd::arithmetic::div_mod::lemma_div_multiples_vanish(
            extract_bits(raw, pos, width),
            pp,
        );
        vstd::arithmetic::mul::lemma_mul_is_commutative(pp, extract_bits(raw, pos, width));
    }
}

/// Read the bits at `pos .. pos + width` out of `raw`.
pub fn extract(raw: u128, pos: u32, width: u32) -> (r: u128)
    requires
        pos + width <= 128,
        1 <= width < 128,
    ensures
        r as int == extract_bits(raw as int, pos as nat, width as nat),
        r < pow2(width as nat),
{
    let pp = pow2_u128(pos);
    let pw = pow2_u128(width);
    proof {
        vstd::arithmetic::power2::lemma_pow2_pos(pos as nat);
        vstd::arithmetic::power2::lemma_pow2_pos(width as nat);
    }
    (raw / pp) % pw
}

/// Write `v` into the bits at `pos .. pos + width` of `raw`.
pub fn insert(raw: u128, pos: u32, width: u32, v: u128) -> (r: u128)
    requires
        pos + width <= 128,
        1 <= width < 128,
        (v as int) < pow2(width as nat),
    ensures
        r as int == insert_bits(raw as int, pos as nat, width as nat, v as int),
{
    let pp = pow2_u128(pos);
    let e = extract(raw, pos, width);
    proof {
        vstd::arithmetic::power2::lemma_pow2_pos(pos as nat);
        lemma_split3(raw as int, pos as nat, width as nat);
        vstd::arithmetic::power2::lemma2_to64();
        vstd::arithmetic::power2::lemma2_to64_rest();
        vstd::arithmetic::power2::lemma_pow2_adds(64, 64);
        assert(pow2(128) == 0x100000000000000000000000000000000int);
        assert((raw as int) < pow2(128));
        lemma_insert_bits(raw as int, pos as nat, width as nat, v as int, 128);
        assert((e as int) * (pp as int) + (raw as int % (pp as int)) <= raw as int) by {
            vstd::arithmetic::mul::lemma_mul_nonnegative(
                raw as int / (pow2((pos + width) as nat) as int),
                pow2((pos + width) as nat) as int,
            );
        }
        vstd::arithmetic::div_mod::lemma_mod_bound(raw as int, pp as int);
        // the written field cannot push past the containing width
        vstd::arithmetic::power2::lemma_pow2_adds(pos as nat, width as nat);
        assert((v as int) * (pp as int) <= (pow2(width as nat) - 1) * (pp as int)) by {
            vstd::arithmetic::mul::lemma_mul_inequality(
                v as int,
                pow2(width as nat) - 1,
                pp as int,
            );
        }
        assert((pow2(width as nat) - 1) * (pp as int) < pow2(width as nat) * (pp as int)) by {
            vstd::arithmetic::mul::lemma_mul_strict_inequality(
                pow2(width as nat) - 1,
                pow2(width as nat) as int,
                pp as int,
            );
        }
        crate::arith::lemma_pow2_le((pos + width) as nat, 128);
        assert(pow2(width as nat) * (pp as int) == pow2((pos + width) as nat)) by {
            vstd::arithmetic::mul::lemma_mul_is_commutative(
                pow2(width as nat) as int,
                pp as int,
            );
        }
    }
    raw - e * pp + v * pp
}

/// Assemble a little-endian byte sequence into its value.
pub fn le_from_bytes(bytes: &[u8]) -> (r: u128)
    requires
        bytes@.len() <= 16,
    ensures
        r as int == le_value(bytes@),
        (r as int) < pow2((8 * bytes@.len()) as nat),
{
    let n = bytes.len();
    let mut i: usize = 0;
    let mut acc: u128 = 0;
    proof {
        assert(bytes@.take(0) =~= Seq::<u8>::empty());
        assert(pow2(0) == 1) by {
            vstd::arithmetic::power2::lemma2_to64();
        }
    }
    while i < n
        invariant
            i <= n,
            n == bytes@.len() <= 16,
            acc as int == le_value(bytes@.take(i as int)),
            (acc as int) < pow2((8 * i) as nat),
        decreases n - i,
    {
        let b = bytes[i];
        let p = pow2_u128(8 * (i as u32));
        proof {
            lemma_le_value_bound(bytes@.take(i as int));
            assert(bytes@.take(i as int + 1).drop_last() =~= bytes@.take(i as int));
            assert(bytes@.take(i as int + 1).last() == bytes@[i as int]);
            lemma_pow2_le((8 * i) as nat, 120);
            assert(pow2(120) <= pow2(127)) by {
                lemma_pow2_le(120, 127);
            }
            assert(pow2(127) == 0x8000_0000_0000_0000_0000_0000_0000_0000u128) by {
                vstd::arithmetic::power2::lemma2_to64();
                vstd::arithmetic::power2::lemma2_to64_rest();
                vstd::arithmetic::power2::lemma_pow2_adds(64, 63);
            }
            assert((b as int) * (p as int) <= 255 * (p as int)) by {
                vstd::arithmetic::mul::lemma_mul_inequality(b as int, 255, p as int);
            }
            vstd::arithmetic::power2::lemma_pow2_adds((8 * i) as nat, 8);
            assert(pow2(8) == 256) by {
                vstd::arithmetic::power2::lemma2_to64();
            }
            assert(pow2(((8 * i) + 8) as nat) == pow2((8 * (i + 1)) as nat));
            lemma_pow2_le((8 * (i + 1)) as nat, 128);
            vstd::arithmetic::power2::lemma2_to64();
            vstd::arithmetic::power2::lemma2_to64_rest();
            vstd::arithmetic::power2::lemma_pow2_adds(64, 64);
            assert(pow2(128) == 0x100000000000000000000000000000000int);
        }
        acc = acc + (b as u128) * p;
        i = i + 1;
    }
    proof {
        assert(bytes@.take(n as int) =~= bytes@);
    }
    acc
}

/// Break a value back into `width` little-endian bytes.
pub fn le_to_bytes(raw: u128, width: usize) -> (r: Vec<u8>)
    requires
        width <= 16,
        (raw as int) < pow2((8 * width) as nat),
    ensures
        r@.len() == width,
        le_value(r@) == raw as int,
{
    let mut out: Vec<u8> = Vec::new();
    let mut v = raw;
    let mut i: usize = 0;
    proof {
        assert(out@ =~= Seq::<u8>::empty());
        assert(pow2(0) == 1) by {
            vstd::arithmetic::power2::lemma2_to64();
        }
        assert((raw as int) * 1 == raw as int) by {
            vstd::arithmetic::mul::lemma_mul_basics(raw as int);
        }
    }
    while i < width
        invariant
            i <= width,
            width <= 16,
            out@.len() == i,
            le_value(out@) + (v as int) * (pow2((8 * i) as nat) as int) == raw as int,
            (v as int) < pow2((8 * (width - i)) as nat),
        decreases width - i,
    {
        let b = (v % 256) as u8;
        let ghost old_out = out@;
        let ghost old_v = v as int;
        out.push(b);
        v = v / 256;
        i = i + 1;
        proof {
            assert(out@.drop_last() =~= old_out);
            assert(out@.last() == b);
            vstd::arithmetic::div_mod::lemma_fundamental_div_mod(old_v, 256);
            vstd::arithmetic::power2::lemma_pow2_adds((8 * (i - 1)) as nat, 8);
            assert(pow2(8) == 256) by {
                vstd::arithmetic::power2::lemma2_to64();
            }
            let pk = pow2((8 * (i - 1)) as nat) as int;
            assert(le_value(out@) == le_value(old_out) + (b as int) * pk);
            assert(old_v == 256 * (old_v / 256) + (b as int));
            assert((256 * (old_v / 256) + (b as int)) * pk == (old_v / 256) * (256 * pk) + (
            b as int) * pk) by {
                vstd::arithmetic::mul::lemma_mul_is_distributive_add_other_way(
                    pk,
                    256 * (old_v / 256),
                    b as int,
                );
                vstd::arithmetic::mul::lemma_mul_is_associative(old_v / 256, 256, pk);
                vstd::arithmetic::mul::lemma_mul_is_commutative(256, old_v / 256);
            }
            assert((v as int) * (pow2((8 * i) as nat) as int) == (old_v / 256) * (256 * pk)) by {
                vstd::arithmetic::mul::lemma_mul_is_commutative(256, pk);
            }
            // the remaining value shrinks by eight bits
            vstd::arithmetic::power2::lemma_pow2_adds((8 * (width - i)) as nat, 8);
            assert(old_v < pow2((8 * (width - i)) as nat) as int * 256);
            assert(v as int == old_v / 256);
            assert((v as int) < pow2((8 * (width - i)) as nat)) by {
                vstd::arithmetic::div_mod::lemma_multiply_divide_lt(
                    old_v,
                    256,
                    pow2((8 * (width - i)) as nat) as int,
                );
                vstd::arithmetic::mul::lemma_mul_is_commutative(
                    pow2((8 * (width - i)) as nat) as int,
                    256,
                );
            }
        }
    }
    proof {
        assert(pow2(0) == 1) by {
            vstd::arithmetic::power2::lemma2_to64();
        }
        assert((v as int) * 1 == v as int) by {
            vstd::arithmetic::mul::lemma_mul_basics(v as int);
        }
    }
    out
}

} // verus!

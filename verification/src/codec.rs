use vstd::prelude::*;
use vstd::arithmetic::power2::pow2;
use crate::arith::{
    pow10, rounded_div, pow2_u128, pow10_u128, lemma_rounded_div_error, lemma_rounded_div_le,
    lemma_rounded_div_small, lemma_pow2_le, lemma_pow10_pos, lemma_pow10_bounds,
};
use crate::fixed::Fixed;

verus! {

/// Coefficients for the DIRECT data format: slope, offset and decimal
/// exponent.  The values in use depend on the device and the condition;
/// they are supplied by the caller, either from device constants or from
/// a COEFFICIENTS command read at run time.
#[derive(Copy, Clone, PartialEq, Eq, Structural, Debug)]
#[allow(non_snake_case)]
pub struct Coefficients {
    /// Slope coefficient.
    pub m: i32,
    /// Offset.
    pub b: i16,
    /// Decimal exponent.
    pub R: i8,
}

/// A datum in the DIRECT data format: the 16-bit wire word together with
/// the coefficients it is to be interpreted under.  The real value it
/// stands for is `(y * 10^-R - b) / m`, where `y` is the wire word
/// reinterpreted as a signed 16-bit integer.
#[derive(Copy, Clone, PartialEq, Eq, Structural, Debug)]
pub struct Direct(pub u16, pub Coefficients);

/// A datum in the LINEAR11 data format: 5 bits of signed exponent `N` in
/// the high bits and 11 bits of signed mantissa `Y` in the low bits,
/// standing for the real value `Y * 2^N`.
#[derive(Copy, Clone, PartialEq, Eq, Structural, Debug)]
pub struct Linear11(pub u16);

/// The signed exponent that governs a ULINEAR16 datum.  It is not part of
/// the wire word: it comes out of band, from the VOUT_MODE command.
#[derive(Copy, Clone, PartialEq, Eq, Structural, Debug)]
pub struct ULinear16Exponent(pub i8);

/// A datum in the unsigned LINEAR16 data format: a 16-bit unsigned
/// mantissa standing for the real value `raw * 2^exp`, with the exponent
/// supplied out of band.
#[derive(Copy, Clone, PartialEq, Eq, Structural, Debug)]
pub struct ULinear16(pub u16, pub ULinear16Exponent);

/// The wire image of an integer: its residue modulo `2^16`.
pub open spec fn wrap16(y: int) -> int {
    y % (pow2(16) as int)
}

/// A 16-bit wire word reinterpreted as a signed 16-bit value.
pub open spec fn sign16(w: int) -> int {
    if w >= pow2(15) {
        w - pow2(16)
    } else {
        w
    }
}

/// The DIRECT encoding of the fixed-point value `units / 2^32` under
/// coefficients `(m, b, r)`, before reduction to 16 bits: the exact
/// rational `(m * x + b) * 10^r` rounded to the nearest integer, ties
/// away from zero.
pub open spec fn direct_scaled(units: int, m: int, b: int, r: int) -> int {
    let a = m * units + b * (pow2(32) as int);
    if r >= 0 {
        rounded_div(a * pow10(r as nat), pow2(31) as int)
    } else {
        rounded_div(a, pow10((-r) as nat) * (pow2(31) as int))
    }
}

/// The DIRECT wire word: the scaled value reduced to 16 bits.  Overflow
/// wraps around rather than failing; the caller range-checks upstream if
/// it cares.
pub open spec fn direct_encode_wire(units: int, m: int, b: int, r: int) -> int {
    wrap16(direct_scaled(units, m, b, r))
}

/// The signed exponent field of a LINEAR11 word.
pub open spec fn l11_exponent(w: int) -> int {
    if w / 2048 >= 16 {
        w / 2048 - 32
    } else {
        w / 2048
    }
}

/// The signed mantissa field of a LINEAR11 word.
pub open spec fn l11_mantissa(w: int) -> int {
    if w % 2048 >= 1024 {
        w % 2048 - 2048
    } else {
        w % 2048
    }
}

/// Whether the fixed-point value `units / 2^32` lies within the mantissa
/// range that a LINEAR11 exponent of `n` affords: `1023 * 2^n` above
/// zero, `-1024 * 2^n` below.
pub open spec fn l11_fits(units: int, n: int) -> bool
    recommends
        n >= -32,
{
    if units >= 0 {
        units <= 1023 * (pow2((n + 32) as nat) as int)
    } else {
        -units <= 1024 * (pow2((n + 32) as nat) as int)
    }
}

/// Whether LINEAR11 can encode the fixed-point value `units / 2^32` at
/// all: zero is rejected, as is any value whose ideal exponent falls
/// outside the signed 5-bit range.
pub open spec fn l11_encodable(units: int) -> bool {
    units != 0 && l11_fits(units, 15) && !l11_fits(units, -17)
}

/// The LINEAR11 wire word `w` is the encoding of `units / 2^32`: its
/// exponent is the smallest that fits (or the floor of the range), and
/// its mantissa is the value scaled by that exponent, rounded to nearest
/// with ties away from zero.
pub open spec fn l11_encodes(units: int, w: int) -> bool {
    let n = l11_exponent(w);
    let y = l11_mantissa(w);
    &&& 0 <= w < pow2(16)
    &&& -16 <= n <= 15
    &&& l11_fits(units, n)
    &&& (n == -16 || !l11_fits(units, n - 1))
    &&& y == rounded_div(units, pow2((n + 31) as nat) as int)
}

/// The ULINEAR16 mantissa for the fixed-point value `units / 2^32` under
/// exponent `exp`: `units / 2^(32+exp)` rounded to nearest, ties away
/// from zero (exact whenever the divisor degenerates to a multiplier).
pub open spec fn ul16_rounded(units: int, exp: int) -> int {
    if exp >= -31 {
        rounded_div(units, pow2((exp + 31) as nat) as int)
    } else {
        units * (pow2(((-32) - exp) as nat) as int)
    }
}

/// `(-v) % m` in terms of `v % m`, for non-negative `v`.
proof fn lemma_neg_mod(v: int, m: int)
    requires
        v >= 0,
        m > 0,
    ensures
        (-v) % m == if v % m == 0 {
            0int
        } else {
            m - (v % m)
        },
{
    vstd::arithmetic::div_mod::lemma_fundamental_div_mod(v, m);
    vstd::arithmetic::div_mod::lemma_mod_bound(v, m);
    let d = v / m;
    let t = v % m;
    if t == 0 {
        assert(m * (-d) == -(m * d)) by {
            vstd::arithmetic::mul::lemma_mul_unary_negation(d, m);
            vstd::arithmetic::mul::lemma_mul_is_commutative(m, d);
            vstd::arithmetic::mul::lemma_mul_is_commutative(m, -d);
            vstd::arithmetic::mul::lemma_mul_is_commutative(-d, m);
        }
        assert(-v == m * (-d) + 0);
        vstd::arithmetic::div_mod::lemma_mod_multiples_vanish(-d, 0, m);
        vstd::arithmetic::div_mod::lemma_small_mod(0, m as nat);
    } else {
        assert(m * (-d - 1) == -(m * d) - m) by {
            vstd::arithmetic::mul::lemma_mul_is_distributive_add(m, -d, -1);
            vstd::arithmetic::mul::lemma_mul_unary_negation(d, m);
            vstd::arithmetic::mul::lemma_mul_is_commutative(m, d);
            vstd::arithmetic::mul::lemma_mul_is_commutative(m, -d);
            vstd::arithmetic::mul::lemma_mul_is_commutative(-d, m);
            vstd::arithmetic::mul::lemma_mul_basics(m);
        }
        assert(-v == m * (-d - 1) + (m - t));
        vstd::arithmetic::div_mod::lemma_mod_multiples_vanish(-d - 1, m - t, m);
        vstd::arithmetic::div_mod::lemma_small_mod((m - t) as nat, m as nat);
    }
}

/// A value already in the signed 16-bit range survives the wire round
/// trip: wrapping to 16 bits and reading the word back as signed is the
/// identity.
pub proof fn lemma_wrap16_signed(y: int)
    requires
        -pow2(15) <= y < pow2(15),
    ensures
        sign16(wrap16(y)) == y,
{
    vstd::arithmetic::power2::lemma2_to64();
    let m = pow2(16) as int;
    if y >= 0 {
        vstd::arithmetic::div_mod::lemma_small_mod(y as nat, 16 * 0x1000);
        assert(wrap16(y) == y);
    } else {
        assert(m * 1 + y == y + m);
        vstd::arithmetic::div_mod::lemma_mod_multiples_vanish(1, y, m);
        vstd::arithmetic::div_mod::lemma_small_mod((y + m) as nat, m as nat);
        assert(wrap16(y) == y + m);
    }
}

/// `10^k mod 2^48`, computable for any `k`.
fn pow10_mod_p48(k: u32) -> (r: u128)
    ensures
        r as int == pow10(k as nat) % (pow2(48) as int),
        r < pow2(48),
{
    let p48: u128 = 0x1_0000_0000_0000;
    proof {
        assert(pow2(48) == 0x1_0000_0000_0000) by {
            vstd::arithmetic::power2::lemma2_to64();
            vstd::arithmetic::power2::lemma_pow2_adds(32, 16);
        }
        vstd::arithmetic::power::lemma_pow0(10);
        vstd::arithmetic::div_mod::lemma_small_mod(1, pow2(48));
    }
    let mut i: u32 = 0;
    let mut acc: u128 = 1;
    while i < k
        invariant
            i <= k,
            p48 == pow2(48),
            p48 == 0x1_0000_0000_0000,
            acc as int == pow10(i as nat) % (pow2(48) as int),
            acc < 0x1_0000_0000_0000,
        decreases k - i,
    {
        proof {
            vstd::arithmetic::power::lemma_pow1(10);
            crate::arith::lemma_pow10_adds(i as nat, 1);
            vstd::arithmetic::div_mod::lemma_mul_mod_noop_left(
                pow10(i as nat),
                10,
                pow2(48) as int,
            );
            vstd::arithmetic::div_mod::lemma_mod_bound(
                (acc * 10) as int,
                pow2(48) as int,
            );
        }
        acc = (acc * 10) % p48;
        i = i + 1;
    }
    acc
}

/// The low 16 bits of `rounded_div(mag * 10^r, 2^31)`, computed without
/// ever forming the full product.
fn wrap16_rounded_scaled(mag: u128, r: u32) -> (q: u16)
    requires
        mag < pow2(95),
    ensures
        q as int == rounded_div((mag as int) * pow10(r as nat), pow2(31) as int) % (pow2(
            16,
        ) as int),
{
    let p48: u128 = 0x1_0000_0000_0000;
    let p32: u128 = 0x1_0000_0000;
    let p31: u128 = 0x8000_0000;
    proof {
        vstd::arithmetic::power2::lemma2_to64();
        vstd::arithmetic::power2::lemma_pow2_adds(32, 16);
        assert(pow2(48) == 0x1_0000_0000_0000);
    }
    let amod = mag % p48;
    let pmod = pow10_mod_p48(r);
    proof {
        assert(amod < 0x1_0000_0000_0000 && pmod < 0x1_0000_0000_0000);
        assert(amod * pmod < 0x1_0000_0000_0000_0000_0000_0000) by (nonlinear_arith)
            requires
                amod < 0x1_0000_0000_0000,
                pmod < 0x1_0000_0000_0000,
        ;
    }
    let t = (amod * pmod) % p48;
    let u0 = t + p31;
    let u = if u0 >= p48 {
        u0 - p48
    } else {
        u0
    };
    let q = u / p32;
    proof {
        let m16 = pow2(16) as int;
        let m31 = pow2(31) as int;
        let m32 = pow2(32) as int;
        let m48 = pow2(48) as int;
        let tt = (mag as int) * pow10(r as nat);
        let xx = tt + m31;
        lemma_pow10_pos(r as nat);
        assert(tt >= 0) by {
            vstd::arithmetic::mul::lemma_mul_nonnegative(mag as int, pow10(r as nat));
        }
        // rounded_div(tt, 2^31) == (tt + 2^31) / 2^32
        assert(2 * m31 == m32) by {
            vstd::arithmetic::power2::lemma_pow2_adds(31, 1);
            vstd::arithmetic::power2::lemma2_to64();
        }
        assert(rounded_div(tt, m31) == xx / m32);
        // (xx / 2^32) % 2^16 == (xx % 2^48) / 2^32
        assert(m48 == m32 * m16) by {
            vstd::arithmetic::power2::lemma_pow2_adds(32, 16);
        }
        vstd::arithmetic::div_mod::lemma_breakdown(xx, m32, m16);
        assert(xx % m48 == m32 * ((xx / m32) % m16) + xx % m32);
        vstd::arithmetic::div_mod::lemma_mod_bound(xx, m32);
        assert((xx % m48) / m32 == (xx / m32) % m16) by {
            vstd::arithmetic::div_mod::lemma_hoist_over_denominator(
                xx % m32,
                (xx / m32) % m16,
                m32 as nat,
            );
            vstd::arithmetic::div_mod::lemma_basic_div(xx % m32, m32);
        }
        // xx % 2^48 == ((tt % 2^48) + 2^31) % 2^48
        vstd::arithmetic::div_mod::lemma_add_mod_noop(tt, m31, m48);
        vstd::arithmetic::div_mod::lemma_small_mod(pow2(31), pow2(48));
        // tt % 2^48 == (amod * pmod) % 2^48
        vstd::arithmetic::div_mod::lemma_mul_mod_noop(mag as int, pow10(r as nat), m48);
        vstd::arithmetic::div_mod::lemma_mod_bound(mag as int, m48);
        vstd::arithmetic::div_mod::lemma_mod_bound((amod * pmod) as int, m48);
        assert(t as int == tt % m48);
        // the branch reduces t + 2^31 modulo 2^48
        if u0 >= p48 {
            assert(u0 as int - m48 < m48);
            vstd::arithmetic::div_mod::lemma_mod_multiples_vanish(1, u0 as int - m48, m48);
            vstd::arithmetic::div_mod::lemma_small_mod((u0 - p48) as nat, pow2(48));
            assert(u as int == (t as int + m31) % m48);
        } else {
            vstd::arithmetic::div_mod::lemma_small_mod(u0 as nat, pow2(48));
            assert(u as int == (t as int + m31) % m48);
        }
        assert(u as int == xx % m48);
        assert(q as int == (xx / m32) % m16);
        vstd::arithmetic::div_mod::lemma_mod_bound(xx / m32, m16);
    }
    q as u16
}

/// The 16-bit wrap of a signed value given the wrap of its magnitude.
fn wrap16_signed(neg: bool, q: u16) -> (w: u16)
    ensures
        neg ==> w as int == (if q == 0 {
            0int
        } else {
            pow2(16) - q
        }),
        !neg ==> w == q,
{
    proof {
        vstd::arithmetic::power2::lemma2_to64();
    }
    if neg {
        if q == 0 {
            0
        } else {
            (0x10000u32 - q as u32) as u16
        }
    } else {
        q
    }
}

impl Direct {
    /// Encode the fixed-point value `x` under `coefficients`: the wire
    /// word is `(m*x + b) * 10^R` rounded to the nearest integer, ties
    /// away from zero, reduced modulo `2^16`.  Encoding never fails;
    /// a value outside the 16-bit window wraps, as the format prescribes.
    pub fn from_fixed(x: Fixed, coefficients: Coefficients) -> (r: Direct)
        ensures
            r.1 == coefficients,
            r.0 as int == direct_encode_wire(
                x.units(),
                coefficients.m as int,
                coefficients.b as int,
                coefficients.R as int,
            ),
    {
        let m128: i128 = coefficients.m as i128;
        let u128v: i128 = x.0 as i128;
        proof {
            assert(m128 * u128v <= 0x4000_0000_0000_0000_0000_0000i128 && m128 * u128v
                >= -0x4000_0000_0000_0000_0000_0000i128) by (nonlinear_arith)
                requires
                    -0x80000000 <= m128 <= 0x7fffffff,
                    -0x8000_0000_0000_0000i128 <= u128v <= 0x7fff_ffff_ffff_ffffi128,
            ;
        }
        let a: i128 = m128 * u128v + (coefficients.b as i128) * 0x1_0000_0000;
        let neg = a < 0;
        let mag: u128 = if neg {
            (-a) as u128
        } else {
            a as u128
        };
        proof {
            assert(pow2(95) == 0x8000_0000_0000_0000_0000_0000u128) by {
                vstd::arithmetic::power2::lemma2_to64();
                vstd::arithmetic::power2::lemma2_to64_rest();
                vstd::arithmetic::power2::lemma_pow2_adds(64, 31);
            }
            assert(pow2(32) == 0x1_0000_0000) by {
                vstd::arithmetic::power2::lemma2_to64();
            }
        }
        let ghost units = x.units();
        let ghost mm = coefficients.m as int;
        let ghost bb = coefficients.b as int;
        let ghost rr = coefficients.R as int;
        let ghost aa = mm * units + bb * (pow2(32) as int);
        proof {
            assert(a as int == aa);
            assert(mag as int == if aa >= 0 { aa } else { -aa });
            assert(mag < 0x8000_0000_0000_0000_0000_0000u128);
            assert(mag < pow2(95));
        }
        let wire: u16;
        if coefficients.R >= 0 {
            let q = wrap16_rounded_scaled(mag, coefficients.R as u32);
            wire = wrap16_signed(neg, q);
            proof {
                vstd::arithmetic::power2::lemma2_to64();
                let m16 = pow2(16) as int;
                let m31 = pow2(31) as int;
                let p = pow10(rr as nat);
                lemma_pow10_pos(rr as nat);
                if neg {
                    assert((mag as int) * p == -(aa * p)) by {
                        vstd::arithmetic::mul::lemma_mul_unary_negation(aa, p);
                    }
                    assert(aa * p < 0) by {
                        vstd::arithmetic::mul::lemma_mul_strictly_positive(-aa, p);
                        vstd::arithmetic::mul::lemma_mul_unary_negation(aa, p);
                    }
                    vstd::arithmetic::power2::lemma_pow2_pos(31);
                    assert(direct_scaled(units, mm, bb, rr) == -rounded_div((mag as int) * p, m31));
                    assert(rounded_div((mag as int) * p, m31) >= 0) by {
                        vstd::arithmetic::mul::lemma_mul_nonnegative(mag as int, p);
                        vstd::arithmetic::div_mod::lemma_div_pos_is_pos(
                            (mag as int) * p + m31,
                            2 * m31,
                        );
                    }
                    lemma_neg_mod(rounded_div((mag as int) * p, m31), m16);
                    vstd::arithmetic::div_mod::lemma_mod_bound(
                        rounded_div((mag as int) * p, m31),
                        m16,
                    );
                    vstd::arithmetic::div_mod::lemma_small_mod(q as nat, pow2(16));
                } else {
                    assert(aa * p >= 0) by {
                        vstd::arithmetic::mul::lemma_mul_nonnegative(aa, p);
                    }
                    assert(direct_scaled(units, mm, bb, rr) == rounded_div((mag as int) * p, m31));
                    vstd::arithmetic::div_mod::lemma_small_mod(q as nat, pow2(16));
                }
            }
        } else {
            let s: u32 = if coefficients.R == -128 {
                128
            } else {
                (-(coefficients.R as i32)) as u32
            };
            if s >= 22 {
                // the divisor 10^s * 2^32 dwarfs |a| < 2^95: everything
                // rounds to zero
                wire = 0;
                proof {
                    let h = pow10(s as nat) * (pow2(31) as int);
                    lemma_pow10_bounds(s as nat);
                    lemma_pow2_le(66, (3 * s as nat) as nat);
                    assert(h >= pow2(66) * (pow2(31) as int)) by {
                        vstd::arithmetic::mul::lemma_mul_inequality(
                            pow2(66) as int,
                            pow10(s as nat),
                            pow2(31) as int,
                        );
                    }
                    vstd::arithmetic::power2::lemma_pow2_adds(66, 31);
                    lemma_pow2_le(95, 97);
                    assert(h >= pow2(95));
                    lemma_rounded_div_small(aa, h);
                    vstd::arithmetic::power2::lemma_pow2_pos(16);
                    vstd::arithmetic::div_mod::lemma_small_mod(0, pow2(16));
                }
            } else {
                let p = pow10_u128(s);
                proof {
                    lemma_pow10_bounds(s as nat);
                    lemma_pow2_le((4 * s as nat) as nat, 84);
                    assert(pow2(31) == 0x8000_0000) by {
                        vstd::arithmetic::power2::lemma2_to64();
                    }
                    assert(pow2(84) * (pow2(31) as int) == pow2(115) as int) by {
                        vstd::arithmetic::power2::lemma_pow2_adds(84, 31);
                    }
                    assert(p * 0x8000_0000 <= pow2(84) * (pow2(31) as int)) by {
                        vstd::arithmetic::mul::lemma_mul_inequality(
                            p as int,
                            pow2(84) as int,
                            pow2(31) as int,
                        );
                    }
                    assert(pow2(115) < pow2(126)) by {
                        vstd::arithmetic::power2::lemma_pow2_strictly_increases(115, 126);
                    }
                    assert(pow2(126) == 0x4000_0000_0000_0000_0000_0000_0000_0000u128) by {
                        vstd::arithmetic::power2::lemma2_to64();
                        vstd::arithmetic::power2::lemma2_to64_rest();
                        vstd::arithmetic::power2::lemma_pow2_adds(64, 62);
                    }
                    assert(pow2(31) == 0x8000_0000) by {
                        vstd::arithmetic::power2::lemma2_to64();
                    }
                }
                let h: u128 = p * 0x8000_0000;
                let q0: u128 = (mag + h) / (2 * h);
                proof {
                    let hh = pow10(s as nat) * (pow2(31) as int);
                    assert(h as int == hh);
                    let qq = rounded_div((mag as int), hh);
                    assert(q0 as int == if aa >= 0 { qq } else { -rounded_div(aa, hh) });
                    // the quotient is at most 2^64: mag < 2^95, 2h >= 2^32
                    assert(mag as int <= pow2(64) * (2 * hh)) by {
                        lemma_pow10_pos(s as nat);
                        assert(2 * hh >= 2 * (pow2(31) as int)) by {
                            vstd::arithmetic::mul::lemma_mul_inequality(
                                1,
                                pow10(s as nat),
                                pow2(31) as int,
                            );
                        }
                        vstd::arithmetic::power2::lemma_pow2_adds(31, 1);
                        vstd::arithmetic::power2::lemma_pow2_adds(64, 32);
                        assert(pow2(64) * (2 * hh) >= pow2(64) * (pow2(32) as int)) by {
                            vstd::arithmetic::mul::lemma_mul_inequality(
                                pow2(32) as int,
                                2 * hh,
                                pow2(64) as int,
                            );
                        }
                        lemma_pow2_le(95, 96);
                    }
                    lemma_rounded_div_le(mag as int, hh, pow2(64) as int);
                }
                let q16 = (q0 % 0x10000) as u16;
                wire = wrap16_signed(neg, q16);
                proof {
                    let m16 = pow2(16) as int;
                    let hh = pow10(s as nat) * (pow2(31) as int);
                    let qq = rounded_div(mag as int, hh);
                    assert(m16 == 0x10000) by {
                        vstd::arithmetic::power2::lemma2_to64();
                    }
                    if neg {
                        assert(direct_scaled(units, mm, bb, rr) == -qq);
                        lemma_neg_mod(qq, m16);
                        vstd::arithmetic::div_mod::lemma_mod_bound(qq, m16);
                        if qq % m16 == 0 {
                            assert(wire as int == wrap16(-qq));
                        } else {
                            assert(wire as int == wrap16(-qq));
                        }
                    } else {
                        assert(direct_scaled(units, mm, bb, rr) == qq);
                        vstd::arithmetic::div_mod::lemma_mod_bound(qq, m16);
                    }
                }
            }
        }
        Direct(wire, coefficients)
    }
}

impl Linear11 {
    /// The signed 5-bit exponent in the high bits of the word.
    pub fn exponent(&self) -> (r: i8)
        ensures
            r as int == l11_exponent(self.0 as int),
            -16 <= r <= 15,
    {
        let e = self.0 / 2048;
        if e >= 16 {
            (e as i8) - 32
        } else {
            e as i8
        }
    }

    /// The signed 11-bit mantissa in the low bits of the word.
    pub fn mantissa(&self) -> (r: i16)
        ensures
            r as int == l11_mantissa(self.0 as int),
            -1024 <= r <= 1023,
    {
        let m = self.0 % 2048;
        if m >= 1024 {
            (m as i16) - 2048
        } else {
            m as i16
        }
    }

    /// The exact fixed-point value of this datum: `Y * 2^N` always fits.
    pub fn to_fixed(&self) -> (r: Fixed)
        ensures
            r.units() == l11_mantissa(self.0 as int) * (pow2(
                (l11_exponent(self.0 as int) + 32) as nat,
            ) as int),
    {
        let n = self.exponent();
        let y = self.mantissa();
        let p = pow2_u128((n as i32 + 32) as u32);
        proof {
            lemma_pow2_le((n as i32 + 32) as nat, 47);
            assert(pow2(47) == 0x8000_0000_0000) by {
                vstd::arithmetic::power2::lemma2_to64();
                vstd::arithmetic::power2::lemma_pow2_adds(32, 15);
            }
            assert((y as int) * (p as int) <= 1024 * 0x8000_0000_0000 && (y as int) * (p as int)
                >= -1024 * 0x8000_0000_0000) by (nonlinear_arith)
                requires
                    -1024 <= y as int <= 1023,
                    0 <= p as int <= 0x8000_0000_0000,
            ;
        }
        Fixed((y as i64) * (p as i64))
    }

    /// Encode the fixed-point value `x` in LINEAR11.  The exponent chosen
    /// is the smallest that brings the value within mantissa range, which
    /// maximises precision; the mantissa is then the value scaled by that
    /// exponent, rounded to nearest with ties away from zero.  Returns
    /// `None` when no 5-bit exponent fits: for zero, for magnitudes above
    /// the format's ceiling, and for magnitudes so small that the ideal
    /// exponent would lie below -16.
    pub fn from_fixed(x: Fixed) -> (r: Option<Linear11>)
        ensures
            r is Some <==> l11_encodable(x.units()),
            r matches Some(l) ==> l11_encodes(x.units(), l.0 as int),
    {
        proof {
            vstd::arithmetic::power2::lemma2_to64();
        }
        if x.0 == 0 {
            return None;
        }
        let neg = x.0 < 0;
        let mag: u128 = if neg {
            (-(x.0 as i128)) as u128
        } else {
            x.0 as u128
        };
        let bound: u128 = if neg {
            1024
        } else {
            1023
        };
        let ghost units = x.units();
        proof {
            assert(mag as int == if units >= 0 { units } else { -units });
        }
        // the ideal exponent would be below -16: reject
        if mag <= bound * 0x8000 {
            proof {
                assert(pow2(15) == 0x8000);
                assert(l11_fits(units, -17));
            }
            return None;
        }
        // the value is beyond what exponent 15 can carry: reject
        let p47 = pow2_u128(47);
        proof {
            assert(pow2(47) == 0x8000_0000_0000) by {
                vstd::arithmetic::power2::lemma2_to64();
                vstd::arithmetic::power2::lemma_pow2_adds(32, 15);
            }
        }
        if mag > bound * p47 {
            proof {
                assert(!l11_fits(units, 15));
            }
            return None;
        }
        let mut n: i32 = -16;
        let mut t = pow2_u128(16);
        let mut found = mag <= bound * t;
        while !found && n < 15
            invariant
                -16 <= n <= 15,
                mag as int == if units >= 0 { units } else { -units },
                bound as int == if units >= 0 { 1023int } else { 1024int },
                mag >= 1,
                found <==> l11_fits(units, n as int),
                forall|m: int| -16 <= m < n ==> !l11_fits(units, m),
                l11_fits(units, 15),
            decreases 15 - n,
        {
            n = n + 1;
            t = pow2_u128((n + 32) as u32);
            proof {
                lemma_pow2_le((n + 32) as nat, 47);
                assert(pow2(47) == 0x8000_0000_0000) by {
                    vstd::arithmetic::power2::lemma2_to64();
                    vstd::arithmetic::power2::lemma_pow2_adds(32, 15);
                }
            }
            found = mag <= bound * t;
        }
        proof {
            assert(l11_fits(units, n as int));
            assert(n as int == -16 || !l11_fits(units, n as int - 1));
        }
        let h = pow2_u128((n + 31) as u32);
        proof {
            vstd::arithmetic::power2::lemma_pow2_pos((n + 31) as nat);
            lemma_pow2_le((n + 31) as nat, 46);
            assert(pow2(46) == 0x4000_0000_0000) by {
                vstd::arithmetic::power2::lemma2_to64();
                vstd::arithmetic::power2::lemma_pow2_adds(32, 14);
            }
        }
        let q: u128 = (mag + h) / (2 * h);
        proof {
            vstd::arithmetic::power2::lemma_pow2_adds((n + 31) as nat, 1);
            assert(bound * (2 * (h as int)) == bound * (pow2((n + 32) as nat) as int));
            lemma_rounded_div_le(mag as int, h as int, bound as int);
            assert(rounded_div(units, h as int) == if units >= 0 {
                rounded_div(mag as int, h as int)
            } else {
                -rounded_div(mag as int, h as int)
            });
        }
        let y_bits: u16 = if neg {
            if q == 0 {
                0
            } else {
                (2048 - q as u32) as u16
            }
        } else {
            q as u16
        };
        let n_bits: u16 = if n < 0 {
            (n + 32) as u16
        } else {
            n as u16
        };
        let w: u16 = n_bits * 2048 + y_bits;
        proof {
            assert(y_bits < 2048);
            assert((n_bits as int) * 2048 + (y_bits as int) < 0x10000);
            assert(w as int / 2048 == n_bits as int && w as int % 2048 == y_bits as int) by {
                vstd::arithmetic::div_mod::lemma_fundamental_div_mod_converse(
                    w as int,
                    2048,
                    n_bits as int,
                    y_bits as int,
                );
            }
            assert(l11_exponent(w as int) == n as int);
            assert(l11_mantissa(w as int) == rounded_div(units, pow2((n + 31) as nat) as int));
            assert(pow2(16) == 0x10000);
            assert(l11_encodes(units, w as int));
        }
        Some(Linear11(w))
    }
}

impl ULinear16 {
    /// The exact fixed-point value of this datum, when the exponent lets
    /// it be represented: `raw * 2^exp` with `-32 <= exp <= 15`.
    pub fn to_fixed(&self) -> (r: Option<Fixed>)
        ensures
            r is Some <==> -32 <= self.1.0 <= 15,
            r matches Some(f) ==> f.units() == (self.0 as int) * (pow2(
                (self.1.0 + 32) as nat,
            ) as int),
    {
        if self.1.0 < -32 || self.1.0 > 15 {
            return None;
        }
        let p = pow2_u128((self.1.0 as i32 + 32) as u32);
        proof {
            lemma_pow2_le((self.1.0 as i32 + 32) as nat, 47);
            assert(pow2(47) == 0x8000_0000_0000) by {
                vstd::arithmetic::power2::lemma2_to64();
                vstd::arithmetic::power2::lemma_pow2_adds(32, 15);
            }
            assert((self.0 as int) * (p as int) <= 0xffff * 0x8000_0000_0000) by (nonlinear_arith)
                requires
                    0 <= self.0 as int <= 0xffff,
                    0 <= p as int <= 0x8000_0000_0000,
            ;
        }
        Some(Fixed((self.0 as i64) * (p as i64)))
    }

    /// Encode the fixed-point value `x` under the given exponent: the
    /// mantissa is `x / 2^exp` rounded to the nearest integer, ties away
    /// from zero.  Fails when the mantissa would exceed the unsigned
    /// 16-bit range; a negative mantissa is clamped to zero.
    pub fn from_fixed(x: Fixed, exp: ULinear16Exponent) -> (r: Option<ULinear16>)
        ensures
            r is Some <==> ul16_rounded(x.units(), exp.0 as int) <= 0xffff,
            r matches Some(u) ==> u.1 == exp && u.0 as int == (if ul16_rounded(
                x.units(),
                exp.0 as int,
            ) < 0 {
                0int
            } else {
                ul16_rounded(x.units(), exp.0 as int)
            }),
    {
        proof {
            vstd::arithmetic::power2::lemma2_to64();
        }
        let ghost units = x.units();
        let e: i32 = exp.0 as i32;
        let neg = x.0 < 0;
        let mag: u128 = if neg {
            (-(x.0 as i128)) as u128
        } else {
            x.0 as u128
        };
        proof {
            assert(mag as int == if units >= 0 { units } else { -units });
            assert(mag <= 0x8000_0000_0000_0000u128);
        }
        if e <= -32 {
            // pure magnification: y = units * 2^(-32-e)
            let k = ((-32) - e) as u32;
            if x.0 == 0 {
                proof {
                    assert(units * (pow2(k as nat) as int) == 0) by {
                        vstd::arithmetic::mul::lemma_mul_basics(pow2(k as nat) as int);
                    }
                }
                return Some(ULinear16(0, exp));
            }
            if neg {
                proof {
                    vstd::arithmetic::mul::lemma_mul_strictly_positive(
                        mag as int,
                        pow2(k as nat) as int,
                    );
                    assert(units * (pow2(k as nat) as int) == -((mag as int) * (pow2(
                        k as nat,
                    ) as int))) by {
                        vstd::arithmetic::mul::lemma_mul_unary_negation(
                            mag as int,
                            pow2(k as nat) as int,
                        );
                    }
                }
                return Some(ULinear16(0, exp));
            }
            if k >= 17 {
                proof {
                    lemma_pow2_le(17, k as nat);
                    assert((mag as int) * (pow2(k as nat) as int) >= 1 * (pow2(17) as int)) by {
                        vstd::arithmetic::mul::lemma_mul_inequality(1, mag as int, pow2(
                            k as nat,
                        ) as int);
                        vstd::arithmetic::mul::lemma_mul_inequality(
                            pow2(17) as int,
                            pow2(k as nat) as int,
                            mag as int,
                        );
                        vstd::arithmetic::mul::lemma_mul_is_commutative(mag as int, pow2(
                            k as nat,
                        ) as int);
                        vstd::arithmetic::mul::lemma_mul_inequality(
                            1,
                            mag as int,
                            pow2(17) as int,
                        );
                    }
                }
                return None;
            }
            let pk = pow2_u128(k);
            proof {
                assert(pow2(17) == 0x20000);
                lemma_pow2_le(k as nat, 16);
                assert((mag as int) * (pk as int) <= (mag as int) * 0x10000) by {
                    vstd::arithmetic::mul::lemma_mul_inequality(
                        pk as int,
                        0x10000,
                        mag as int,
                    );
                    vstd::arithmetic::mul::lemma_mul_is_commutative(pk as int, mag as int);
                    vstd::arithmetic::mul::lemma_mul_is_commutative(0x10000, mag as int);
                }
            }
            let y = mag * pk;
            if y > 0xffff {
                None
            } else {
                Some(ULinear16(y as u16, exp))
            }
        } else {
            // rounded division by 2^(32+e); half the divisor is 2^(31+e)
            let k = (31 + e) as u32;
            if k >= 127 {
                proof {
                    lemma_pow2_le(127, k as nat);
                    assert(pow2(127) == 0x8000_0000_0000_0000_0000_0000_0000_0000u128) by {
                        vstd::arithmetic::power2::lemma2_to64();
                        vstd::arithmetic::power2::lemma2_to64_rest();
                        vstd::arithmetic::power2::lemma_pow2_adds(64, 63);
                    }
                    lemma_rounded_div_small(units, pow2(k as nat) as int);
                }
                return Some(ULinear16(0, exp));
            }
            let h = pow2_u128(k);
            proof {
                vstd::arithmetic::power2::lemma_pow2_pos(k as nat);
                lemma_pow2_le(k as nat, 126);
                assert(pow2(126) == 0x4000_0000_0000_0000_0000_0000_0000_0000u128) by {
                    vstd::arithmetic::power2::lemma2_to64_rest();
                    vstd::arithmetic::power2::lemma_pow2_adds(64, 62);
                }
            }
            if neg {
                proof {
                    assert(rounded_div(units, h as int) <= 0) by {
                        vstd::arithmetic::div_mod::lemma_div_pos_is_pos(
                            (mag as int) + h as int,
                            2 * (h as int),
                        );
                    }
                }
                return Some(ULinear16(0, exp));
            }
            let q = (mag + h) / (2 * h);
            proof {
                assert(q as int == rounded_div(units, h as int));
            }
            if q > 0xffff {
                None
            } else {
                Some(ULinear16(q as u16, exp))
            }
        }
    }
}

/// LINEAR11 round trip: when encoding succeeds, the value the wire word
/// stands for differs from the value encoded by at most half the step
/// `2^N` of the chosen exponent.  Stated over fixed-point units: the
/// mantissa `y` satisfies `|units - y * 2^(N+32)| <= 2^(N+31)`.
pub proof fn lemma_linear11_round_trip(units: int, n: int)
    requires
        -16 <= n <= 15,
    ensures
        -(pow2((n + 31) as nat) as int) <= units - rounded_div(units, pow2((n + 31) as nat) as int)
            * (pow2((n + 32) as nat) as int) <= pow2((n + 31) as nat) as int,
{
    vstd::arithmetic::power2::lemma_pow2_pos((n + 31) as nat);
    lemma_rounded_div_error(units, pow2((n + 31) as nat) as int);
    vstd::arithmetic::power2::lemma_pow2_adds((n + 31) as nat, 1);
    vstd::arithmetic::power2::lemma2_to64();
    assert(2 * (pow2((n + 31) as nat) as int) == pow2((n + 32) as nat) as int);
}

/// LINEAR11 round trip, stated on an encoded word: the value a wire
/// word produced by `from_fixed` stands for differs from the value that
/// was encoded by at most half the step of its exponent.
pub proof fn lemma_linear11_encode_round_trip(units: int, w: int)
    requires
        l11_encodes(units, w),
    ensures
        -(pow2((l11_exponent(w) + 31) as nat) as int) <= units - l11_mantissa(w) * (pow2(
            (l11_exponent(w) + 32) as nat,
        ) as int) <= pow2((l11_exponent(w) + 31) as nat) as int,
{
    lemma_linear11_round_trip(units, l11_exponent(w));
}

/// DIRECT round trip: the scaled wire value differs from the exact
/// scaled real `(m*x + b) * 10^R` by at most half a code, i.e. decoding
/// recovers the encoded value to within half a decimal unit at exponent
/// `R`, divided by the slope.  Stated over fixed-point units, writing
/// `a = m*units + b*2^32` for the scaled real.
pub proof fn lemma_direct_round_trip(units: int, m: int, b: int, r: int)
    ensures
        r >= 0 ==> -(pow2(31) as int) <= (m * units + b * (pow2(32) as int)) * pow10(r as nat)
            - direct_scaled(units, m, b, r) * (pow2(32) as int) <= pow2(31) as int,
        r < 0 ==> -(pow10((-r) as nat) * (pow2(31) as int)) <= (m * units + b * (pow2(32) as int))
            - direct_scaled(units, m, b, r) * (pow10((-r) as nat) * (pow2(32) as int)) <= pow10(
            (-r) as nat,
        ) * (pow2(31) as int),
{
    let a = m * units + b * (pow2(32) as int);
    vstd::arithmetic::power2::lemma_pow2_pos(31);
    vstd::arithmetic::power2::lemma_pow2_adds(31, 1);
    vstd::arithmetic::power2::lemma2_to64();
    if r >= 0 {
        lemma_rounded_div_error(a * pow10(r as nat), pow2(31) as int);
        assert(2 * (pow2(31) as int) == pow2(32) as int);
    } else {
        lemma_pow10_pos((-r) as nat);
        let h = pow10((-r) as nat) * (pow2(31) as int);
        vstd::arithmetic::mul::lemma_mul_strictly_positive(pow10((-r) as nat), pow2(31) as int);
        lemma_rounded_div_error(a, h);
        let y = direct_scaled(units, m, b, r);
        assert(y * (2 * h) == y * (pow10((-r) as nat) * (pow2(32) as int))) by (nonlinear_arith)
            requires
                2 * (pow2(31) as int) == pow2(32) as int,
                h == pow10((-r) as nat) * (pow2(31) as int),
        ;
    }
}

/// A DIRECT wire word whose scaled value already sits in the signed
/// 16-bit window reads back, as a signed integer, to exactly that value.
pub proof fn lemma_direct_wire_faithful(units: int, m: int, b: int, r: int)
    requires
        -pow2(15) <= direct_scaled(units, m, b, r) < pow2(15),
    ensures
        sign16(direct_encode_wire(units, m, b, r)) == direct_scaled(units, m, b, r),
{
    lemma_wrap16_signed(direct_scaled(units, m, b, r));
}

} // verus!

use vstd::prelude::*;
use vstd::arithmetic::div_mod::{
    lemma_fundamental_div_mod, lemma_div_is_ordered, lemma_div_multiples_vanish,
};
use vstd::arithmetic::power::{pow, lemma_pow_positive, lemma_pow_adds, lemma_pow0, lemma_pow1};
use vstd::arithmetic::power2::{pow2, lemma_pow2_pos, lemma_pow2_adds, lemma_pow2_unfold};

verus! {

/// 10 raised to `e`, as a mathematical integer.
pub open spec fn pow10(e: nat) -> int {
    pow(10, e)
}

/// The value of `a / (2 * h)` rounded to the nearest integer, with ties
/// rounded away from zero.  The divisor is passed as its half `h` so that
/// the tie point is exact; every divisor used in this crate is even.
pub open spec fn rounded_div(a: int, h: int) -> int
    recommends
        h > 0,
{
    if a >= 0 {
        (a + h) / (2 * h)
    } else {
        -(((-a) + h) / (2 * h))
    }
}

pub proof fn lemma_pow10_pos(e: nat)
    ensures
        pow10(e) >= 1,
{
    lemma_pow_positive(10, e);
}

pub proof fn lemma_pow10_adds(a: nat, b: nat)
    ensures
        pow10(a) * pow10(b) == pow10((a + b) as nat),
{
    lemma_pow_adds(10, a, b);
}

/// Rounding never strays from the true quotient by more than half the
/// divisor: `|a - rounded_div(a, h) * 2h| <= h`.
pub proof fn lemma_rounded_div_error(a: int, h: int)
    requires
        h > 0,
    ensures
        -h <= a - rounded_div(a, h) * (2 * h) <= h,
{
    if a >= 0 {
        lemma_fundamental_div_mod(a + h, 2 * h);
        let q = (a + h) / (2 * h);
        let r = (a + h) % (2 * h);
        vstd::arithmetic::div_mod::lemma_mod_bound(a + h, 2 * h);
        assert(a - q * (2 * h) == r - h);
    } else {
        lemma_fundamental_div_mod((-a) + h, 2 * h);
        let q = ((-a) + h) / (2 * h);
        let r = ((-a) + h) % (2 * h);
        vstd::arithmetic::div_mod::lemma_mod_bound((-a) + h, 2 * h);
        assert((-a) - q * (2 * h) == r - h);
        assert((-q) * (2 * h) == -(q * (2 * h))) by {
            vstd::arithmetic::mul::lemma_mul_unary_negation(q, 2 * h);
        }
        assert(a - (-q) * (2 * h) == h - r);
    }
}

/// If `0 <= a <= b * 2h` then the rounded quotient is at most `b`.
pub proof fn lemma_rounded_div_le(a: int, h: int, b: int)
    requires
        h > 0,
        0 <= a,
        a <= b * (2 * h),
    ensures
        0 <= rounded_div(a, h) <= b,
{
    let d = 2 * h;
    assert(a + h <= b * d + h);
    lemma_div_is_ordered(a + h, b * d + h, d);
    assert((b * d + h) / d == b + h / d) by {
        vstd::arithmetic::div_mod::lemma_hoist_over_denominator(h, b, d as nat);
    }
    assert(h / d == 0) by {
        vstd::arithmetic::div_mod::lemma_basic_div(h, d);
    }
    assert(rounded_div(a, h) == (a + h) / d);
    assert((a + h) / d >= 0) by {
        vstd::arithmetic::div_mod::lemma_div_pos_is_pos(a + h, d);
    }
}

/// `a / (2h)` rounds to zero whenever `|a| < h` (strictly below the tie).
pub proof fn lemma_rounded_div_small(a: int, h: int)
    requires
        h > 0,
        -h < a < h,
    ensures
        rounded_div(a, h) == 0,
{
    if a >= 0 {
        assert(0 <= a + h < 2 * h);
        vstd::arithmetic::div_mod::lemma_basic_div(a + h, 2 * h);
    } else {
        assert(0 <= (-a) + h < 2 * h);
        vstd::arithmetic::div_mod::lemma_basic_div((-a) + h, 2 * h);
    }
}

/// `pow2` is monotone in its exponent.
pub proof fn lemma_pow2_le(a: nat, b: nat)
    requires
        a <= b,
    ensures
        pow2(a) <= pow2(b),
{
    if a < b {
        vstd::arithmetic::power2::lemma_pow2_strictly_increases(a, b);
    }
}

/// `pow10` is monotone in its exponent.
pub proof fn lemma_pow10_le(a: nat, b: nat)
    requires
        a <= b,
    ensures
        pow10(a) <= pow10(b),
{
    vstd::arithmetic::power::lemma_pow_increases(10, a, b);
}

/// Powers of ten sit between the corresponding powers of eight and sixteen:
/// `2^(3e) <= 10^e <= 2^(4e)`.
pub proof fn lemma_pow10_bounds(e: nat)
    ensures
        pow2((3 * e) as nat) <= pow10(e),
        pow10(e) <= pow2((4 * e) as nat),
    decreases e,
{
    if e == 0 {
        lemma_pow0(10);
        assert(pow2(0) == 1) by {
            vstd::arithmetic::power2::lemma2_to64();
        }
    } else {
        lemma_pow10_bounds((e - 1) as nat);
        lemma_pow1(10);
        lemma_pow10_adds((e - 1) as nat, 1);
        assert(pow10(e) == pow10((e - 1) as nat) * 10);
        lemma_pow2_adds((3 * (e - 1)) as nat, 3);
        lemma_pow2_adds((4 * (e - 1)) as nat, 4);
        assert(pow2(3) == 8 && pow2(4) == 16) by {
            vstd::arithmetic::power2::lemma2_to64();
        }
        lemma_pow2_pos((3 * (e - 1)) as nat);
        lemma_pow2_pos((4 * (e - 1)) as nat);
        lemma_pow10_pos((e - 1) as nat);
        assert(pow2((3 * (e - 1)) as nat) * 8 <= pow10((e - 1) as nat) * 8) by {
            vstd::arithmetic::mul::lemma_mul_inequality(
                pow2((3 * (e - 1)) as nat) as int,
                pow10((e - 1) as nat),
                8,
            );
        }
        assert(pow10((e - 1) as nat) * 8 <= pow10((e - 1) as nat) * 10) by {
            vstd::arithmetic::mul::lemma_mul_inequality(8, 10, pow10((e - 1) as nat));
        }
        assert(pow10((e - 1) as nat) * 10 <= pow10((e - 1) as nat) * 16) by {
            vstd::arithmetic::mul::lemma_mul_inequality(10, 16, pow10((e - 1) as nat));
        }
        assert(pow10((e - 1) as nat) * 16 <= pow2((4 * (e - 1)) as nat) * 16) by {
            vstd::arithmetic::mul::lemma_mul_inequality(
                pow10((e - 1) as nat),
                pow2((4 * (e - 1)) as nat) as int,
                16,
            );
        }
    }
}

/// Executable power of two, proved equal to the mathematical `pow2`.
pub fn pow2_u128(k: u32) -> (r: u128)
    requires
        k < 128,
    ensures
        r == pow2(k as nat),
{
    let mut i: u32 = 0;
    let mut acc: u128 = 1;
    proof {
        assert(pow2(0) == 1) by {
            vstd::arithmetic::power2::lemma2_to64();
        }
    }
    while i < k
        invariant
            i <= k,
            k < 128,
            acc == pow2(i as nat),
        decreases k - i,
    {
        proof {
            lemma_pow2_adds(i as nat, 1);
            assert(pow2(1) == 2) by {
                vstd::arithmetic::power2::lemma2_to64();
            }
            lemma_pow2_le((i + 1) as nat, 127);
            assert(pow2(127) == 0x80000000000000000000000000000000) by {
                vstd::arithmetic::power2::lemma2_to64();
                vstd::arithmetic::power2::lemma2_to64_rest();
                lemma_pow2_adds(64, 63);
            }
        }
        acc = acc * 2;
        i = i + 1;
    }
    acc
}

/// Executable power of ten, proved equal to the mathematical `pow10`.
pub fn pow10_u128(k: u32) -> (r: u128)
    requires
        k <= 28,
    ensures
        r == pow10(k as nat),
        r >= 1,
{
    let mut i: u32 = 0;
    let mut acc: u128 = 1;
    proof {
        lemma_pow0(10);
    }
    while i < k
        invariant
            i <= k,
            k <= 28,
            acc == pow10(i as nat),
            acc >= 1,
        decreases k - i,
    {
        proof {
            lemma_pow1(10);
            lemma_pow10_adds(i as nat, 1);
            lemma_pow10_le(i as nat, 27);
            lemma_pow10_bounds(27);
            lemma_pow2_adds(108, 4);
            assert(pow2(4) == 16) by {
                vstd::arithmetic::power2::lemma2_to64();
            }
            lemma_pow2_le(112, 120);
            assert(acc * 10 <= pow2(108) * 16);
            assert(pow2(120) < 0x80000000000000000000000000000000) by {
                vstd::arithmetic::power2::lemma_pow2_strictly_increases(120, 127);
                vstd::arithmetic::power2::lemma2_to64();
                vstd::arithmetic::power2::lemma2_to64_rest();
                lemma_pow2_adds(64, 63);
            }
        }
        acc = acc * 10;
        i = i + 1;
    }
    acc
}

} // verus!

use vstd::prelude::*;
use vstd::arithmetic::power2::pow2;

verus! {

/// A real value carried across the crate boundary in binary fixed point
/// with 32 fractional bits: `Fixed(u)` stands for the real number
/// `u / 2^32`.  Every physical quantity the codecs accept or produce is
/// exchanged in this form, so all codec arithmetic is exact integer
/// arithmetic.
#[derive(Copy, Clone, Debug, PartialEq, Eq, Structural)]
pub struct Fixed(pub i64);

impl Fixed {
    /// The represented value, scaled by `2^32` to an integer.
    pub open spec fn units(self) -> int {
        self.0 as int
    }

    /// The fixed-point image of a small non-negative integer.
    pub fn from_int(v: u32) -> (r: Fixed)
        requires
            v < 0x8000_0000,
        ensures
            r.units() == v as int * pow2(32),
    {
        proof {
            vstd::arithmetic::power2::lemma2_to64();
        }
        Fixed((v as i64) * 0x1_0000_0000)
    }
}

} // verus!

use vstd::prelude::*;
use vstd::std_specs::ops::{AddSpec, SubSpec};

verus! {

/// Number of fractional bits of a [`Fix`] value.
pub const PRECISION: u32 = 12;

/// One half of the smallest unit, the rounding bias of a product.
pub const HALF_UNIT: i64 = 2048;

/// The scale factor, `2^PRECISION`.
pub const SCALE: i64 = 4096;

/// A signed fixed-point number with twelve fractional bits, stored as its raw
/// scaled 32-bit integer. All arithmetic wraps modulo 2^32.
#[derive(Clone, Copy, Debug, PartialEq, Eq, Structural, Hash, PartialOrd, Ord)]
pub struct Fix(pub i32);

/// Two's-complement wraparound of a mathematical integer into 32 bits.
pub open spec fn wrap(x: int) -> i32 {
    ((x + 0x8000_0000) % 0x1_0000_0000 - 0x8000_0000) as i32
}

/// Product of two raw values: the exact double-width product plus a half unit,
/// floor-divided by the scale, wrapped to 32 bits.
pub open spec fn fix_mul(a: i32, b: i32) -> i32 {
    wrap((a * b + HALF_UNIT) / SCALE as int)
}

/// Division truncating toward zero, as Rust's integer `/` does.
pub open spec fn div_trunc(a: int, d: int) -> int {
    let q = abs(a) / abs(d);
    if (a < 0) == (d < 0) {
        q
    } else {
        -q
    }
}

/// Absolute value of a mathematical integer.
pub open spec fn abs(x: int) -> int {
    if x < 0 {
        -x
    } else {
        x
    }
}

impl Fix {
    /// Wraps an already scaled raw integer.
    pub fn new_raw(val: i32) -> (r: Fix)
        ensures
            r.0 == val,
    {
        Fix(val)
    }

    /// The smaller of two values.
    pub fn min(self, rhs: Fix) -> (r: Fix)
        ensures
            r.0 == if self.0 <= rhs.0 { self.0 } else { rhs.0 },
    {
        if self.0 <= rhs.0 {
            self
        } else {
            rhs
        }
    }

    /// The larger of two values.
    pub fn max(self, rhs: Fix) -> (r: Fix)
        ensures
            r.0 == if self.0 >= rhs.0 { self.0 } else { rhs.0 },
    {
        if self.0 >= rhs.0 {
            self
        } else {
            rhs
        }
    }

    /// The raw scaled integer.
    pub fn val(self) -> (r: i32)
        ensures
            r == self.0,
    {
        self.0
    }
}

impl core::ops::Add for Fix {
    type Output = Fix;

    fn add(self, rhs: Fix) -> (r: Fix)
        ensures
            r.0 == wrap(self.0 + rhs.0),
    {
        Fix(self.0.wrapping_add(rhs.0))
    }
}

impl vstd::std_specs::ops::AddSpecImpl for Fix {
    open spec fn obeys_add_spec() -> bool {
        true
    }

    open spec fn add_req(self, rhs: Fix) -> bool {
        true
    }

    open spec fn add_spec(self, rhs: Fix) -> Fix {
        Fix(wrap(self.0 + rhs.0))
    }
}

impl core::ops::AddAssign for Fix {
    fn add_assign(&mut self, rhs: Fix)
        ensures
            final(self).0 == wrap(old(self).0 + rhs.0),
    {
        *self = *self + rhs;
    }
}

impl core::ops::Sub for Fix {
    type Output = Fix;

    fn sub(self, rhs: Fix) -> (r: Fix)
        ensures
            r.0 == wrap(self.0 - rhs.0),
    {
        Fix(self.0.wrapping_sub(rhs.0))
    }
}

impl vstd::std_specs::ops::SubSpecImpl for Fix {
    open spec fn obeys_sub_spec() -> bool {
        true
    }

    open spec fn sub_req(self, rhs: Fix) -> bool {
        true
    }

    open spec fn sub_spec(self, rhs: Fix) -> Fix {
        Fix(wrap(self.0 - rhs.0))
    }
}

/// vstd's signed crop of a product agrees with [`wrap`].
proof fn lemma_crop_is_wrap(x: int)
    ensures
        vstd::wrapping::i32_specs::signed_crop(x) == wrap(x),
{
}

impl core::ops::SubAssign for Fix {
    fn sub_assign(&mut self, rhs: Fix)
        ensures
            final(self).0 == wrap(old(self).0 - rhs.0),
    {
        *self = *self - rhs;
    }
}

impl core::ops::MulAssign for Fix {
    fn mul_assign(&mut self, rhs: Fix)
        ensures
            final(self).0 == fix_mul(old(self).0, rhs.0),
    {
        *self = *self * rhs;
    }
}

impl core::ops::Mul for Fix {
    type Output = Fix;

    /// Engine-exact fixed-point product: the exact 64-bit product plus a half
    /// unit, divided by the scale rounding toward negative infinity.
    fn mul(self, rhs: Fix) -> (r: Fix)
        ensures
            r.0 == fix_mul(self.0, rhs.0),
    {
        let a = self.0 as i64;
        let b = rhs.0 as i64;
        proof {
            assert(-0x4000_0000_0000_0000 <= a * b <= 0x4000_0000_0000_0000) by (nonlinear_arith)
                requires
                    -0x8000_0000 <= a <= 0x7fff_ffff,
                    -0x8000_0000 <= b <= 0x7fff_ffff,
            ;
        }
        let p: i64 = a * b + HALF_UNIT;
        match p.checked_div_euclid(SCALE) {
            Some(q) => match (q + 0x8000_0000).checked_rem_euclid(0x1_0000_0000) {
                Some(m) => Fix((m - 0x8000_0000) as i32),
                None => Fix(0),
            },
            None => Fix(0),
        }
    }
}

impl vstd::std_specs::ops::MulSpecImpl for Fix {
    open spec fn obeys_mul_spec() -> bool {
        true
    }

    open spec fn mul_req(self, rhs: Fix) -> bool {
        true
    }

    open spec fn mul_spec(self, rhs: Fix) -> Fix {
        Fix(fix_mul(self.0, rhs.0))
    }
}

impl core::ops::Mul<i32> for Fix {
    type Output = Fix;

    /// Scales the raw value by an integer, wrapping.
    fn mul(self, rhs: i32) -> (r: Fix)
        ensures
            r.0 == wrap(self.0 * rhs),
    {
        proof {
            lemma_crop_is_wrap(self.0 * rhs);
        }
        Fix(self.0.wrapping_mul(rhs))
    }
}

impl vstd::std_specs::ops::MulSpecImpl<i32> for Fix {
    open spec fn obeys_mul_spec() -> bool {
        true
    }

    open spec fn mul_req(self, rhs: i32) -> bool {
        true
    }

    open spec fn mul_spec(self, rhs: i32) -> Fix {
        Fix(wrap(self.0 * rhs))
    }
}

impl core::ops::Mul<Fix> for i32 {
    type Output = Fix;

    fn mul(self, rhs: Fix) -> (r: Fix)
        ensures
            r.0 == wrap(self * rhs.0),
    {
        proof {
            assert(self * rhs.0 == rhs.0 * self) by (nonlinear_arith);
        }
        rhs * self
    }
}

impl vstd::std_specs::ops::MulSpecImpl<Fix> for i32 {
    open spec fn obeys_mul_spec() -> bool {
        true
    }

    open spec fn mul_req(self, rhs: Fix) -> bool {
        true
    }

    open spec fn mul_spec(self, rhs: Fix) -> Fix {
        Fix(wrap(self * rhs.0))
    }
}

impl core::ops::Div<i32> for Fix {
    type Output = Fix;

    /// Divides the raw value by an integer, truncating toward zero and wrapping.
    fn div(self, rhs: i32) -> (r: Fix)
        ensures
            r.0 == wrap(div_trunc(self.0 as int, rhs as int)),
    {
        match self.0.checked_div(rhs) {
            Some(q) => Fix(q),
            None => Fix(i32::MIN),
        }
    }
}

impl vstd::std_specs::ops::DivSpecImpl<i32> for Fix {
    open spec fn obeys_div_spec() -> bool {
        true
    }

    open spec fn div_req(self, rhs: i32) -> bool {
        rhs != 0
    }

    open spec fn div_spec(self, rhs: i32) -> Fix {
        Fix(wrap(div_trunc(self.0 as int, rhs as int)))
    }
}

impl core::ops::Shl<usize> for Fix {
    type Output = Fix;

    /// Shifts the raw value left; the shift count is taken modulo 32.
    fn shl(self, rhs: usize) -> (r: Fix)
        ensures
            r.0 == self.0 << ((rhs % 32) as u32),
    {
        Fix(self.0.wrapping_shl((rhs % 32) as u32))
    }
}

impl vstd::std_specs::ops::ShlSpecImpl<usize> for Fix {
    open spec fn obeys_shl_spec() -> bool {
        true
    }

    open spec fn shl_req(self, rhs: usize) -> bool {
        true
    }

    open spec fn shl_spec(self, rhs: usize) -> Fix {
        Fix(self.0 << ((rhs % 32) as u32))
    }
}

impl core::ops::Shr<usize> for Fix {
    type Output = Fix;

    /// Arithmetic right shift of the raw value; the count is taken modulo 32.
    fn shr(self, rhs: usize) -> (r: Fix)
        ensures
            r.0 == self.0 >> ((rhs % 32) as u32),
    {
        Fix(self.0.wrapping_shr((rhs % 32) as u32))
    }
}

impl vstd::std_specs::ops::ShrSpecImpl<usize> for Fix {
    open spec fn obeys_shr_spec() -> bool {
        true
    }

    open spec fn shr_req(self, rhs: usize) -> bool {
        true
    }

    open spec fn shr_spec(self, rhs: usize) -> Fix {
        Fix(self.0 >> ((rhs % 32) as u32))
    }
}

/// Adding two fixed-point values is 32-bit wraparound addition of their raw
/// integers, for every pair of raw integers.
pub proof fn lemma_add_wraps(a: i32, b: i32)
    ensures
        Fix(a).add_spec(Fix(b)) == Fix(vstd::wrapping::i32_specs::wrapping_add(a, b)),
        Fix(a).sub_spec(Fix(b)) == Fix(vstd::wrapping::i32_specs::wrapping_sub(a, b)),
{
}

/// Where the product fits in 32 bits, multiplication rounds the exact
/// product of the real values to the nearest unit, a tie going up.
pub proof fn lemma_mul_rounds_to_nearest(a: i32, b: i32)
    requires
        i32::MIN <= (a * b + HALF_UNIT) / SCALE as int <= i32::MAX,
    ensures
        SCALE * fix_mul(a, b) - HALF_UNIT <= a * b < SCALE * fix_mul(a, b) + HALF_UNIT,
{
    let p = a * b + HALF_UNIT;
    assert(p == SCALE * (p / SCALE as int) + p % SCALE as int) by (nonlinear_arith)
        requires
            SCALE == 4096,
    ;
}

} // verus!

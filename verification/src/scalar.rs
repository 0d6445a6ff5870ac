//! Single-precision numbers of IEEE 754, held by their bit patterns.
//!
//! A [`Scalar`] is the 32-bit pattern of a binary32 number: one sign bit, eight
//! exponent bits and twenty-three fraction bits. The tracer never does
//! arithmetic on such a number here; it compares, selects and rounds down,
//! and each of those is a function of the pattern alone. Their contracts are
//! stated over [`Scalar::value`], the number a pattern denotes counted in units
//! of two to the power -149, which is an integer for every pattern.

use vstd::prelude::*;
use vstd::arithmetic::power2::{
    lemma_pow2_adds, lemma_pow2_pos, lemma_pow2_strictly_increases, lemma_pow2_unfold, pow2,
};
use vstd::arithmetic::div_mod::lemma_div_multiples_vanish_quotient;
use vstd::bits::lemma_u32_shr_is_div;

verus! {

/// The bit that holds the sign.
pub const SIGN_BIT: u32 = 0x8000_0000;

/// The magnitude of the two infinities; every larger magnitude is a NaN.
pub const INFINITY_BITS: u32 = 0x7f80_0000;

/// The number of fractions under one exponent: two to the power 23.
pub const FRACTIONS: u32 = 0x80_0000;

/// The pattern of one.
pub const ONE_BITS: u32 = 0x3f80_0000;

/// A binary32 number, held by its bit pattern.
///
/// `==` on two scalars compares the patterns; [`Scalar::same`] compares the
/// numbers, as IEEE 754 does.
#[derive(Clone, Copy, Debug, PartialEq, Eq, Structural)]
pub struct Scalar {
    pub bits: u32,
}

/// What the magnitude `m` (a pattern without its sign bit) denotes, in units of
/// two to the power -149.
///
/// With exponent field `e` and fraction `f`: `f` units where `e` is zero (zero
/// and the subnormal numbers), else `(2^23 + f) * 2^(e - 1)` units. The same
/// formula puts infinity at two to the power 277, above every finite number.
pub open spec fn magnitude_value(m: int) -> int {
    let e = m / (FRACTIONS as int);
    let f = m % (FRACTIONS as int);
    if e <= 0 {
        f
    } else {
        (FRACTIONS + f) * pow2((e - 1) as nat)
    }
}

/// A larger magnitude denotes a larger number.
pub proof fn lemma_magnitude_value_increases(m1: int, m2: int)
    requires
        0 <= m1 < m2,
    ensures
        0 <= magnitude_value(m1) < magnitude_value(m2),
{
    let k = FRACTIONS as int;
    let e1 = m1 / k;
    let f1 = m1 % k;
    let e2 = m2 / k;
    let f2 = m2 % k;
    assert(e1 <= e2);
    assert(e1 == e2 ==> f1 < f2);
    if e1 == 0 {
        if e2 > 0 {
            let p2 = pow2((e2 - 1) as nat) as int;
            lemma_pow2_pos((e2 - 1) as nat);
            assert((k + f2) * p2 >= k) by (nonlinear_arith)
                requires
                    p2 >= 1,
                    f2 >= 0,
                    k > 0,
            ;
        }
    } else {
        let p1 = pow2((e1 - 1) as nat) as int;
        let p2 = pow2((e2 - 1) as nat) as int;
        lemma_pow2_pos((e1 - 1) as nat);
        if e1 == e2 {
            assert((k + f1) * p1 < (k + f2) * p1) by (nonlinear_arith)
                requires
                    p1 >= 1,
                    f1 < f2,
            ;
        } else {
            lemma_pow2_unfold(e1 as nat);
            if e1 < e2 - 1 {
                lemma_pow2_strictly_increases(e1 as nat, (e2 - 1) as nat);
            }
            assert(2 * p1 <= p2);
            assert((k + f1) * p1 < (k + f2) * p2) by (nonlinear_arith)
                requires
                    p1 >= 1,
                    2 * p1 <= p2,
                    0 <= f1 < k,
                    0 <= f2,
            ;
        }
        assert((k + f1) * p1 >= 0) by (nonlinear_arith)
            requires
                p1 >= 1,
                f1 >= 0,
                k > 0,
        ;
    }
}

impl Scalar {
    /// Whether the sign bit is set. It is set in negative zero too.
    pub open spec fn negative(self) -> bool {
        self.bits >= SIGN_BIT
    }

    /// The pattern without its sign bit.
    pub open spec fn magnitude(self) -> int {
        if self.bits >= SIGN_BIT {
            self.bits - SIGN_BIT
        } else {
            self.bits as int
        }
    }

    /// Whether the pattern is one of the NaNs, which denote no number.
    pub open spec fn spec_is_nan(self) -> bool {
        self.magnitude() > INFINITY_BITS
    }

    /// The number denoted, in units of two to the power -149. Both zeros
    /// denote 0; the infinities stand beyond every finite number. Of a NaN the
    /// value means nothing, and no contract reads it.
    pub open spec fn value(self) -> int {
        if self.negative() {
            -magnitude_value(self.magnitude())
        } else {
            magnitude_value(self.magnitude())
        }
    }

    /// The magnitude with the sign put before it: an integer that orders the
    /// patterns as their values do.
    pub open spec fn ordinal(self) -> int {
        if self.negative() {
            -self.magnitude()
        } else {
            self.magnitude()
        }
    }

    /// `self < other` as IEEE 754 has it: false where either is a NaN.
    pub open spec fn spec_lt(self, other: Scalar) -> bool {
        !self.spec_is_nan() && !other.spec_is_nan() && self.value() < other.value()
    }

    /// `self <= other` as IEEE 754 has it: false where either is a NaN.
    pub open spec fn spec_le(self, other: Scalar) -> bool {
        !self.spec_is_nan() && !other.spec_is_nan() && self.value() <= other.value()
    }

    /// `self > other` as IEEE 754 has it: false where either is a NaN.
    pub open spec fn spec_gt(self, other: Scalar) -> bool {
        other.spec_lt(self)
    }

    /// `self >= other` as IEEE 754 has it: false where either is a NaN.
    pub open spec fn spec_ge(self, other: Scalar) -> bool {
        other.spec_le(self)
    }

    /// `self == other` as IEEE 754 has it: the two zeros are the same number,
    /// and a NaN is the same as nothing, itself included.
    pub open spec fn spec_same(self, other: Scalar) -> bool {
        !self.spec_is_nan() && !other.spec_is_nan() && self.value() == other.value()
    }

    /// The key by which the patterns are put in one line:
    /// negative NaNs, negative infinity, the negative numbers, negative zero,
    /// positive zero, the positive numbers, positive infinity, positive NaNs.
    pub open spec fn spec_order_key(self) -> u32 {
        if self.bits < SIGN_BIT {
            (self.bits + SIGN_BIT) as u32
        } else {
            (u32::MAX - self.bits) as u32
        }
    }

    /// What a cast to an 8-bit unsigned integer gives: the integer part of the
    /// number, 0 for what lies below 0 and for a NaN, 255 for what lies above.
    pub open spec fn spec_to_u8(self) -> u8 {
        if self.spec_is_nan() || self.value() <= 0 {
            0u8
        } else if self.value() / (pow2(149) as int) >= 255 {
            255u8
        } else {
            (self.value() / (pow2(149) as int)) as u8
        }
    }

    /// Positive zero.
    pub open spec fn spec_zero() -> Scalar {
        Scalar { bits: 0 }
    }

    /// One.
    pub open spec fn spec_one() -> Scalar {
        Scalar { bits: ONE_BITS }
    }

    /// Positive infinity.
    pub open spec fn spec_infinity() -> Scalar {
        Scalar { bits: INFINITY_BITS }
    }

    /// Positive zero.
    #[verifier::when_used_as_spec(spec_zero)]
    pub fn zero() -> (r: Scalar)
        ensures
            r == Scalar::spec_zero(),
    {
        Scalar { bits: 0 }
    }

    /// One.
    #[verifier::when_used_as_spec(spec_one)]
    pub fn one() -> (r: Scalar)
        ensures
            r == Scalar::spec_one(),
    {
        Scalar { bits: ONE_BITS }
    }

    /// Positive infinity.
    #[verifier::when_used_as_spec(spec_infinity)]
    pub fn infinity() -> (r: Scalar)
        ensures
            r == Scalar::spec_infinity(),
    {
        Scalar { bits: INFINITY_BITS }
    }

    /// The scalar with the given pattern.
    pub fn from_bits(bits: u32) -> (r: Scalar)
        ensures
            r.bits == bits,
    {
        Scalar { bits }
    }

    /// The pattern.
    pub fn to_bits(self) -> (r: u32)
        ensures
            r == self.bits,
    {
        self.bits
    }

    /// The pattern without its sign bit.
    fn abs_bits(self) -> (r: u32)
        ensures
            r == self.magnitude(),
            r < SIGN_BIT,
    {
        if self.bits >= SIGN_BIT {
            self.bits - SIGN_BIT
        } else {
            self.bits
        }
    }

    /// The magnitude with the sign put before it.
    fn signed_bits(self) -> (r: i64)
        ensures
            r == self.ordinal(),
    {
        if self.bits >= SIGN_BIT {
            -((self.bits - SIGN_BIT) as i64)
        } else {
            self.bits as i64
        }
    }

    /// Whether the pattern is one of the NaNs.
    #[verifier::when_used_as_spec(spec_is_nan)]
    pub fn is_nan(self) -> (r: bool)
        ensures
            r == self.spec_is_nan(),
    {
        self.abs_bits() > INFINITY_BITS
    }

    /// Whether the sign bit is set.
    pub fn is_sign_negative(self) -> (r: bool)
        ensures
            r == self.negative(),
    {
        self.bits >= SIGN_BIT
    }

    /// `self < other`, false where either is a NaN.
    #[verifier::when_used_as_spec(spec_lt)]
    pub fn lt(self, other: Scalar) -> (r: bool)
        ensures
            r == self.spec_lt(other),
    {
        proof {
            lemma_ordinal_orders(self, other);
        }
        !self.is_nan() && !other.is_nan() && self.signed_bits() < other.signed_bits()
    }

    /// `self <= other`, false where either is a NaN.
    #[verifier::when_used_as_spec(spec_le)]
    pub fn le(self, other: Scalar) -> (r: bool)
        ensures
            r == self.spec_le(other),
    {
        proof {
            lemma_ordinal_orders(self, other);
        }
        !self.is_nan() && !other.is_nan() && self.signed_bits() <= other.signed_bits()
    }

    /// `self > other`, false where either is a NaN.
    #[verifier::when_used_as_spec(spec_gt)]
    pub fn gt(self, other: Scalar) -> (r: bool)
        ensures
            r == self.spec_gt(other),
    {
        other.lt(self)
    }

    /// `self >= other`, false where either is a NaN.
    #[verifier::when_used_as_spec(spec_ge)]
    pub fn ge(self, other: Scalar) -> (r: bool)
        ensures
            r == self.spec_ge(other),
    {
        other.le(self)
    }

    /// Whether the two are the same number; false where either is a NaN.
    #[verifier::when_used_as_spec(spec_same)]
    pub fn same(self, other: Scalar) -> (r: bool)
        ensures
            r == self.spec_same(other),
    {
        proof {
            lemma_ordinal_orders(self, other);
        }
        !self.is_nan() && !other.is_nan() && self.signed_bits() == other.signed_bits()
    }

    /// The key of the pattern in the total order of all patterns.
    #[verifier::when_used_as_spec(spec_order_key)]
    pub fn order_key(self) -> (r: u32)
        ensures
            r == self.spec_order_key(),
    {
        if self.bits < SIGN_BIT {
            self.bits + SIGN_BIT
        } else {
            u32::MAX - self.bits
        }
    }

    /// The number as an 8-bit unsigned integer: its integer part, kept within
    /// 0 and 255; 0 for a NaN.
    #[verifier::when_used_as_spec(spec_to_u8)]
    pub fn to_u8(self) -> (r: u8)
        ensures
            r == self.spec_to_u8(),
    {
        let m: u32 = self.abs_bits();
        if m > INFINITY_BITS || self.bits >= SIGN_BIT || m == 0 {
            proof {
                if m > 0 {
                    lemma_magnitude_value_increases(0, m as int);
                }
            }
            return 0;
        }
        let e: u32 = m / FRACTIONS;
        let f: u32 = m % FRACTIONS;
        proof {
            lemma_magnitude_value_increases(0, m as int);
            lemma_unit_values();
            lemma_pow2_pos(149);
        }
        if e < 127 {
            proof {
                lemma_magnitude_value_increases(m as int, ONE_BITS as int);
                lemma_whole_part_bounds(self.value(), pow2(149) as int);
            }
            0
        } else if e >= 135 {
            proof {
                if m > 0x4380_0000 {
                    lemma_magnitude_value_increases(0x4380_0000, m as int);
                }
                lemma_whole_part_bounds(self.value(), pow2(149) as int);
            }
            255
        } else {
            let shift: u32 = 150 - e;
            let significand: u32 = FRACTIONS + f;
            let whole: u32 = significand >> shift;
            proof {
                let x = significand as int;
                let low = pow2(shift as nat) as int;
                let high = pow2((e - 1) as nat) as int;
                vstd::arithmetic::power2::lemma2_to64();
                lemma_u32_shr_is_div(significand, shift);
                lemma_pow2_pos(shift as nat);
                lemma_pow2_pos((e - 1) as nat);
                lemma_pow2_adds((e - 1) as nat, shift as nat);
                assert(pow2(149) == high * low);
                lemma_div_multiples_vanish_quotient(high, x, low);
                assert(x * high == high * x) by (nonlinear_arith);
                assert(self.value() == x * high);
                assert(whole == self.value() / (pow2(149) as int));
                if shift > 16 {
                    lemma_pow2_strictly_increases(16, shift as nat);
                }
                lemma_whole_part_fits(x, low);
            }
            whole as u8
        }
    }
}

/// The values of one and of 256, which bound what a cast to eight bits keeps.
proof fn lemma_unit_values()
    ensures
        magnitude_value(0x3f80_0000) == pow2(149),
        magnitude_value(0x4380_0000) == 256 * pow2(149),
{
    lemma_pow2_adds(23, 126);
    lemma_pow2_adds(31, 126);
    lemma_pow2_adds(8, 149);
    lemma_pow2_adds(23, 134);
    vstd::arithmetic::power2::lemma2_to64();
    assert(0x3f80_0000int / (FRACTIONS as int) == 127);
    assert(0x3f80_0000int % (FRACTIONS as int) == 0);
    assert(0x4380_0000int / (FRACTIONS as int) == 135);
    assert(0x4380_0000int % (FRACTIONS as int) == 0);
    assert(pow2(23) == 0x80_0000);
    assert(pow2(8) == 256);
    assert(pow2(157) == pow2(23) * pow2(134));
    assert(pow2(157) == pow2(8) * pow2(149));
}

/// The integer part of `v / unit` is 0 below one unit and at least 256 from
/// 256 units on.
proof fn lemma_whole_part_bounds(v: int, unit: int)
    requires
        0 <= v,
        0 < unit,
    ensures
        v < unit ==> v / unit == 0,
        v >= 256 * unit ==> v / unit >= 256,
{
    assert(v < unit ==> v / unit == 0) by (nonlinear_arith)
        requires
            0 <= v,
            0 < unit,
    ;
    assert(v >= 256 * unit ==> v / unit >= 256) by (nonlinear_arith)
        requires
            0 <= v,
            0 < unit,
    ;
}

/// A 24-bit significand shifted down by at least 16 places fits in eight bits.
proof fn lemma_whole_part_fits(x: int, low: int)
    requires
        0 <= x < 0x100_0000,
        low >= 0x1_0000,
    ensures
        0 <= x / low <= 255,
{
    assert(0 <= x / low <= 255) by (nonlinear_arith)
        requires
            0 <= x < 0x100_0000,
            low >= 0x1_0000,
    ;
}

/// The keys put the patterns in the order of their ordinals, and negative
/// zero before positive zero. No two patterns share a key.
pub proof fn lemma_order_key_orders(a: Scalar, b: Scalar)
    ensures
        (a.order_key() < b.order_key()) == (a.ordinal() < b.ordinal() || (a.ordinal()
            == b.ordinal() && a.negative() && !b.negative())),
        (a.order_key() == b.order_key()) == (a == b),
{
}

/// The total order of the keys keeps the order of the numbers. It tells the
/// two zeros apart, negative before positive, and it puts the NaNs at the
/// two ends, by their sign.
pub proof fn lemma_order_key_keeps_numbers(a: Scalar, b: Scalar)
    ensures
        a.lt(b) ==> a.order_key() < b.order_key(),
        !a.is_nan() && !b.is_nan() && a.order_key() <= b.order_key() ==> a.le(b),
        a.same(b) && a.order_key() < b.order_key() ==> a.value() == 0 && a.negative()
            && !b.negative(),
        !a.is_nan() && b.is_nan() ==> (a.order_key() < b.order_key()) == !b.negative(),
{
    lemma_ordinal_orders(a, b);
    lemma_order_key_orders(a, b);
    lemma_magnitude_value_increases(0, 1);
    if a.magnitude() > 0 {
        lemma_magnitude_value_increases(0, a.magnitude());
    }
}

/// The ordinals put two patterns in the order of their values.
pub proof fn lemma_ordinal_orders(a: Scalar, b: Scalar)
    ensures
        (a.ordinal() < b.ordinal()) == (a.value() < b.value()),
        (a.ordinal() == b.ordinal()) == (a.value() == b.value()),
{
    let ma = a.magnitude();
    let mb = b.magnitude();
    assert(magnitude_value(0) == 0);
    if ma > 0 {
        lemma_magnitude_value_increases(0, ma);
    }
    if mb > 0 {
        lemma_magnitude_value_increases(0, mb);
    }
    if ma < mb {
        lemma_magnitude_value_increases(ma, mb);
    }
    if mb < ma {
        lemma_magnitude_value_increases(mb, ma);
    }
}

} // verus!

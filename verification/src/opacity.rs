//! Opacity of the viewer: a single-precision number in [0.1, 1], held by its IEEE 754 bit
//! pattern, and the two 8-bit levels derived from it.
//!
//! Every pattern in the accepted range is a positive normal number whose value is a whole
//! number of units of 2^-27, so the levels are computed and specified in exact integer
//! arithmetic.

use crate::color::Rgba;
use vstd::arithmetic::div_mod::{lemma_div_is_ordered, lemma_fundamental_div_mod, lemma_mod_bound};
use vstd::arithmetic::power2::{lemma2_to64, pow2};
use vstd::prelude::*;

verus! {

/// Bit pattern of the smallest accepted opacity: 0.1 rounded to single precision, which lies
/// just above one tenth.
pub const MIN_BITS: u32 = 0x3DCC_CCCD;

/// Bit pattern of 1.0, the largest accepted opacity.
pub const FULL_BITS: u32 = 0x3F80_0000;

/// The number 1 in units of 2^-27.
pub const ONE: u64 = 134_217_728;

/// The number 10 in units of 2^-27.
pub const TEN: u64 = 1_342_177_280;

/// Biased exponent at which one unit in the last place is 2^-27.
pub const UNIT_EXPONENT: u32 = 123;

/// Two to the power 23: the weight of the implicit leading bit of a significand.
pub const HIDDEN_BIT: u32 = 0x80_0000;

/// The exponent field of a pattern whose sign bit is clear.
pub open spec fn biased_exponent(bits: u32) -> int {
    bits as int / HIDDEN_BIT as int
}

/// The 24-bit significand of a normal pattern, implicit leading bit included.
pub open spec fn significand(bits: u32) -> int {
    HIDDEN_BIT as int + bits as int % HIDDEN_BIT as int
}

/// Two to the power `exponent - 123`, for the exponents of the accepted range.
pub open spec fn weight(exponent: int) -> int
    recommends
        UNIT_EXPONENT <= exponent <= 127,
{
    if exponent == 123 {
        1
    } else if exponent == 124 {
        2
    } else if exponent == 125 {
        4
    } else if exponent == 126 {
        8
    } else {
        16
    }
}

/// The value of a positive normal pattern in units of 2^-27.
///
/// A normal pattern encodes `significand * 2^(exponent - 150)`; multiplied by 2^27 that is
/// `significand * 2^(exponent - 123)`, a whole number once the exponent is at least 123.
pub open spec fn units_of(bits: u32) -> int
    recommends
        UNIT_EXPONENT <= biased_exponent(bits) <= 127,
{
    significand(bits) * weight(biased_exponent(bits))
}

/// The patterns accepted as an opacity.
pub open spec fn valid_bits(bits: u32) -> bool {
    MIN_BITS <= bits <= FULL_BITS
}

/// `n / d` rounded to the nearest integer, a tie going up: the floor of `n / d + 1/2`.
pub open spec fn round_half_up(n: int, d: int) -> int
    recommends
        0 <= n,
        0 < d,
{
    (n + d / 2) / d
}

/// The weights are the powers of two.
pub proof fn lemma_weight_is_power(exponent: int)
    requires
        UNIT_EXPONENT <= exponent <= 127,
    ensures
        weight(exponent) == pow2((exponent - UNIT_EXPONENT) as nat),
        ONE == pow2(27),
        HIDDEN_BIT == pow2(23),
{
    lemma2_to64();
}

/// The rounded quotient is within one half of the exact one: `r - 1/2 <= n/d < r + 1/2`.
pub proof fn lemma_round_half_up_nearest(n: int, d: int)
    requires
        0 <= n,
        0 < d,
    ensures
        0 <= round_half_up(n, d),
        (2 * round_half_up(n, d) - 1) * d <= 2 * n < (2 * round_half_up(n, d) + 1) * d,
{
    let r = round_half_up(n, d);
    let h = d / 2;
    let x = n + h;
    lemma_fundamental_div_mod(x, d);
    lemma_mod_bound(x, d);
    assert(x == d * r + x % d);
    assert(d == 2 * h || d == 2 * h + 1);
    assert((2 * r - 1) * d == 2 * (d * r) - d) by (nonlinear_arith);
    assert((2 * r + 1) * d == 2 * (d * r) + d) by (nonlinear_arith);
    assert(0 <= r) by (nonlinear_arith)
        requires
            0 <= x,
            0 < d,
            r == x / d,
    ;
    if d == 2 * h + 1 {
        // 2n is even and (2r + 1)d is odd, so they differ.
        assert(2 * (d * r) + d == 2 * (d * r + h) + 1);
    }
}

/// Rounding keeps the order of the numerators.
pub proof fn lemma_round_half_up_ordered(n1: int, n2: int, d: int)
    requires
        n1 <= n2,
        0 < d,
    ensures
        round_half_up(n1, d) <= round_half_up(n2, d),
{
    lemma_div_is_ordered(n1 + d / 2, n2 + d / 2, d);
}

/// What the accepted range means: the exponent lies in 123..=127 and the value lies between
/// one tenth and one.
pub proof fn lemma_valid_bits_value(bits: u32)
    requires
        valid_bits(bits),
    ensures
        UNIT_EXPONENT <= biased_exponent(bits) <= 127,
        ONE <= 10 * units_of(bits),
        units_of(bits) <= ONE,
{
    let e = biased_exponent(bits);
    let m = significand(bits);
    assert(123 <= e <= 127);
    assert(HIDDEN_BIT <= m < 2 * HIDDEN_BIT);
    if e == 123 {
        assert(m >= 0xCC_CCCD);
    } else if e == 127 {
        assert(m == HIDDEN_BIT);
    }
}

/// The range is tight: the pattern just below it encodes less than one tenth, the pattern
/// just above it more than one.
pub proof fn lemma_valid_bits_tight()
    ensures
        10 * units_of((MIN_BITS - 1) as u32) < ONE,
        units_of((FULL_BITS + 1) as u32) > ONE,
{
    let below = (MIN_BITS - 1) as u32;
    let above = (FULL_BITS + 1) as u32;
    assert(biased_exponent(below) == 123 && significand(below) == 0xCC_CCCC);
    assert(biased_exponent(above) == 127 && significand(above) == HIDDEN_BIT + 1);
}

/// Within the accepted range a larger pattern encodes a larger value.
pub proof fn lemma_units_ordered(lo: u32, hi: u32)
    requires
        valid_bits(lo),
        valid_bits(hi),
        lo <= hi,
    ensures
        units_of(lo) <= units_of(hi),
        lo < hi ==> units_of(lo) < units_of(hi),
{
    let e1 = biased_exponent(lo);
    let e2 = biased_exponent(hi);
    let m1 = significand(lo);
    let m2 = significand(hi);
    assert(123 <= e1 <= e2 <= 127);
    assert(HIDDEN_BIT <= m1 < 2 * HIDDEN_BIT);
    assert(HIDDEN_BIT <= m2 < 2 * HIDDEN_BIT);
    assert(lo == e1 * HIDDEN_BIT + (m1 - HIDDEN_BIT));
    assert(hi == e2 * HIDDEN_BIT + (m2 - HIDDEN_BIT));
    let w1 = weight(e1);
    let w2 = weight(e2);
    if e1 == e2 {
        assert(m1 <= m2);
        assert(lo < hi ==> m1 < m2);
        assert(m1 * w1 <= m2 * w1) by (nonlinear_arith)
            requires
                m1 <= m2,
                0 < w1,
        ;
        assert(lo < hi ==> m1 * w1 < m2 * w1) by (nonlinear_arith)
            requires
                lo < hi ==> m1 < m2,
                0 < w1,
        ;
    } else {
        assert(2 * w1 <= w2);
        assert(m1 * w1 < m2 * w2) by (nonlinear_arith)
            requires
                m1 < 2 * HIDDEN_BIT,
                HIDDEN_BIT <= m2,
                0 < w1,
                2 * w1 <= w2,
        ;
    }
}

/// An opacity between one tenth and one, both included.
#[derive(Clone, Copy, Debug, PartialEq, Eq, Structural)]
pub struct Opacity {
    bits: u32,
}

impl Opacity {
    /// The single-precision bit pattern of this opacity.
    pub closed spec fn spec_bits(self) -> u32 {
        self.bits
    }

    /// Holds of every opacity that executable code can hold.
    #[verifier::type_invariant]
    pub open spec fn valid(self) -> bool {
        valid_bits(self.spec_bits())
    }

    /// The opacity in units of 2^-27: between a tenth of `ONE` and `ONE`.
    pub open spec fn units(self) -> int {
        units_of(self.spec_bits())
    }

    /// Level of every channel of the image tint: 255 times the opacity, rounded.
    pub open spec fn tint_level(self) -> int {
        round_half_up(255 * self.units(), ONE as int)
    }

    /// Alpha of the background fill: 255 times a tenth of the opacity, rounded.
    pub open spec fn background_level(self) -> int {
        round_half_up(255 * self.units(), TEN as int)
    }

    /// Full opacity, 1.0.
    pub fn full() -> (o: Opacity)
        ensures
            o.spec_bits() == FULL_BITS,
            o.valid(),
    {
        Opacity { bits: FULL_BITS }
    }

    /// The opacity with the given bit pattern, if the pattern encodes a number in [0.1, 1].
    pub fn from_bits(bits: u32) -> (r: Option<Opacity>)
        ensures
            r is Some <==> valid_bits(bits),
            r matches Some(o) ==> o.spec_bits() == bits,
    {
        if MIN_BITS <= bits && bits <= FULL_BITS {
            Some(Opacity { bits })
        } else {
            None
        }
    }

    /// The bit pattern of this opacity.
    pub fn bits(&self) -> (b: u32)
        ensures
            b == self.spec_bits(),
            self.valid(),
    {
        proof {
            use_type_invariant(self);
        }
        self.bits
    }

    /// The opacity as a fixed-point number with 27 fraction bits.
    pub fn to_units(&self) -> (u: u64)
        ensures
            u == self.units(),
            ONE <= 10 * u,
            u <= ONE,
    {
        proof {
            use_type_invariant(self);
            lemma_valid_bits_value(self.bits);
        }
        let exponent: u32 = self.bits / HIDDEN_BIT;
        let significand: u32 = HIDDEN_BIT + self.bits % HIDDEN_BIT;
        let weight: u64 = if exponent == 123 {
            1
        } else if exponent == 124 {
            2
        } else if exponent == 125 {
            4
        } else if exponent == 126 {
            8
        } else {
            16
        };
        (significand as u64) * weight
    }

    /// Level of the image tint, the same on all four channels.
    pub fn tint_alpha(&self) -> (level: u8)
        ensures
            level == self.tint_level(),
    {
        let u: u64 = self.to_units();
        let level: u64 = (255 * u + ONE / 2) / ONE;
        level as u8
    }

    /// Alpha of the black fill behind the image.
    pub fn background_alpha(&self) -> (level: u8)
        ensures
            level == self.background_level(),
    {
        let u: u64 = self.to_units();
        let level: u64 = (255 * u + TEN / 2) / TEN;
        level as u8
    }

    /// The tint laid over the image.
    pub fn image_tint(&self) -> (c: Rgba)
        ensures
            c == Rgba::uniform(self.tint_level() as u8),
            0 <= self.tint_level() <= 255,
    {
        let level: u8 = self.tint_alpha();
        Rgba { r: level, g: level, b: level, a: level }
    }

    /// The fill painted over the whole window before anything else.
    pub fn background_fill(&self) -> (c: Rgba)
        ensures
            c == Rgba::black(self.background_level() as u8),
            0 <= self.background_level() <= 255,
    {
        let level: u8 = self.background_alpha();
        Rgba { r: 0, g: 0, b: 0, a: level }
    }
}

/// Both levels never decrease as the opacity grows.
pub proof fn lemma_levels_non_decreasing(lo: Opacity, hi: Opacity)
    requires
        lo.valid(),
        hi.valid(),
        lo.units() <= hi.units(),
    ensures
        lo.tint_level() <= hi.tint_level(),
        lo.background_level() <= hi.background_level(),
{
    lemma_round_half_up_ordered(255 * lo.units(), 255 * hi.units(), ONE as int);
    lemma_round_half_up_ordered(255 * lo.units(), 255 * hi.units(), TEN as int);
}

/// Both levels fit in a byte: the tint lies in 26..=255, the background alpha in 3..=26.
pub proof fn lemma_levels_range(o: Opacity)
    requires
        o.valid(),
    ensures
        26 <= o.tint_level() <= 255,
        3 <= o.background_level() <= 26,
{
    lemma_valid_bits_value(o.spec_bits());
}

} // verus!

//! Positive multipliers held exactly, without floating point.
//!
//! A multiplier is a dyadic rational `mantissa * 2^exponent`. Every positive
//! finite IEEE-754 single-precision number is such a value, so a multiplier
//! can be built from the bit pattern of one and then applied to an axis delta
//! in integer arithmetic, with the rounding and clamping stated exactly.

use vstd::prelude::*;
use vstd::arithmetic::power2::pow2;
use vstd::arithmetic::power2::lemma2_to64;
use vstd::arithmetic::power2::lemma2_to64_rest;
use vstd::arithmetic::power2::lemma_pow2_pos;
use vstd::arithmetic::power2::lemma_pow2_strictly_increases;
use vstd::arithmetic::div_mod::lemma_fundamental_div_mod_converse;
use vstd::arithmetic::div_mod::lemma_basic_div;
use vstd::arithmetic::div_mod::lemma_div_is_ordered;
use vstd::bits::lemma_u64_shl_is_mul;

verus! {

/// Largest magnitude that a scaled delta can take before clamping matters:
/// the magnitude of the most negative signed 16-bit value.
pub const MAGNITUDE_LIMIT: u64 = 32768;

/// `n / d` rounded to the nearest integer, a tie going up, for `n >= 0` and `d > 0`.
pub open spec fn half_up(n: int, d: int) -> int {
    (2 * n + d) / (2 * d)
}

/// `n / d` rounded to the nearest integer, a tie going away from zero, for `d > 0`.
pub open spec fn round_half_away(n: int, d: int) -> int {
    if n >= 0 {
        half_up(n, d)
    } else {
        -half_up(-n, d)
    }
}

/// `v` limited to the range of a signed 16-bit value.
pub open spec fn clamp16(v: int) -> int {
    if v < -32768 {
        -32768
    } else if v > 32767 {
        32767
    } else {
        v
    }
}

/// Significand of the positive finite single-precision number with bit
/// pattern `bits`: the fraction field, with the hidden bit unless subnormal.
pub open spec fn f32_significand(bits: u32) -> nat {
    if bits / 0x80_0000 == 0 {
        (bits % 0x80_0000) as nat
    } else {
        (bits % 0x80_0000 + 0x80_0000) as nat
    }
}

/// Power of two that the significand of `bits` is multiplied by.
pub open spec fn f32_exponent(bits: u32) -> int {
    if bits / 0x80_0000 == 0 {
        -149
    } else {
        bits / 0x80_0000 - 150
    }
}

/// A positive dyadic rational, `mantissa * 2^exponent`.
#[derive(Clone, Copy, Debug)]
pub struct Multiplier {
    mantissa: u32,
    exponent: i16,
}

impl Multiplier {
    #[verifier::type_invariant]
    spec fn positive(self) -> bool {
        self.mantissa > 0
    }

    /// The integer that is multiplied by a power of two.
    pub closed spec fn spec_mantissa(self) -> nat {
        self.mantissa as nat
    }

    /// The power of two that the mantissa is multiplied by.
    pub closed spec fn spec_exponent(self) -> int {
        self.exponent as int
    }

    /// Numerator of the multiplier written as a fraction of naturals.
    pub open spec fn numerator(self) -> nat {
        if self.spec_exponent() >= 0 {
            self.spec_mantissa() * pow2(self.spec_exponent() as nat)
        } else {
            self.spec_mantissa()
        }
    }

    /// Denominator of the multiplier written as a fraction of naturals.
    pub open spec fn denominator(self) -> nat {
        if self.spec_exponent() >= 0 {
            1
        } else {
            pow2((-self.spec_exponent()) as nat)
        }
    }

    /// Whether the multiplier is exactly one.
    pub open spec fn is_unit(self) -> bool {
        self.numerator() == self.denominator()
    }

    /// `delta` times the multiplier, rounded half away from zero and clamped
    /// to the signed 16-bit range.
    pub open spec fn scaled(self, delta: int) -> int {
        clamp16(round_half_away(delta * self.numerator(), self.denominator() as int))
    }

    /// The multiplier `mantissa * 2^exponent`; none for a zero mantissa,
    /// which is no positive value.
    pub fn new(mantissa: u32, exponent: i16) -> (m: Option<Multiplier>)
        ensures
            m is Some <==> mantissa > 0,
            m matches Some(v) ==> v.spec_mantissa() == mantissa && v.spec_exponent() == exponent,
    {
        if mantissa == 0 {
            None
        } else {
            Some(Multiplier { mantissa, exponent })
        }
    }

    /// The multiplier one.
    pub fn one() -> (m: Multiplier)
        ensures
            m.spec_mantissa() == 1,
            m.spec_exponent() == 0,
            m.is_unit(),
    {
        proof {
            lemma2_to64();
        }
        Multiplier { mantissa: 1, exponent: 0 }
    }

    /// The multiplier equal to the single-precision number with bit pattern
    /// `bits`; none unless that number is finite and greater than zero.
    pub fn from_f32_bits(bits: u32) -> (m: Option<Multiplier>)
        ensures
            m is Some <==> 0 < bits < 0x7f80_0000,
            m matches Some(v) ==> v.spec_mantissa() == f32_significand(bits) && v.spec_exponent()
                == f32_exponent(bits),
    {
        if bits == 0 || bits >= 0x7f80_0000 {
            return None;
        }
        let field: u32 = bits / 0x80_0000;
        let fraction: u32 = bits % 0x80_0000;
        if field == 0 {
            Some(Multiplier { mantissa: fraction, exponent: -149 })
        } else {
            Some(Multiplier { mantissa: fraction + 0x80_0000, exponent: (field as i16) - 150 })
        }
    }

    /// The integer that is multiplied by a power of two.
    pub fn mantissa(&self) -> (v: u32)
        ensures
            v == self.spec_mantissa(),
            v > 0,
    {
        proof {
            use_type_invariant(self);
        }
        self.mantissa
    }

    /// The power of two that the mantissa is multiplied by.
    pub fn exponent(&self) -> (v: i16)
        ensures
            v == self.spec_exponent(),
    {
        self.exponent
    }

    /// Whether the multiplier is exactly one.
    pub fn is_one(&self) -> (unit: bool)
        ensures
            unit == self.is_unit(),
    {
        proof {
            use_type_invariant(self);
            lemma2_to64();
            lemma2_to64_rest();
        }
        if self.exponent > 0 {
            proof {
                let e = self.exponent as nat;
                lemma_pow2_strictly_increases(0, e);
                assert(self.mantissa as nat * pow2(e) > 1) by (nonlinear_arith)
                    requires
                        self.mantissa >= 1,
                        pow2(e) > 1,
                ;
            }
            false
        } else if self.exponent < -31 {
            proof {
                if self.exponent < -32 {
                    lemma_pow2_strictly_increases(32, (-self.exponent) as nat);
                }
            }
            false
        } else {
            let power: u64 = power_of_two((-(self.exponent as i32)) as u32);
            proof {
                if self.exponent == 0 {
                    assert(self.mantissa as nat * pow2(0) == self.mantissa) by (nonlinear_arith)
                        requires
                            pow2(0) == 1,
                    ;
                }
            }
            self.mantissa as u64 == power
        }
    }

    /// Magnitude of the rounded product of `magnitude` and the multiplier,
    /// cut off at the magnitude limit.
    fn scaled_magnitude(&self, magnitude: u64) -> (out: u64)
        requires
            magnitude <= MAGNITUDE_LIMIT,
        ensures
            out <= MAGNITUDE_LIMIT,
            out == if half_up(magnitude * self.numerator(), self.denominator() as int)
                > MAGNITUDE_LIMIT {
                MAGNITUDE_LIMIT as int
            } else {
                half_up(magnitude * self.numerator(), self.denominator() as int)
            },
    {
        proof {
            lemma2_to64();
            lemma2_to64_rest();
        }
        assert(magnitude * self.mantissa <= 0x8000 * 0xffff_ffff) by (nonlinear_arith)
            requires
                magnitude <= 0x8000,
                self.mantissa <= 0xffff_ffff,
        ;
        let product: u64 = magnitude * (self.mantissa as u64);
        if product == 0 {
            proof {
                lemma_pow2_pos((-self.exponent) as nat);
                assert(magnitude * self.numerator() == 0) by (nonlinear_arith)
                    requires
                        magnitude * self.mantissa == 0,
                        self.numerator() == self.mantissa || self.numerator() == self.mantissa
                            * pow2(self.exponent as nat),
                ;
                lemma_basic_div(self.denominator() as int, 2 * (self.denominator() as int));
            }
            0
        } else if self.exponent >= 0 {
            let ghost whole: int = magnitude * self.numerator();
            proof {
                assert(whole == product * pow2(self.exponent as nat)) by (nonlinear_arith)
                    requires
                        whole == magnitude * (self.mantissa * pow2(self.exponent as nat)),
                        product == magnitude * self.mantissa,
                ;
                assert((2 * whole + 1) / 2 == whole);
            }
            if self.exponent >= 16 {
                proof {
                    if self.exponent > 16 {
                        lemma_pow2_strictly_increases(16, self.exponent as nat);
                    }
                    assert(product * pow2(self.exponent as nat) >= 65536) by (nonlinear_arith)
                        requires
                            product >= 1,
                            pow2(self.exponent as nat) >= 65536,
                    ;
                }
                MAGNITUDE_LIMIT
            } else {
                let power: u64 = power_of_two(self.exponent as u32);
                assert(product * power <= 0x8000_0000_0000 * 0x8000) by (nonlinear_arith)
                    requires
                        product <= 0x8000_0000_0000,
                        power <= 0x8000,
                ;
                let value: u64 = product * power;
                if value > MAGNITUDE_LIMIT {
                    MAGNITUDE_LIMIT
                } else {
                    value
                }
            }
        } else {
            let shift: u32 = (-(self.exponent as i32)) as u32;
            let ghost whole: int = magnitude * self.numerator();
            if shift >= 49 {
                proof {
                    if shift > 49 {
                        lemma_pow2_strictly_increases(49, shift as nat);
                    }
                    lemma_basic_div(2 * whole + pow2(shift as nat), 2 * (pow2(shift as nat) as int));
                }
                0
            } else {
                let power: u64 = power_of_two(shift);
                proof {
                    if shift < 48 {
                        lemma_pow2_strictly_increases(shift as nat, 48);
                    }
                }
                let rounded: u64 = (2 * product + power) / (2 * power);
                if rounded > MAGNITUDE_LIMIT {
                    MAGNITUDE_LIMIT
                } else {
                    rounded
                }
            }
        }
    }

    /// Scales one axis delta: the product rounded half away from zero, then
    /// clamped to the signed 16-bit range.
    pub fn scale(&self, delta: i16) -> (out: i16)
        ensures
            out == self.scaled(delta as int),
    {
        let ghost num: int = self.numerator() as int;
        proof {
            use_type_invariant(self);
            if self.exponent >= 0 {
                lemma_pow2_pos(self.exponent as nat);
                assert(self.mantissa * pow2(self.exponent as nat) > 0) by (nonlinear_arith)
                    requires
                        self.mantissa > 0,
                        pow2(self.exponent as nat) > 0,
                ;
            }
        }
        if delta >= 0 {
            let magnitude: u64 = self.scaled_magnitude(delta as u64);
            assert(delta * num >= 0) by (nonlinear_arith)
                requires
                    delta >= 0,
                    num >= 0,
            ;
            if magnitude > 32767 {
                32767
            } else {
                magnitude as i16
            }
        } else {
            let magnitude: u64 = self.scaled_magnitude((-(delta as i32)) as u64);
            assert(delta * num < 0 && -(delta * num) == (-delta) * num) by (nonlinear_arith)
                requires
                    delta < 0,
                    num > 0,
            ;
            if magnitude >= 32768 {
                -32768
            } else {
                -(magnitude as i16)
            }
        }
    }
}

/// Two to the power `shift`.
fn power_of_two(shift: u32) -> (power: u64)
    requires
        shift < 64,
    ensures
        power == pow2(shift as nat),
{
    proof {
        vstd::bits::lemma_u64_pow2_no_overflow(shift as nat);
        lemma_u64_shl_is_mul(1, shift as u64);
    }
    1u64 << (shift as u64)
}

/// Scaling by a multiplier equal to one changes no delta of the signed
/// 16-bit range.
pub proof fn lemma_unit_scale(m: Multiplier, delta: int)
    requires
        m.is_unit(),
        -32768 <= delta <= 32767,
    ensures
        m.scaled(delta) == delta,
{
    let d = m.denominator() as int;
    lemma_pow2_pos((-m.spec_exponent()) as nat);
    if delta >= 0 {
        assert(delta * d >= 0) by (nonlinear_arith)
            requires
                delta >= 0,
                d > 0,
        ;
        assert(2 * (delta * d) + d == delta * (2 * d) + d) by (nonlinear_arith);
        lemma_fundamental_div_mod_converse(2 * (delta * d) + d, 2 * d, delta, d);
    } else {
        assert(delta * d < 0) by (nonlinear_arith)
            requires
                delta < 0,
                d > 0,
        ;
        assert(2 * (-(delta * d)) + d == (-delta) * (2 * d) + d) by (nonlinear_arith);
        lemma_fundamental_div_mod_converse(2 * (-(delta * d)) + d, 2 * d, -delta, d);
    }
}

/// Scaling never changes the sign of a delta: no product wraps around.
pub proof fn lemma_scale_keeps_sign(m: Multiplier, delta: int)
    ensures
        delta >= 0 ==> 0 <= m.scaled(delta) <= 32767,
        delta <= 0 ==> -32768 <= m.scaled(delta) <= 0,
{
    let n = m.numerator() as int;
    let d = m.denominator() as int;
    lemma_pow2_pos((-m.spec_exponent()) as nat);
    lemma_basic_div(d, 2 * d);
    if delta >= 0 {
        assert(delta * n >= 0) by (nonlinear_arith)
            requires
                delta >= 0,
                n >= 0,
        ;
        lemma_div_is_ordered(0, 2 * (delta * n) + d, 2 * d);
    } else {
        assert(delta * n <= 0 && -(delta * n) >= 0) by (nonlinear_arith)
            requires
                delta < 0,
                n >= 0,
        ;
        lemma_div_is_ordered(0, 2 * (-(delta * n)) + d, 2 * d);
    }
}

/// A product at or beyond an end of the signed 16-bit range is clamped to
/// that end.
pub proof fn lemma_scale_saturates(m: Multiplier, delta: int)
    ensures
        delta * m.numerator() >= 32767 * m.denominator() ==> m.scaled(delta) == 32767,
        delta * m.numerator() <= -32768 * m.denominator() ==> m.scaled(delta) == -32768,
{
    let n = delta * m.numerator();
    let d = m.denominator() as int;
    lemma_pow2_pos((-m.spec_exponent()) as nat);
    if n >= 32767 * d {
        lemma_fundamental_div_mod_converse(65535 * d, 2 * d, 32767, d);
        lemma_div_is_ordered(65535 * d, 2 * n + d, 2 * d);
    }
    if n <= -32768 * d {
        lemma_fundamental_div_mod_converse(65537 * d, 2 * d, 32768, d);
        lemma_div_is_ordered(65537 * d, 2 * (-n) + d, 2 * d);
    }
}

} // verus!

//! Intervals of time in seconds, held in the IEEE 754 binary32 interchange
//! encoding: one sign bit, eight exponent bits, twenty-three fraction bits.
//!
//! Every comparison that the limits on a timed request need is defined here
//! on the encoded value, in exact integer arithmetic. The unit of magnitude is
//! 2^-149 seconds, the smallest positive binary32 number.

use vstd::arithmetic::power2::*;
use vstd::prelude::*;

verus! {

/// The encoding of one second, the interval of a timed request that names none.
pub const ONE_SECOND_BITS: u32 = 0x3F80_0000;

/// Half a second is 2 to this power in units of 2^-149 seconds.
pub const HALF_SECOND_LOG2: u32 = 148;

/// 20 + 2^-20, scaled by 2^20 to a whole number. A binary32 quotient compares
/// greater than 20 exactly when the exact quotient is greater than
/// 20 + 2^-20: that is half way from 20 to the next binary32 number, and the
/// tie goes to 20, whose fraction is even.
pub const RATE_BOUND: u64 = 20_971_521;

/// The power of two by which a count is scaled to be compared with a
/// magnitude times [`RATE_BOUND`]: 149 for the unit of magnitude, and 20 for
/// the scale of the bound.
pub const RATE_SCALE_LOG2: u32 = 169;

/// A number of seconds as a binary32 encoding.
#[derive(Clone, Copy, Debug, PartialEq, Eq, Structural)]
pub struct Interval {
    pub bits: u32,
}

/// The weight of the last place to which a count is rounded when it is
/// converted to binary32: 1 for counts below 2^24, and twice as much for each
/// further bit.
pub open spec fn rounding_unit(n: nat) -> nat
    decreases n,
{
    if n < 0x100_0000 {
        1
    } else {
        2 * rounding_unit(n / 2)
    }
}

/// The binary32 number nearest to the count `n`, ties going to the one whose
/// last place is even.
pub open spec fn nearest_binary32(n: nat) -> nat {
    let unit = rounding_unit(n);
    let q = n / unit;
    let r = n % unit;
    if 2 * r > unit || (2 * r == unit && q % 2 == 1) {
        (q + 1) * unit
    } else {
        q * unit
    }
}

impl Interval {
    /// Whether the sign bit is set.
    pub open spec fn negative(self) -> bool {
        self.bits >= 0x8000_0000
    }

    /// The biased exponent field.
    pub open spec fn exponent(self) -> nat {
        (self.bits as nat / 0x80_0000) % 0x100
    }

    /// The fraction field.
    pub open spec fn fraction(self) -> nat {
        self.bits as nat % 0x80_0000
    }

    /// Whether the encoding is not a number.
    pub open spec fn is_nan(self) -> bool {
        self.exponent() == 0xFF && self.fraction() != 0
    }

    /// Whether the encoding is an infinity.
    pub open spec fn is_infinite(self) -> bool {
        self.exponent() == 0xFF && self.fraction() == 0
    }

    /// The significand of a finite encoding, as a whole number.
    pub open spec fn significand(self) -> nat {
        if self.exponent() == 0 {
            self.fraction()
        } else {
            0x80_0000 + self.fraction()
        }
    }

    /// The power of two by which the significand of a finite encoding is
    /// scaled, counted from 2^-149.
    pub open spec fn shift(self) -> nat {
        if self.exponent() == 0 {
            0
        } else {
            (self.exponent() - 1) as nat
        }
    }

    /// The absolute value of a finite encoding in units of 2^-149 seconds.
    pub open spec fn magnitude(self) -> nat {
        self.significand() * pow2(self.shift())
    }

    /// Whether the interval compares less than half a second. Nothing that is
    /// not a number compares less than anything; every other encoding with
    /// the sign bit set does, negative zero included.
    pub open spec fn below_half(self) -> bool {
        &&& !self.is_nan()
        &&& self.negative() || (!self.is_infinite() && self.magnitude() < pow2(
            HALF_SECOND_LOG2 as nat,
        ))
    }

    /// Whether `repeat` messages, one per interval, come to more than 20
    /// messages per second: whether the binary32 quotient of the binary32
    /// number nearest to `repeat` by the interval compares greater than 20.
    /// The quotient by a positive zero is infinite unless `repeat` is zero;
    /// by an infinity, a negative number or something that is not a number it
    /// is never greater than 20.
    pub open spec fn rate_too_high(self, repeat: nat) -> bool {
        &&& !self.negative()
        &&& self.exponent() != 0xFF
        &&& nearest_binary32(repeat) * pow2(RATE_SCALE_LOG2 as nat) > self.magnitude()
            * RATE_BOUND
    }
}

/// A positive factor on both sides does not change a comparison.
proof fn lemma_mul_lt(a: nat, b: nat, z: nat)
    by (nonlinear_arith)
    requires
        z > 0,
    ensures
        a * z < b * z <==> a < b,
        a * z <= b * z <==> a <= b,
{
}

/// How a binary32 significand scaled by a power of two compares with a power of two.
proof fn lemma_scaled_bounds(s: nat, k: nat)
    requires
        0x80_0000 <= s < 0x100_0000,
    ensures
        pow2(23 + k) <= s * pow2(k) < pow2(24 + k),
{
    lemma2_to64();
    lemma_pow2_pos(k);
    lemma_pow2_adds(23, k);
    lemma_pow2_adds(24, k);
    lemma_mul_lt(s, pow2(24), pow2(k));
    lemma_mul_lt(pow2(23), s, pow2(k));
}

impl Interval {
    /// Whether the interval is less than half a second.
    pub fn is_below_half(self) -> (b: bool)
        ensures
            b == self.below_half(),
    {
        proof {
            lemma2_to64();
            if !self.negative() && self.exponent() != 0xFF {
                if self.exponent() == 0 {
                    lemma_pow2_strictly_increases(23, 148);
                    assert(pow2(0) == 1);
                    assert(self.magnitude() == self.fraction()) by (nonlinear_arith)
                        requires
                            self.magnitude() == self.fraction() * pow2(0),
                            pow2(0) == 1,
                    ;
                } else {
                    lemma_scaled_bounds(self.significand(), self.shift());
                    if self.exponent() <= 125 {
                        if 24 + self.shift() < 148 {
                            lemma_pow2_strictly_increases(24 + self.shift(), 148);
                        }
                    } else {
                        if 148 < 23 + self.shift() {
                            lemma_pow2_strictly_increases(148, 23 + self.shift());
                        }
                    }
                }
            }
        }
        if self.bits >= 0x8000_0000 {
            self.bits - 0x8000_0000 <= 0x7F80_0000
        } else {
            self.bits < 0x3F00_0000
        }
    }
}

/// Three factors multiply in any grouping and order.
proof fn lemma_mul_assoc3(a: nat, b: nat, c: nat)
    by (nonlinear_arith)
    ensures
        (a * b) * c == a * (b * c),
        (a * b) * c == (a * c) * b,
{
}

/// 2 to the power `e`.
fn power_of_two(e: u32) -> (p: u128)
    requires
        e <= 64,
    ensures
        p == pow2(e as nat),
{
    let mut p: u128 = 1;
    let mut i: u32 = 0;
    proof {
        lemma2_to64();
    }
    while i < e
        invariant
            i <= e <= 64,
            p == pow2(i as nat),
        decreases e - i,
    {
        proof {
            lemma_pow2_unfold((i + 1) as nat);
            lemma2_to64_rest();
            if i < 64 {
                lemma_pow2_strictly_increases(i as nat, 64);
            }
        }
        p = p * 2;
        i = i + 1;
    }
    p
}

/// The binary32 number nearest to `n`.
pub fn nearest_binary32_of(n: u64) -> (v: u128)
    ensures
        v == nearest_binary32(n as nat),
        v <= n + 0x200_0000_0000,
{
    let mut unit: u64 = 1;
    let mut m: u64 = n;
    while m >= 0x100_0000
        invariant
            rounding_unit(n as nat) == unit * rounding_unit(m as nat),
            m * unit <= n,
            unit >= 1,
            unit == 1 || m >= 0x80_0000,
        decreases m,
    {
        proof {
            let half = (m / 2) as nat;
            lemma_mul_assoc3(unit as nat, 2, rounding_unit(half));
            assert(unit * 0x100_0000 <= unit * m) by (nonlinear_arith)
                requires
                    m >= 0x100_0000,
                    unit >= 0,
            ;
            assert((m / 2) * (unit * 2) <= m * unit) by (nonlinear_arith)
                requires
                    m >= 0,
                    unit >= 0,
            ;
        }
        m = m / 2;
        unit = unit * 2;
    }
    proof {
        assert(rounding_unit(m as nat) == 1);
        assert(rounding_unit(n as nat) == unit) by (nonlinear_arith)
            requires
                rounding_unit(n as nat) == unit * rounding_unit(m as nat),
                rounding_unit(m as nat) == 1,
        ;
    }
    let q: u64 = n / unit;
    let r: u64 = n % unit;
    proof {
        assert(q * unit + r == n && q * unit <= n) by (nonlinear_arith)
            requires
                q == n / unit,
                r == n % unit,
                unit >= 1,
        ;
        assert((q + 1) * unit == q * unit + unit) by (nonlinear_arith);
        if unit != 1 {
            assert(unit <= 0x200_0000_0000) by (nonlinear_arith)
                requires
                    m * unit <= n,
                    n < 0x1_0000_0000_0000_0000,
                    unit >= 1,
                    m >= 0x80_0000,
            ;
        }
    }
    let up: bool = if r > unit - r {
        true
    } else {
        r == unit - r && q % 2 == 1
    };
    if up {
        (q as u128 + 1) * (unit as u128)
    } else {
        (q as u128) * (unit as u128)
    }
}

impl Interval {
    /// Whether `repeat` messages, one per interval, are more than 20 per second.
    pub fn is_rate_too_high(self, repeat: usize) -> (b: bool)
        ensures
            b == self.rate_too_high(repeat as nat),
    {
        if self.bits >= 0x7F80_0000 {
            return false;
        }
        let exp: u32 = self.bits / 0x80_0000;
        let frac: u32 = self.bits % 0x80_0000;
        let s: u128 = if exp == 0 {
            frac as u128
        } else {
            0x80_0000 + frac as u128
        };
        let k: u32 = if exp == 0 {
            0
        } else {
            exp - 1
        };
        let f: u128 = nearest_binary32_of(repeat as u64);
        let p: u128 = s * (RATE_BOUND as u128);
        proof {
            lemma2_to64();
            lemma2_to64_rest();
            assert(s == self.significand());
            assert(k == self.shift());
            assert(f == nearest_binary32(repeat as nat));
            lemma_pow2_pos(k as nat);
            lemma_mul_assoc3(s as nat, pow2(k as nat), RATE_BOUND as nat);
            assert(self.magnitude() * RATE_BOUND == p * pow2(k as nat));
        }
        if k >= RATE_SCALE_LOG2 {
            let e: u32 = k - RATE_SCALE_LOG2;
            proof {
                lemma_pow2_adds(e as nat, RATE_SCALE_LOG2 as nat);
                lemma_pow2_pos(RATE_SCALE_LOG2 as nat);
                lemma_pow2_pos(e as nat);
                lemma_mul_assoc3(p as nat, pow2(e as nat), pow2(RATE_SCALE_LOG2 as nat));
                lemma_mul_lt(
                    p as nat * pow2(e as nat),
                    f as nat,
                    pow2(RATE_SCALE_LOG2 as nat),
                );
            }
            if e >= 18 {
                proof {
                    if e > 18 {
                        lemma_pow2_strictly_increases(18, e as nat);
                    }
                    assert(p * pow2(e as nat) >= 0x2_0000_0000_0000_0000) by (nonlinear_arith)
                        requires
                            p >= 0x80_0000 * 20_971_521,
                            pow2(e as nat) >= 0x4_0000,
                    ;
                }
                false
            } else {
                let scale = power_of_two(e);
                proof {
                    lemma_pow2_strictly_increases(e as nat, 18);
                    assert(p * scale < 0x1_0000_0000_0000_0000_0000) by (nonlinear_arith)
                        requires
                            p < 0x100_0000 * 20_971_521,
                            scale < 0x4_0000,
                    ;
                }
                f > p * scale
            }
        } else {
            let e: u32 = RATE_SCALE_LOG2 - k;
            proof {
                lemma_pow2_adds(e as nat, k as nat);
                lemma_pow2_pos(e as nat);
                lemma_mul_assoc3(f as nat, pow2(e as nat), pow2(k as nat));
                lemma_mul_lt(p as nat, f as nat * pow2(e as nat), pow2(k as nat));
            }
            if f == 0 {
                assert(f * pow2(e as nat) == 0) by (nonlinear_arith)
                    requires
                        f == 0,
                ;
                false
            } else if e >= 49 {
                proof {
                    if e > 49 {
                        lemma_pow2_strictly_increases(49, e as nat);
                    }
                    assert(f * pow2(e as nat) >= 0x2_0000_0000_0000) by (nonlinear_arith)
                        requires
                            f >= 1,
                            pow2(e as nat) >= 0x2_0000_0000_0000,
                    ;
                }
                true
            } else {
                let scale = power_of_two(e);
                proof {
                    lemma_pow2_strictly_increases(e as nat, 49);
                    assert(f * scale < 0x4_0000_0000_0000_0000_0000_0000_0000) by (nonlinear_arith)
                        requires
                            f <= 0x1_0000_0200_0000_0000,
                            scale < 0x2_0000_0000_0000,
                    ;
                }
                f * scale > p
            }
        }
    }
}

} // verus!

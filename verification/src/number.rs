//! IEEE-754 binary64 numbers, held and examined as bit patterns.

use vstd::prelude::*;
use vstd::arithmetic::power2::*;
use vstd::arithmetic::mul::*;
use vstd::arithmetic::div_mod::*;

verus! {

/// The sign bit of a binary64 pattern.
pub const SIGN_BIT: u64 = 0x8000_0000_0000_0000;

/// Two to the power 52: the weight of the lowest exponent bit, and the hidden
/// bit of a normal significand.
pub const HIDDEN_BIT: u64 = 0x0010_0000_0000_0000;

/// The pattern of positive infinity; a larger magnitude is a NaN.
pub const INFINITY_BITS: u64 = 0x7ff0_0000_0000_0000;

/// The pattern of the quiet NaN this library produces.
pub const NAN_BITS: u64 = 0x7ff8_0000_0000_0000;

/// The pattern of 1.0.
pub const ONE_BITS: u64 = 0x3ff0_0000_0000_0000;

/// The number of binary digits of `m`: 0 for 0, and `p + 1` where
/// `2^p <= m < 2^(p + 1)`.
pub open spec fn bit_length(m: nat) -> nat
    decreases m,
{
    if m == 0 {
        0
    } else {
        1 + bit_length(m / 2)
    }
}

/// A double-precision number, given by its IEEE-754 bit pattern.
#[derive(Clone, Copy, Debug, PartialEq, Eq, Hash)]
pub struct Double {
    pub bits: u64,
}

impl Double {
    /// The pattern without its sign bit.
    pub open spec fn magnitude(self) -> int {
        self.bits as int % 0x8000_0000_0000_0000
    }

    /// Whether the sign bit is set, which it may be in a zero and in a NaN too.
    pub open spec fn is_negative(self) -> bool {
        self.bits >= 0x8000_0000_0000_0000
    }

    /// Whether the pattern is that of a NaN.
    pub open spec fn is_nan(self) -> bool {
        self.magnitude() > 0x7ff0_0000_0000_0000
    }

    /// Whether the number is one of the two infinities.
    pub open spec fn is_infinite(self) -> bool {
        self.magnitude() == 0x7ff0_0000_0000_0000
    }

    /// Whether the number is neither an infinity nor a NaN.
    pub open spec fn is_finite(self) -> bool {
        self.magnitude() < 0x7ff0_0000_0000_0000
    }

    /// Positive or negative zero.
    pub open spec fn is_zero(self) -> bool {
        self.magnitude() == 0
    }

    /// The biased exponent field, from 0 to 2047.
    pub open spec fn exponent(self) -> int {
        self.magnitude() / 0x0010_0000_0000_0000
    }

    /// The 52 stored bits of the significand.
    pub open spec fn fraction(self) -> int {
        self.magnitude() % 0x0010_0000_0000_0000
    }

    /// The significand as an integer: the magnitude of a finite number is
    /// `significand() * 2^scale()`.
    pub open spec fn significand(self) -> int {
        if self.exponent() == 0 {
            self.fraction()
        } else {
            self.fraction() + 0x0010_0000_0000_0000
        }
    }

    /// The power of two that weighs the significand.
    pub open spec fn scale(self) -> int {
        if self.exponent() == 0 {
            -1074
        } else {
            self.exponent() - 1075
        }
    }

    /// The integer part of the magnitude of a finite number.
    pub open spec fn whole_magnitude(self) -> int {
        if self.scale() >= 0 {
            self.significand() * pow2(self.scale() as nat)
        } else {
            self.significand() / (pow2((-self.scale()) as nat) as int)
        }
    }

    /// A finite number with its fractional part dropped (rounded toward
    /// zero).
    pub open spec fn truncated(self) -> int {
        if self.is_negative() {
            -self.whole_magnitude()
        } else {
            self.whole_magnitude()
        }
    }

    /// Whether the number is finite and has no fractional part.
    pub open spec fn is_integral(self) -> bool {
        self.is_finite() && (self.scale() >= 0 || self.significand() % (pow2(
            (-self.scale()) as nat,
        ) as int) == 0)
    }

    /// IEEE-754 equality: a NaN equals nothing, the two zeros are equal, and
    /// any other two numbers are equal when their patterns are.
    pub open spec fn ieee_equal(self, other: Double) -> bool {
        !self.is_nan() && !other.is_nan() && (self.bits == other.bits || (self.is_zero()
            && other.is_zero()))
    }

    /// SameValue on numbers: every NaN is the same value, the two zeros are
    /// not.
    pub open spec fn same_value(self, other: Double) -> bool {
        (self.is_nan() && other.is_nan()) || self.bits == other.bits
    }

    /// SameValueZero on numbers: as `same_value`, but the two zeros are the
    /// same.
    pub open spec fn same_value_zero(self, other: Double) -> bool {
        (self.is_nan() && other.is_nan()) || self.ieee_equal(other)
    }

    /// An integer that orders the numbers that are not NaN as IEEE-754 does:
    /// the magnitude, negated under a sign bit. Both zeros have key 0.
    pub open spec fn order_key(self) -> int {
        if self.is_negative() {
            -self.magnitude()
        } else {
            self.magnitude()
        }
    }

    /// IEEE-754 `<`: false where either side is a NaN.
    pub open spec fn ieee_less(self, other: Double) -> bool {
        !self.is_nan() && !other.is_nan() && self.order_key() < other.order_key()
    }

    /// The number with the sign bit flipped, which is what negation does to
    /// every pattern, a NaN included.
    pub open spec fn negated(self) -> Double {
        if self.is_negative() {
            Double { bits: (self.bits - 0x8000_0000_0000_0000) as u64 }
        } else {
            Double { bits: (self.bits + 0x8000_0000_0000_0000) as u64 }
        }
    }

    /// The number that holds the integer `n` exactly, for `n` of at most 53
    /// binary digits: positive zero for 0, and otherwise the normal number
    /// whose exponent is the position of the top digit of `|n|` and whose
    /// fraction holds the digits below it.
    pub open spec fn of_int(n: int) -> Double {
        if n == 0 {
            Double { bits: 0 }
        } else {
            let m = if n < 0 {
                -n
            } else {
                n
            };
            let p = (bit_length(m as nat) - 1) as nat;
            let sign: int = if n < 0 {
                0x8000_0000_0000_0000
            } else {
                0
            };
            Double {
                bits: (sign + (1023 + p) * 0x0010_0000_0000_0000 + (m - pow2(p)) * pow2(
                    (52 - p) as nat,
                )) as u64,
            }
        }
    }

    /// The number with the given bit pattern.
    pub fn from_bits(bits: u64) -> (r: Double)
        ensures
            r.bits == bits,
    {
        Double { bits }
    }

    /// The bit pattern of the number.
    pub fn to_bits(&self) -> (r: u64)
        ensures
            r == self.bits,
    {
        self.bits
    }

    /// The quiet NaN.
    pub fn nan() -> (r: Double)
        ensures
            r.bits == NAN_BITS,
            r.is_nan(),
    {
        Double { bits: NAN_BITS }
    }

    /// Positive zero.
    pub fn zero() -> (r: Double)
        ensures
            r.bits == 0,
            r.is_zero(),
            r == Double::of_int(0),
    {
        Double { bits: 0 }
    }

    /// The number 1.
    pub fn one() -> (r: Double)
        ensures
            r.bits == ONE_BITS,
            r == Double::of_int(1),
    {
        proof {
            lemma2_to64();
            lemma2_to64_rest();
            assert(bit_length(1) == 1) by {
                reveal_with_fuel(bit_length, 2);
            }
            assert(pow2(0) == 1 && pow2(52) == 0x0010_0000_0000_0000);
            let p = (bit_length(1) - 1) as nat;
            assert(p == 0);
            assert((1 - pow2(p)) * pow2((52 - p) as nat) == 0);
            assert(Double::of_int(1).bits == ONE_BITS);
        }
        Double { bits: ONE_BITS }
    }

    fn magnitude_bits(&self) -> (r: u64)
        ensures
            r == self.magnitude(),
            r < SIGN_BIT,
    {
        self.bits % SIGN_BIT
    }

    /// Whether the sign bit is set.
    pub fn has_sign(&self) -> (r: bool)
        ensures
            r == self.is_negative(),
    {
        self.bits >= SIGN_BIT
    }

    /// Whether the number is a NaN.
    pub fn check_nan(&self) -> (r: bool)
        ensures
            r == self.is_nan(),
    {
        self.magnitude_bits() > INFINITY_BITS
    }

    /// Whether the number is one of the two zeros.
    pub fn check_zero(&self) -> (r: bool)
        ensures
            r == self.is_zero(),
    {
        self.magnitude_bits() == 0
    }

    /// Whether the number is neither an infinity nor a NaN.
    pub fn check_finite(&self) -> (r: bool)
        ensures
            r == self.is_finite(),
    {
        self.magnitude_bits() < INFINITY_BITS
    }

    /// IEEE-754 `==`.
    pub fn equals(&self, other: &Double) -> (r: bool)
        ensures
            r == self.ieee_equal(*other),
    {
        if self.check_nan() || other.check_nan() {
            false
        } else {
            self.bits == other.bits || (self.check_zero() && other.check_zero())
        }
    }

    /// SameValue on numbers.
    pub fn is_same_value(&self, other: &Double) -> (r: bool)
        ensures
            r == self.same_value(*other),
    {
        (self.check_nan() && other.check_nan()) || self.bits == other.bits
    }

    /// SameValueZero on numbers.
    pub fn is_same_value_zero(&self, other: &Double) -> (r: bool)
        ensures
            r == self.same_value_zero(*other),
    {
        (self.check_nan() && other.check_nan()) || self.equals(other)
    }

    /// IEEE-754 `<`.
    pub fn less_than(&self, other: &Double) -> (r: bool)
        ensures
            r == self.ieee_less(*other),
    {
        if self.check_nan() || other.check_nan() {
            return false;
        }
        let a = self.magnitude_bits();
        let b = other.magnitude_bits();
        if self.has_sign() {
            if other.has_sign() {
                b < a
            } else {
                a != 0 || b != 0
            }
        } else {
            if other.has_sign() {
                false
            } else {
                a < b
            }
        }
    }

    /// IEEE-754 `<=`: less or equal, and false where either side is a NaN.
    pub fn less_or_equal(&self, other: &Double) -> (r: bool)
        ensures
            r == (self.ieee_less(*other) || self.ieee_equal(*other)),
    {
        self.less_than(other) || self.equals(other)
    }

    /// Arithmetic negation.
    pub fn negate(&self) -> (r: Double)
        ensures
            r == self.negated(),
            r.magnitude() == self.magnitude(),
            r.is_negative() == !self.is_negative(),
    {
        if self.bits >= SIGN_BIT {
            Double { bits: self.bits - SIGN_BIT }
        } else {
            Double { bits: self.bits + SIGN_BIT }
        }
    }

    /// Whether the number counts as true: it is neither a zero nor a NaN.
    pub fn is_truthy(&self) -> (r: bool)
        ensures
            r == (!self.is_zero() && !self.is_nan()),
    {
        let m = self.magnitude_bits();
        m != 0 && m <= INFINITY_BITS
    }
}


/// `bit_length` names the position of the top digit.
pub proof fn lemma_bit_length(m: nat, p: nat)
    requires
        pow2(p) <= m < pow2(p + 1),
    ensures
        bit_length(m) == p + 1,
    decreases p,
{
    lemma_pow2_unfold(p + 1);
    if p == 0 {
        lemma2_to64();
        assert(m == 1);
        reveal_with_fuel(bit_length, 2);
    } else {
        lemma_pow2_unfold(p);
        lemma_bit_length(m / 2, (p - 1) as nat);
    }
}

/// What `of_int` encodes is the integer: the number is finite, has no
/// fractional part, carries the integer's sign, and truncates to it.
pub proof fn lemma_of_int(n: int)
    requires
        -0x20_0000_0000_0000 < n < 0x20_0000_0000_0000,
    ensures
        Double::of_int(n).is_finite(),
        !Double::of_int(n).is_nan(),
        Double::of_int(n).is_integral(),
        Double::of_int(n).truncated() == n,
        Double::of_int(n).is_negative() == (n < 0),
        Double::of_int(n).is_zero() == (n == 0),
{
    lemma2_to64();
    lemma2_to64_rest();
    let d = Double::of_int(n);
    if n == 0 {
        lemma_pow2_pos(1074);
        assert(d.exponent() == 0);
        assert(d.significand() == 0);
    } else {
        let m: nat = (if n < 0 {
            -n
        } else {
            n
        }) as nat;
        lemma_top_digit(m);
        let p = (bit_length(m) - 1) as nat;
        assert(p <= 52) by {
            if p > 53 {
                lemma_pow2_strictly_increases(53, p);
            }
        }
        let unit = pow2((52 - p) as nat);
        let top = pow2(p);
        lemma_pow2_pos((52 - p) as nat);
        lemma_pow2_pos(p);
        lemma_pow2_adds(p, (52 - p) as nat);
        lemma_pow2_unfold(p + 1);
        let frac = (m - top) * unit;
        assert(top * unit == 0x0010_0000_0000_0000);
        assert(0 <= frac < 0x0010_0000_0000_0000) by (nonlinear_arith)
            requires
                frac == (m - top) * unit,
                top * unit == 0x0010_0000_0000_0000,
                top <= m < 2 * top,
                unit > 0,
        ;
        let mag = (1023 + p) * 0x0010_0000_0000_0000 + frac;
        assert(d.magnitude() == mag);
        assert(d.exponent() == 1023 + p);
        assert(d.fraction() == frac);
        assert(d.significand() == m * unit) by (nonlinear_arith)
            requires
                d.significand() == frac + 0x0010_0000_0000_0000,
                frac == (m - top) * unit,
                top * unit == 0x0010_0000_0000_0000,
        ;
        if p == 52 {
            lemma2_to64();
            assert(unit == 1);
            assert(d.scale() == 0);
            assert(d.significand() == m) by (nonlinear_arith)
                requires
                    d.significand() == m * unit,
                    unit == 1,
            ;
            assert(d.significand() * pow2(0) == m) by (nonlinear_arith)
                requires
                    d.significand() == m,
                    pow2(0) == 1,
            ;
        } else {
            assert(d.scale() == p - 52);
            assert((-d.scale()) as nat == (52 - p) as nat);
            lemma_div_multiples_vanish(m as int, unit as int);
            lemma_mod_multiples_basic(m as int, unit as int);
            assert(m * unit == unit * m) by (nonlinear_arith);
        }
    }
}

/// A positive number lies between the power of two of its top digit and
/// the next one.
pub proof fn lemma_top_digit(m: nat)
    requires
        m > 0,
    ensures
        pow2((bit_length(m) - 1) as nat) <= m < pow2(bit_length(m)),
    decreases m,
{
    lemma2_to64();
    if m == 1 {
        reveal_with_fuel(bit_length, 2);
    } else {
        lemma_top_digit(m / 2);
        let q = bit_length(m / 2);
        assert(bit_length(m) == q + 1);
        lemma_pow2_unfold(q);
        lemma_pow2_unfold(q + 1);
    }
}

impl Double {
    /// The number that holds a 32-bit integer; every such integer is held
    /// exactly.
    pub fn from_i32(n: i32) -> (r: Double)
        ensures
            r == Double::of_int(n as int),
    {
        if n == 0 {
            return Double { bits: 0 };
        }
        let m: u64 = if n < 0 {
            (-(n as i64)) as u64
        } else {
            n as u64
        };
        let mut top: u64 = 1;
        let mut unit: u64 = HIDDEN_BIT;
        let mut p: u64 = 0;
        proof {
            lemma2_to64();
            lemma2_to64_rest();
        }
        while top <= m / 2
            invariant
                0 < m <= 0x8000_0000,
                p <= 31,
                top == pow2(p as nat),
                unit == pow2((52 - p) as nat),
                top <= m,
            decreases m - top,
        {
            proof {
                lemma2_to64();
                lemma_pow2_pos(p as nat);
                lemma_pow2_unfold((p + 1) as nat);
                lemma_pow2_unfold((52 - p) as nat);
                if p + 1 > 31 {
                    lemma_pow2_strictly_increases(31, (p + 1) as nat);
                }
            }
            top = top * 2;
            unit = unit / 2;
            p = p + 1;
        }
        proof {
            lemma_pow2_unfold((p + 1) as nat);
            lemma_bit_length(m as nat, p as nat);
            lemma_pow2_adds(p as nat, (52 - p) as nat);
            assert((m - top) * unit < 0x0010_0000_0000_0000) by (nonlinear_arith)
                requires
                    top * unit == 0x0010_0000_0000_0000,
                    top <= m < 2 * top,
                    unit > 0,
            ;
            assert((m - top) * unit >= 0) by (nonlinear_arith)
                requires
                    top <= m,
                    unit > 0,
            ;
        }
        let fraction: u64 = (m - top) * unit;
        let magnitude: u64 = (1023 + p) * HIDDEN_BIT + fraction;
        if n < 0 {
            Double { bits: SIGN_BIT + magnitude }
        } else {
            Double { bits: magnitude }
        }
    }
}


/// `value` held to the range from `low` to `high`.
pub open spec fn clamp(value: int, low: int, high: int) -> int {
    if value < low {
        low
    } else if value > high {
        high
    } else {
        value
    }
}

impl Double {
    /// The number as a 64-bit integer: the fractional part is dropped, a
    /// number beyond the range becomes the nearest end of it, and a NaN
    /// becomes 0.
    pub open spec fn saturated_i64(self) -> int {
        if self.is_nan() {
            0
        } else {
            clamp(self.truncated(), i64::MIN as int, i64::MAX as int)
        }
    }

    /// The number as a 32-bit integer, in the same way.
    pub open spec fn saturated_i32(self) -> int {
        if self.is_nan() {
            0
        } else {
            clamp(self.truncated(), i32::MIN as int, i32::MAX as int)
        }
    }

    /// Truncates to a 64-bit integer: toward zero, held to the range, 0 for a
    /// NaN.
    pub fn to_i64(&self) -> (r: i64)
        ensures
            r == self.saturated_i64(),
    {
        let m = self.magnitude_bits();
        if m > INFINITY_BITS {
            return 0;
        }
        let e = m / HIDDEN_BIT;
        let f = m % HIDDEN_BIT;
        proof {
            lemma2_to64();
            lemma2_to64_rest();
        }
        if e < 1023 {
            proof {
                let k = (-self.scale()) as nat;
                if k > 53 {
                    lemma_pow2_strictly_increases(53, k);
                }
                lemma_basic_div(self.significand(), pow2(k) as int);
            }
            return 0;
        }
        let sig = f + HIDDEN_BIT;
        if e >= 1086 {
            proof {
                let k = self.scale() as nat;
                if k > 11 {
                    lemma_pow2_strictly_increases(11, k);
                }
                assert(self.significand() * pow2(k) >= 0x8000_0000_0000_0000) by (nonlinear_arith)
                    requires
                        self.significand() >= 0x0010_0000_0000_0000,
                        pow2(k) >= 0x800,
                ;
            }
            return if self.has_sign() {
                i64::MIN
            } else {
                i64::MAX
            };
        }
        let w: u64 = if e >= 1075 {
            let shift = e - 1075;
            proof {
                if shift < 10 {
                    lemma_pow2_strictly_increases(shift as nat, 10);
                }
                assert(sig * pow2(shift as nat) < 0x8000_0000_0000_0000) by (nonlinear_arith)
                    requires
                        sig < 0x0020_0000_0000_0000,
                        pow2(shift as nat) <= 0x400,
                ;
                vstd::bits::lemma_u64_shl_is_mul(sig, shift);
            }
            sig << shift
        } else {
            let shift = 1075 - e;
            proof {
                vstd::bits::lemma_u64_shr_is_div(sig, shift);
            }
            sig >> shift
        };
        assert(w == self.whole_magnitude());
        assert(w < 0x8000_0000_0000_0000) by {
            if e < 1075 {
                lemma_pow2_pos((1075 - e) as nat);
                lemma_div_is_ordered_by_denominator(sig as int, 1, pow2((1075 - e) as nat) as int);
            }
        }
        if self.has_sign() {
            -(w as i64)
        } else {
            w as i64
        }
    }

    /// Truncates to a 32-bit integer: toward zero, held to the range, 0 for a
    /// NaN.
    pub fn to_i32(&self) -> (r: i32)
        ensures
            r == self.saturated_i32(),
    {
        let wide = self.to_i64();
        if wide < i32::MIN as i64 {
            i32::MIN
        } else if wide > i32::MAX as i64 {
            i32::MAX
        } else {
            wide as i32
        }
    }
}

/// A 32-bit integer goes into a double and comes back unchanged.
pub proof fn lemma_i32_round_trip(n: i32)
    ensures
        Double::of_int(n as int).saturated_i32() == n,
        Double::of_int(n as int).saturated_i64() == n,
        Double::of_int(n as int).ieee_equal(Double::of_int(n as int)),
{
    lemma_of_int(n as int);
}

} // verus!

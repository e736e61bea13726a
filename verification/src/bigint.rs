//! Arbitrary-precision signed integers.
//!
//! A `BigInt` holds its number as little-endian two's complement bytes, the
//! form in which `num_bigint` hands numbers out and takes them in. The
//! arithmetic itself is `num_bigint`'s: each operation here is stated over the
//! mathematical integer that the bytes denote.

use vstd::prelude::*;
use vstd::arithmetic::power2::*;
use vstd::std_specs::convert::FromSpecImpl;
use crate::number::Double;

verus! {

/// The natural number that little-endian bytes denote.
pub open spec fn unsigned_le(bytes: Seq<u8>) -> nat
    decreases bytes.len(),
{
    if bytes.len() == 0 {
        0
    } else {
        bytes[0] as nat + 256 * unsigned_le(bytes.drop_first())
    }
}

/// 256 to the power `n`.
pub open spec fn byte_weight(n: nat) -> nat
    decreases n,
{
    if n == 0 {
        1
    } else {
        256 * byte_weight((n - 1) as nat)
    }
}

/// The integer that little-endian two's complement bytes denote: no bytes
/// denote 0, and a top byte of 128 or more marks a negative number.
pub open spec fn signed_le(bytes: Seq<u8>) -> int {
    if bytes.len() > 0 && bytes.last() >= 128 {
        unsigned_le(bytes) - byte_weight(bytes.len())
    } else {
        unsigned_le(bytes) as int
    }
}

/// `a` divided by `b` with the quotient rounded toward zero.
pub open spec fn truncated_quotient(a: int, b: int) -> int {
    if a >= 0 && b > 0 {
        a / b
    } else if a >= 0 {
        -(a / (-b))
    } else if b > 0 {
        -((-a) / b)
    } else {
        (-a) / (-b)
    }
}

/// What is left of `a` after `truncated_quotient(a, b)` times `b`; it has the
/// sign of `a`.
pub open spec fn truncated_remainder(a: int, b: int) -> int {
    a - b * truncated_quotient(a, b)
}

/// Bitwise AND of two integers in two's complement of unbounded width.
pub open spec fn int_and(a: int, b: int) -> int
    decreases
            (if a < 0 {
                -a
            } else {
                a
            }) + (if b < 0 {
                -b
            } else {
                b
            }),
{
    if a == 0 || b == 0 {
        0
    } else if a == -1 {
        b
    } else if b == -1 {
        a
    } else {
        2 * int_and(a / 2, b / 2) + (if a % 2 == 1 && b % 2 == 1 {
            1int
        } else {
            0int
        })
    }
}

/// Bitwise OR of two integers in two's complement of unbounded width.
pub open spec fn int_or(a: int, b: int) -> int
    decreases
            (if a < 0 {
                -a
            } else {
                a
            }) + (if b < 0 {
                -b
            } else {
                b
            }),
{
    if a == 0 {
        b
    } else if b == 0 {
        a
    } else if a == -1 || b == -1 {
        -1
    } else {
        2 * int_or(a / 2, b / 2) + (if a % 2 == 1 || b % 2 == 1 {
            1int
        } else {
            0int
        })
    }
}

/// Bitwise XOR of two integers in two's complement of unbounded width.
pub open spec fn int_xor(a: int, b: int) -> int
    decreases
            (if a < 0 {
                -a
            } else {
                a
            }) + (if b < 0 {
                -b
            } else {
                b
            }),
{
    if a == 0 {
        b
    } else if b == 0 {
        a
    } else if a == -1 {
        -1 - b
    } else if b == -1 {
        -1 - a
    } else {
        2 * int_xor(a / 2, b / 2) + (if (a % 2 == 1) != (b % 2 == 1) {
            1int
        } else {
            0int
        })
    }
}

/// The decimal digits of a natural number, most significant first.
pub open spec fn decimal_digits(n: nat) -> Seq<char>
    decreases n,
{
    if n < 10 {
        seq![(48 + n) as u8 as char]
    } else {
        decimal_digits(n / 10).push((48 + n % 10) as u8 as char)
    }
}

/// An integer written in decimal, with `-` before a negative one.
pub open spec fn decimal_text(n: int) -> Seq<char> {
    if n < 0 {
        seq!['-'] + decimal_digits((-n) as nat)
    } else {
        decimal_digits(n as nat)
    }
}

/// The integer that `num_bigint` reads from `text` in the given radix, or
/// `None` where it reads none.
pub uninterp spec fn parsed_integer(text: Seq<char>, radix: u32) -> Option<int>;

/// An arbitrary-precision signed integer.
#[derive(Debug, PartialEq, Eq)]
pub struct BigInt {
    bytes: Vec<u8>,
}

impl View for BigInt {
    type V = int;

    closed spec fn view(&self) -> int {
        signed_le(self.bytes@)
    }
}

impl Clone for BigInt {
    fn clone(&self) -> (r: Self)
        ensures
            r@ == self@,
    {
        let bytes = self.bytes.clone();
        assert(bytes@ =~= self.bytes@);
        BigInt { bytes }
    }
}

impl From<i64> for BigInt {
    fn from(n: i64) -> (r: BigInt)
        ensures
            r@ == n,
    {
        big_from_i64(n)
    }
}

impl FromSpecImpl<i64> for BigInt {
    open spec fn obeys_from_spec() -> bool {
        false
    }

    open spec fn from_spec(n: i64) -> BigInt {
        arbitrary()
    }
}

/// `num_bigint::BigInt::from` on an `i64`: the big integer with that value.
#[verifier::external_body]
fn big_from_i64(n: i64) -> (r: BigInt)
    ensures
        r@ == n,
{
    BigInt { bytes: num_bigint::BigInt::from(n).to_signed_bytes_le() }
}

/// `num_bigint::BigInt::parse_bytes`: reads an integer from text in a radix
/// from 2 to 36 (it panics on another radix). What it accepts, and which
/// integer it reads, is `parsed_integer`.
#[verifier::external_body]
fn big_parse(text: &str, radix: u32) -> (r: Option<BigInt>)
    requires
        2 <= radix <= 36,
    ensures
        match r {
            Some(b) => parsed_integer(text@, radix) == Some(b@),
            None => parsed_integer(text@, radix).is_none(),
        },
{
    match num_bigint::BigInt::parse_bytes(text.as_bytes(), radix) {
        Some(n) => Some(BigInt { bytes: n.to_signed_bytes_le() }),
        None => None,
    }
}

/// `+` of `num_bigint::BigInt`: the sum.
#[verifier::external_body]
fn big_add(a: &BigInt, b: &BigInt) -> (r: BigInt)
    ensures
        r@ == a@ + b@,
{
    let x = num_bigint::BigInt::from_signed_bytes_le(&a.bytes);
    let y = num_bigint::BigInt::from_signed_bytes_le(&b.bytes);
    BigInt { bytes: (x + y).to_signed_bytes_le() }
}

/// `-` of `num_bigint::BigInt`: the difference.
#[verifier::external_body]
fn big_sub(a: &BigInt, b: &BigInt) -> (r: BigInt)
    ensures
        r@ == a@ - b@,
{
    let x = num_bigint::BigInt::from_signed_bytes_le(&a.bytes);
    let y = num_bigint::BigInt::from_signed_bytes_le(&b.bytes);
    BigInt { bytes: (x - y).to_signed_bytes_le() }
}

/// `*` of `num_bigint::BigInt`: the product.
#[verifier::external_body]
fn big_mul(a: &BigInt, b: &BigInt) -> (r: BigInt)
    ensures
        r@ == a@ * b@,
{
    let x = num_bigint::BigInt::from_signed_bytes_le(&a.bytes);
    let y = num_bigint::BigInt::from_signed_bytes_le(&b.bytes);
    BigInt { bytes: (x * y).to_signed_bytes_le() }
}

/// `/` of `num_bigint::BigInt`: the quotient rounded toward zero. It panics
/// on a zero divisor.
#[verifier::external_body]
fn big_div(a: &BigInt, b: &BigInt) -> (r: BigInt)
    requires
        b@ != 0,
    ensures
        r@ == truncated_quotient(a@, b@),
{
    let x = num_bigint::BigInt::from_signed_bytes_le(&a.bytes);
    let y = num_bigint::BigInt::from_signed_bytes_le(&b.bytes);
    BigInt { bytes: (x / y).to_signed_bytes_le() }
}

/// `%` of `num_bigint::BigInt`: the remainder of the division rounded toward
/// zero. It panics on a zero divisor.
#[verifier::external_body]
fn big_rem(a: &BigInt, b: &BigInt) -> (r: BigInt)
    requires
        b@ != 0,
    ensures
        r@ == truncated_remainder(a@, b@),
{
    let x = num_bigint::BigInt::from_signed_bytes_le(&a.bytes);
    let y = num_bigint::BigInt::from_signed_bytes_le(&b.bytes);
    BigInt { bytes: (x % y).to_signed_bytes_le() }
}

/// `&` of `num_bigint::BigInt`: bitwise AND in two's complement.
#[verifier::external_body]
fn big_and(a: &BigInt, b: &BigInt) -> (r: BigInt)
    ensures
        r@ == int_and(a@, b@),
{
    let x = num_bigint::BigInt::from_signed_bytes_le(&a.bytes);
    let y = num_bigint::BigInt::from_signed_bytes_le(&b.bytes);
    BigInt { bytes: (x & y).to_signed_bytes_le() }
}

/// `|` of `num_bigint::BigInt`: bitwise OR in two's complement.
#[verifier::external_body]
fn big_or(a: &BigInt, b: &BigInt) -> (r: BigInt)
    ensures
        r@ == int_or(a@, b@),
{
    let x = num_bigint::BigInt::from_signed_bytes_le(&a.bytes);
    let y = num_bigint::BigInt::from_signed_bytes_le(&b.bytes);
    BigInt { bytes: (x | y).to_signed_bytes_le() }
}

/// `^` of `num_bigint::BigInt`: bitwise XOR in two's complement.
#[verifier::external_body]
fn big_xor(a: &BigInt, b: &BigInt) -> (r: BigInt)
    ensures
        r@ == int_xor(a@, b@),
{
    let x = num_bigint::BigInt::from_signed_bytes_le(&a.bytes);
    let y = num_bigint::BigInt::from_signed_bytes_le(&b.bytes);
    BigInt { bytes: (x ^ y).to_signed_bytes_le() }
}

/// `<<` of `num_bigint::BigInt` by a `u32`: the number times two to the
/// power of the count.
#[verifier::external_body]
fn big_shl(a: &BigInt, count: u32) -> (r: BigInt)
    ensures
        r@ == a@ * pow2(count as nat),
{
    let x = num_bigint::BigInt::from_signed_bytes_le(&a.bytes);
    BigInt { bytes: (x << count).to_signed_bytes_le() }
}

/// `>>` of `num_bigint::BigInt` by a `u32`: the number divided by two to the
/// power of the count, rounded toward negative infinity.
#[verifier::external_body]
fn big_shr(a: &BigInt, count: u32) -> (r: BigInt)
    ensures
        r@ == a@ / (pow2(count as nat) as int),
{
    let x = num_bigint::BigInt::from_signed_bytes_le(&a.bytes);
    BigInt { bytes: (x >> count).to_signed_bytes_le() }
}

/// Unary `-` of `num_bigint::BigInt`: the number with its sign changed.
#[verifier::external_body]
fn big_neg(a: &BigInt) -> (r: BigInt)
    ensures
        r@ == -a@,
{
    let x = num_bigint::BigInt::from_signed_bytes_le(&a.bytes);
    BigInt { bytes: (-x).to_signed_bytes_le() }
}

/// `==` of `num_bigint::BigInt`: whether the two numbers are equal.
#[verifier::external_body]
fn big_eq(a: &BigInt, b: &BigInt) -> (r: bool)
    ensures
        r == (a@ == b@),
{
    let x = num_bigint::BigInt::from_signed_bytes_le(&a.bytes);
    let y = num_bigint::BigInt::from_signed_bytes_le(&b.bytes);
    x == y
}

/// `num_traits::ToPrimitive::to_i32` on a `num_bigint::BigInt`: the number as
/// an `i32` where it fits in one, and `None` where it does not.
#[verifier::external_body]
fn big_to_i32(a: &BigInt) -> (r: Option<i32>)
    ensures
        r == if i32::MIN <= a@ <= i32::MAX {
            Some(a@ as i32)
        } else {
            None
        },
{
    let x = num_bigint::BigInt::from_signed_bytes_le(&a.bytes);
    num_traits::ToPrimitive::to_i32(&x)
}

/// `to_string` of `num_bigint::BigInt`: the number in decimal, with `-`
/// before a negative one.
#[verifier::external_body]
fn big_to_string(a: &BigInt) -> (r: String)
    ensures
        r@ == decimal_text(a@),
{
    num_bigint::BigInt::from_signed_bytes_le(&a.bytes).to_string()
}

/// The magnitude of a shift count that is not positive.
fn count_magnitude(n: i32) -> (r: u32)
    requires
        n <= 0,
    ensures
        r == -n,
{
    (-(n as i64)) as u32
}

impl BigInt {
    /// Whether `other`, taken as a shift count, fits in 32 bits with a sign.
    pub open spec fn is_shift_count(other: BigInt) -> bool {
        i32::MIN <= other@ <= i32::MAX
    }

    /// `a >> n`: the floor of `a / 2^n` for a positive count, and `a * 2^-n`
    /// for another.
    pub open spec fn shifted_right(a: int, n: int) -> int {
        if n > 0 {
            a / (pow2(n as nat) as int)
        } else {
            a * pow2((-n) as nat)
        }
    }

    /// `a << n`: `a * 2^n` for a positive count, and the floor of
    /// `a / 2^-n` for another.
    pub open spec fn shifted_left(a: int, n: int) -> int {
        if n > 0 {
            a * pow2(n as nat)
        } else {
            a / (pow2((-n) as nat) as int)
        }
    }

    /// The big integer that little-endian two's complement bytes denote. It
    /// is held in as few bytes as the number takes.
    pub fn from_signed_bytes_le(bytes: Vec<u8>) -> (r: BigInt)
        ensures
            r@ == signed_le(bytes@),
    {
        let given = BigInt { bytes };
        let zero = big_from_i64(0);
        big_add(&given, &zero)
    }

    /// The integer as little-endian two's complement bytes.
    pub fn to_signed_bytes_le(&self) -> (r: Vec<u8>)
        ensures
            signed_le(r@) == self@,
    {
        let bytes = self.bytes.clone();
        assert(bytes@ =~= self.bytes@);
        bytes
    }

    /// The big integer with the value of `n`.
    pub fn from_i64(n: i64) -> (r: BigInt)
        ensures
            r@ == n,
    {
        big_from_i64(n)
    }

    /// Reads a big integer from digits in a radix from 2 to 36. Text that is
    /// no number in that radix yields no value.
    pub fn from_str_radix(buf: &str, radix: u32) -> (r: Option<BigInt>)
        requires
            2 <= radix <= 36,
        ensures
            match r {
                Some(b) => parsed_integer(buf@, radix) == Some(b@),
                None => parsed_integer(buf@, radix).is_none(),
            },
    {
        big_parse(buf, radix)
    }

    /// The sum.
    pub fn add(&self, other: &BigInt) -> (r: BigInt)
        ensures
            r@ == self@ + other@,
    {
        big_add(self, other)
    }

    /// The difference.
    pub fn sub(&self, other: &BigInt) -> (r: BigInt)
        ensures
            r@ == self@ - other@,
    {
        big_sub(self, other)
    }

    /// The product.
    pub fn mul(&self, other: &BigInt) -> (r: BigInt)
        ensures
            r@ == self@ * other@,
    {
        big_mul(self, other)
    }

    /// The quotient rounded toward zero, or `None` for a zero divisor.
    pub fn checked_div(&self, other: &BigInt) -> (r: Option<BigInt>)
        ensures
            other@ == 0 ==> r.is_none(),
            other@ != 0 ==> r.is_some() && r.unwrap()@ == truncated_quotient(self@, other@),
    {
        if other.is_zero() {
            None
        } else {
            Some(big_div(self, other))
        }
    }

    /// The quotient rounded toward zero.
    pub fn div(&self, other: &BigInt) -> (r: BigInt)
        requires
            other@ != 0,
        ensures
            r@ == truncated_quotient(self@, other@),
    {
        big_div(self, other)
    }

    /// The remainder of the division rounded toward zero, or `None` for a
    /// zero divisor.
    pub fn checked_rem(&self, other: &BigInt) -> (r: Option<BigInt>)
        ensures
            other@ == 0 ==> r.is_none(),
            other@ != 0 ==> r.is_some() && r.unwrap()@ == truncated_remainder(self@, other@),
    {
        if other.is_zero() {
            None
        } else {
            Some(big_rem(self, other))
        }
    }

    /// The remainder of the division rounded toward zero.
    pub fn rem(&self, other: &BigInt) -> (r: BigInt)
        requires
            other@ != 0,
        ensures
            r@ == truncated_remainder(self@, other@),
    {
        big_rem(self, other)
    }

    /// Bitwise AND in two's complement.
    pub fn bitand(&self, other: &BigInt) -> (r: BigInt)
        ensures
            r@ == int_and(self@, other@),
    {
        big_and(self, other)
    }

    /// Bitwise OR in two's complement.
    pub fn bitor(&self, other: &BigInt) -> (r: BigInt)
        ensures
            r@ == int_or(self@, other@),
    {
        big_or(self, other)
    }

    /// Bitwise XOR in two's complement.
    pub fn bitxor(&self, other: &BigInt) -> (r: BigInt)
        ensures
            r@ == int_xor(self@, other@),
    {
        big_xor(self, other)
    }

    /// Shifts right by `other`; a negative count shifts left by its
    /// magnitude. `None` where the count does not fit in 32 bits with a sign.
    pub fn checked_shr(&self, other: &BigInt) -> (r: Option<BigInt>)
        ensures
            !BigInt::is_shift_count(*other) ==> r.is_none(),
            BigInt::is_shift_count(*other) ==> r.is_some() && r.unwrap()@ == BigInt::shifted_right(
                self@,
                other@,
            ),
    {
        match big_to_i32(other) {
            Some(n) => {
                if n > 0 {
                    Some(big_shr(self, n as u32))
                } else {
                    Some(big_shl(self, count_magnitude(n)))
                }
            },
            None => None,
        }
    }

    /// Shifts right by `other`; a negative count shifts left by its
    /// magnitude.
    pub fn shr(&self, other: &BigInt) -> (r: BigInt)
        requires
            BigInt::is_shift_count(*other),
        ensures
            r@ == BigInt::shifted_right(self@, other@),
    {
        match self.checked_shr(other) {
            Some(shifted) => shifted,
            None => self.clone(),
        }
    }

    /// Shifts left by `other`; a negative count shifts right by its
    /// magnitude. `None` where the count does not fit in 32 bits with a sign.
    pub fn checked_shl(&self, other: &BigInt) -> (r: Option<BigInt>)
        ensures
            !BigInt::is_shift_count(*other) ==> r.is_none(),
            BigInt::is_shift_count(*other) ==> r.is_some() && r.unwrap()@ == BigInt::shifted_left(
                self@,
                other@,
            ),
    {
        match big_to_i32(other) {
            Some(n) => {
                if n > 0 {
                    Some(big_shl(self, n as u32))
                } else {
                    Some(big_shr(self, count_magnitude(n)))
                }
            },
            None => None,
        }
    }

    /// Shifts left by `other`; a negative count shifts right by its
    /// magnitude.
    pub fn shl(&self, other: &BigInt) -> (r: BigInt)
        requires
            BigInt::is_shift_count(*other),
        ensures
            r@ == BigInt::shifted_left(self@, other@),
    {
        match self.checked_shl(other) {
            Some(shifted) => shifted,
            None => self.clone(),
        }
    }

    /// The integer with its sign changed.
    pub fn neg(&self) -> (r: BigInt)
        ensures
            r@ == -self@,
    {
        big_neg(self)
    }

    /// Whether the two integers are equal.
    pub fn equals(&self, other: &BigInt) -> (r: bool)
        ensures
            r == (self@ == other@),
    {
        big_eq(self, other)
    }

    /// Whether the integer is 0.
    pub fn is_zero(&self) -> (r: bool)
        ensures
            r == (self@ == 0),
    {
        let zero = big_from_i64(0);
        big_eq(self, &zero)
    }

    /// Whether the integer equals a 32-bit one.
    pub fn eq_i32(&self, other: i32) -> (r: bool)
        ensures
            r == (self@ == other),
    {
        let wide = big_from_i64(other as i64);
        big_eq(self, &wide)
    }

    /// Whether the integer equals a double that is first truncated toward
    /// zero to a 64-bit integer (not rounded).
    pub fn eq_double(&self, other: &Double) -> (r: bool)
        ensures
            r == (self@ == other.saturated_i64()),
    {
        let wide = big_from_i64(other.to_i64());
        big_eq(self, &wide)
    }

    /// The integer as a 32-bit one, where it fits.
    pub fn to_i32(&self) -> (r: Option<i32>)
        ensures
            r == if i32::MIN <= self@ <= i32::MAX {
                Some(self@ as i32)
            } else {
                None
            },
    {
        big_to_i32(self)
    }

    /// The integer in decimal.
    pub fn to_decimal(&self) -> (r: String)
        ensures
            r@ == decimal_text(self@),
    {
        big_to_string(self)
    }
}

/// The two shifts mirror each other: shifting right by a count is shifting
/// left by the opposite count.
pub proof fn lemma_shifts_mirror(a: int, n: int)
    requires
        n != 0,
    ensures
        BigInt::shifted_right(a, n) == BigInt::shifted_left(a, -n),
        BigInt::shifted_left(a, n) == BigInt::shifted_right(a, -n),
{
}

/// Shifting by 0 changes nothing.
pub proof fn lemma_shift_by_zero(a: int)
    ensures
        BigInt::shifted_right(a, 0) == a,
        BigInt::shifted_left(a, 0) == a,
{
    vstd::arithmetic::power2::lemma2_to64();
    assert(a * 1 == a);
    assert(a / 1 == a);
}

} // verus!

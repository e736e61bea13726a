//! Equality and the operators on values.

use vstd::prelude::*;
use crate::ast::op::{BitOp, NumOp};
use crate::bigint::{int_and, int_or, int_xor, truncated_quotient, truncated_remainder, BigInt};
use crate::number::Double;
use crate::pending::{Outcome, OutcomeView, Pending, PendingView};
use crate::value::{Content, Numeric, NumericView, Type, Value, ValueData};

verus! {

/// The comparison of two values that are of one type and no numbers:
/// undefined and null equal themselves, strings are compared by their
/// characters, big integers by their value, booleans by theirs, and objects
/// by the identity of the object. Symbols, and values of two types, are
/// never the same.
pub open spec fn same_non_number(x: Content, y: Content) -> bool {
    match (x, y) {
        (Content::Undefined, Content::Undefined) => true,
        (Content::Null, Content::Null) => true,
        (Content::String(a), Content::String(b)) => a == b,
        (Content::BigInt(a), Content::BigInt(b)) => a == b,
        (Content::Boolean(a), Content::Boolean(b)) => a == b,
        (Content::Object(a), Content::Object(b)) => a == b,
        _ => false,
    }
}

/// Strict equality (`===`): false between two types; IEEE-754 equality
/// between numbers, however they are held; `same_non_number` otherwise.
pub open spec fn strictly_equal(x: Content, y: Content) -> bool {
    x.kind() == y.kind() && if x.kind() == Type::Number {
        x.number().ieee_equal(y.number())
    } else {
        same_non_number(x, y)
    }
}

/// SameValue: as strict equality, but a NaN is the same as a NaN and the two
/// zeros differ.
pub open spec fn is_same_value(x: Content, y: Content) -> bool {
    x.kind() == y.kind() && if x.kind() == Type::Number {
        x.number().same_value(y.number())
    } else {
        same_non_number(x, y)
    }
}

/// SameValueZero: as SameValue, but the two zeros are the same.
pub open spec fn is_same_value_zero(x: Content, y: Content) -> bool {
    x.kind() == y.kind() && if x.kind() == Type::Number {
        x.number().same_value_zero(y.number())
    } else {
        same_non_number(x, y)
    }
}

/// What abstract equality (`==`) comes to.
#[derive(Debug, PartialEq)]
pub enum Equality {
    /// The answer.
    Decided(bool),
    /// The values are equal where the two numbers are, by IEEE-754 equality;
    /// one of them is still to be read from text.
    Numbers(Numeric, Numeric),
    /// The object is first to be made a primitive by the object model; the
    /// comparison then goes on between that primitive and `other`.
    Primitive { object: Value, other: Value },
}

/// `Equality`, as mathematics sees it.
pub enum EqualityView {
    Decided(bool),
    Numbers(NumericView, NumericView),
    Primitive { object: Content, other: Content },
}

impl View for Equality {
    type V = EqualityView;

    open spec fn view(&self) -> EqualityView {
        match *self {
            Equality::Decided(b) => EqualityView::Decided(b),
            Equality::Numbers(x, y) => EqualityView::Numbers(x@, y@),
            Equality::Primitive { object, other } => EqualityView::Primitive {
                object: object@,
                other: other@,
            },
        }
    }
}

/// A boolean as the integer it is compared as: 1 for `true`, 0 for `false`.
pub open spec fn boolean_as_integer(b: bool) -> Content {
    Content::Integer(
        if b {
            1
        } else {
            0
        },
    )
}

/// Abstract equality between two values neither of which is a boolean:
/// strict equality within one type; true between null and undefined; between
/// a number and a string, the equality of the numbers; between an object
/// and a primitive, a comparison still to be made; false otherwise.
pub open spec fn loosely_equal_unlike(x: Content, y: Content) -> EqualityView {
    if x.kind() == y.kind() {
        EqualityView::Decided(strictly_equal(x, y))
    } else if (x is Null || x is Undefined) && (y is Null || y is Undefined) {
        EqualityView::Decided(true)
    } else if (x.kind() == Type::Number && y.kind() == Type::String) || (x.kind() == Type::String
        && y.kind() == Type::Number) {
        EqualityView::Numbers(x.to_number(), y.to_number())
    } else if x.kind() == Type::Object {
        EqualityView::Primitive { object: x, other: y }
    } else if y.kind() == Type::Object {
        EqualityView::Primitive { object: y, other: x }
    } else {
        EqualityView::Decided(false)
    }
}

/// Abstract equality (`==`): strict equality within one type; otherwise a
/// boolean is taken as the integer 0 or 1 and the other rules apply.
pub open spec fn loosely_equal(x: Content, y: Content) -> EqualityView {
    if x.kind() == y.kind() {
        EqualityView::Decided(strictly_equal(x, y))
    } else {
        match (x, y) {
            (Content::Boolean(b), _) => loosely_equal_unlike(y, boolean_as_integer(b)),
            (_, Content::Boolean(b)) => loosely_equal_unlike(x, boolean_as_integer(b)),
            _ => loosely_equal_unlike(x, y),
        }
    }
}

/// The double of a value that is a number.
fn number_of(x: &Value) -> (r: Double)
    requires
        x@.kind() == Type::Number,
    ensures
        r == x@.number(),
{
    match x.data() {
        ValueData::Integer(n) => Double::from_i32(*n),
        ValueData::Rational(d) => *d,
        _ => Double::zero(),
    }
}

/// The comparison of two values of one type that are no numbers.
pub fn same_value_non_number(x: &Value, y: &Value) -> (r: bool)
    ensures
        r == same_non_number(x@, y@),
{
    match (x.data(), y.data()) {
        (ValueData::Undefined, ValueData::Undefined) => true,
        (ValueData::Null, ValueData::Null) => true,
        (ValueData::String(a), ValueData::String(b)) => a.eq(b),
        (ValueData::BigInt(a), ValueData::BigInt(b)) => a.equals(b),
        (ValueData::Boolean(a), ValueData::Boolean(b)) => *a == *b,
        (ValueData::Object(a), ValueData::Object(b)) => *a == *b,
        _ => false,
    }
}

/// SameValue. With `strict`, the question is instead whether the two values
/// are one cell: that can only be so where they hold the same, and it is not
/// so of two values that were built apart.
pub fn same_value(x: &Value, y: &Value, strict: bool) -> (r: bool)
    ensures
        !strict ==> r == is_same_value(x@, y@),
        strict && r ==> x@ == y@,
{
    if strict {
        return x.is_same_cell(y);
    }
    if x.kind() != y.kind() {
        return false;
    }
    if x.is_number() {
        return number_of(x).is_same_value(&number_of(y));
    }
    same_value_non_number(x, y)
}

/// SameValueZero.
pub fn same_value_zero(x: &Value, y: &Value) -> (r: bool)
    ensures
        r == is_same_value_zero(x@, y@),
{
    if x.kind() != y.kind() {
        return false;
    }
    if x.is_number() {
        return number_of(x).is_same_value_zero(&number_of(y));
    }
    same_value_non_number(x, y)
}

impl Value {
    /// Strict equality (`===`).
    pub fn strict_equals(&self, other: &Value) -> (r: bool)
        ensures
            r == strictly_equal(self@, other@),
    {
        if self.kind() != other.kind() {
            return false;
        }
        if self.is_number() {
            return number_of(self).equals(&number_of(other));
        }
        same_value_non_number(self, other)
    }

    /// Abstract equality between two values neither of which is a boolean.
    fn equals_unlike(&self, other: &Value) -> (r: Equality)
        ensures
            r@ == loosely_equal_unlike(self@, other@),
    {
        let mine = self.kind();
        let theirs = other.kind();
        if mine == theirs {
            Equality::Decided(self.strict_equals(other))
        } else if self.is_null_or_undefined() && other.is_null_or_undefined() {
            Equality::Decided(true)
        } else if (mine == Type::Number && theirs == Type::String) || (mine == Type::String
            && theirs == Type::Number) {
            Equality::Numbers(self.to_number(), other.to_number())
        } else if mine == Type::Object {
            Equality::Primitive { object: self.share(), other: other.share() }
        } else if theirs == Type::Object {
            Equality::Primitive { object: other.share(), other: self.share() }
        } else {
            Equality::Decided(false)
        }
    }

    /// Abstract equality (`==`). It is decided here but in two cases: a
    /// number against a string waits for the string's number, and an object
    /// against a primitive waits for the object's primitive, with which
    /// `equals` is then asked again.
    pub fn equals(&self, other: &Value) -> (r: Equality)
        ensures
            r@ == loosely_equal(self@, other@),
    {
        if self.kind() == other.kind() {
            return Equality::Decided(self.strict_equals(other));
        }
        match (self.data(), other.data()) {
            (ValueData::Boolean(b), _) => {
                let converted = Value::integer(
                    if *b {
                        1
                    } else {
                        0
                    },
                );
                other.equals_unlike(&converted)
            },
            (_, ValueData::Boolean(b)) => {
                let converted = Value::integer(
                    if *b {
                        1
                    } else {
                        0
                    },
                );
                self.equals_unlike(&converted)
            },
            _ => self.equals_unlike(other),
        }
    }
}

/// A number is strictly equal to itself unless it is a NaN, which is not.
pub proof fn lemma_strict_equality_of_a_number(x: Content)
    requires
        x.kind() == Type::Number,
    ensures
        strictly_equal(x, x) == !x.number().is_nan(),
        x matches Content::Integer(_) ==> strictly_equal(x, x),
{
    if let Content::Integer(n) = x {
        crate::number::lemma_of_int(n as int);
    }
}

/// Two objects are equal, abstractly and strictly, exactly when they are one
/// object: no primitive is asked for.
pub proof fn lemma_objects_compare_by_identity(a: u64, b: u64)
    ensures
        loosely_equal(Content::Object(a), Content::Object(b)) == EqualityView::Decided(a == b),
        strictly_equal(Content::Object(a), Content::Object(b)) == (a == b),
{
}

/// An object is made a primitive at most once for each side: where the
/// answer of the object model is no object, what is compared next holds an
/// object only where the other side is one, and a comparison between two
/// values that are no objects asks for no primitive.
pub proof fn lemma_primitive_is_compared_directly(primitive: Content, other: Content)
    requires
        !(primitive is Object),
        !(other is Object),
    ensures
        !(loosely_equal(primitive, other) is Primitive),
{
}

/// Abstract equality never compares a boolean as such: once a boolean has
/// been taken as an integer, what is compared holds no boolean on that side,
/// so the conversion is made at most once for each side.
pub proof fn lemma_boolean_is_converted_once(x: Content, b: bool)
    requires
        !(x is Boolean),
    ensures
        loosely_equal(Content::Boolean(b), x) == loosely_equal_unlike(x, boolean_as_integer(b)),
        loosely_equal(x, Content::Boolean(b)) == loosely_equal_unlike(x, boolean_as_integer(b)),
        !(boolean_as_integer(b) is Boolean),
{
}


/// Whether an arithmetic operator has a result on two values. It has none
/// only where a big integer is divided by the big integer 0.
pub open spec fn arithmetic_defined(op: NumOp, x: Content, y: Content) -> bool {
    match (op, x, y) {
        (NumOp::Div, Content::BigInt(_), Content::BigInt(b)) => b != 0,
        (NumOp::Mod, Content::BigInt(_), Content::BigInt(b)) => b != 0,
        _ => true,
    }
}

/// Whether a bitwise operator has a result on two values. It has none only
/// where a big integer is shifted by a big integer that does not fit in 32
/// bits with a sign.
pub open spec fn bitwise_defined(op: BitOp, x: Content, y: Content) -> bool {
    match (op, x, y) {
        (BitOp::And, _, _) => true,
        (BitOp::Or, _, _) => true,
        (BitOp::Xor, _, _) => true,
        (_, Content::BigInt(_), Content::BigInt(b)) => i32::MIN <= b <= i32::MAX,
        _ => true,
    }
}

/// What an arithmetic operator gives. `+` joins the texts of the operands
/// where either is a string. Otherwise, on two big integers every operator
/// but `**` is the big-integer one. In every other case the result is the
/// operator on the numbers of the operands, which is floating-point work.
pub open spec fn arithmetic(op: NumOp, x: Content, y: Content) -> OutcomeView {
    if op == NumOp::Add && (x is String || y is String) {
        PendingView::Concat(x.to_text(), y.to_text()).settled()
    } else {
        match (op, x, y) {
            (NumOp::Add, Content::BigInt(a), Content::BigInt(b)) => OutcomeView::Value(
                Content::BigInt(a + b),
            ),
            (NumOp::Sub, Content::BigInt(a), Content::BigInt(b)) => OutcomeView::Value(
                Content::BigInt(a - b),
            ),
            (NumOp::Mul, Content::BigInt(a), Content::BigInt(b)) => OutcomeView::Value(
                Content::BigInt(a * b),
            ),
            (NumOp::Div, Content::BigInt(a), Content::BigInt(b)) => OutcomeView::Value(
                Content::BigInt(truncated_quotient(a, b)),
            ),
            (NumOp::Mod, Content::BigInt(a), Content::BigInt(b)) => OutcomeView::Value(
                Content::BigInt(truncated_remainder(a, b)),
            ),
            _ => OutcomeView::Pending(PendingView::Arithmetic(op, x.to_number(), y.to_number())),
        }
    }
}

/// What a bitwise operator gives: on two big integers the big-integer
/// operator, where a shift by a negative count is the opposite shift by its
/// magnitude; in every other case the operator on the numbers of the
/// operands truncated to 32 bits.
pub open spec fn bitwise(op: BitOp, x: Content, y: Content) -> OutcomeView {
    match (x, y) {
        (Content::BigInt(a), Content::BigInt(b)) => OutcomeView::Value(
            Content::BigInt(
                match op {
                    BitOp::And => int_and(a, b),
                    BitOp::Or => int_or(a, b),
                    BitOp::Xor => int_xor(a, b),
                    BitOp::Shl => BigInt::shifted_left(a, b),
                    BitOp::Shr => BigInt::shifted_right(a, b),
                    BitOp::UShr => BigInt::shifted_right(a, b),
                },
            ),
        ),
        _ => PendingView::Bitwise(op, x.to_number(), y.to_number()).settled(),
    }
}

/// What unary minus gives: NaN for an object, a symbol and undefined; the
/// negated reading of a string; the negated number, as a double, for a
/// number; the integer 1 for `true` and 0 for `false` and null, which are
/// not negated; the negated big integer.
pub open spec fn negation(x: Content) -> OutcomeView {
    match x {
        Content::Object(_) => OutcomeView::Value(
            Content::Rational(Double { bits: crate::number::NAN_BITS }),
        ),
        Content::Symbol(_) => OutcomeView::Value(
            Content::Rational(Double { bits: crate::number::NAN_BITS }),
        ),
        Content::Undefined => OutcomeView::Value(
            Content::Rational(Double { bits: crate::number::NAN_BITS }),
        ),
        Content::String(s) => OutcomeView::Pending(PendingView::Negate(NumericView::Text(s))),
        Content::Rational(d) => OutcomeView::Value(Content::Rational(d.negated())),
        Content::Integer(n) => OutcomeView::Value(
            Content::Rational(Double::of_int(n as int).negated()),
        ),
        Content::Boolean(true) => OutcomeView::Value(Content::Integer(1)),
        Content::Boolean(false) => OutcomeView::Value(Content::Integer(0)),
        Content::Null => OutcomeView::Value(Content::Integer(0)),
        Content::BigInt(n) => OutcomeView::Value(Content::BigInt(-n)),
    }
}

/// Applies an arithmetic operator.
pub fn apply_arithmetic(op: NumOp, x: &Value, y: &Value) -> (r: Outcome)
    requires
        arithmetic_defined(op, x@, y@),
    ensures
        r@ == arithmetic(op, x@, y@),
{
    match (op, x.data(), y.data()) {
        (NumOp::Add, ValueData::String(_), _) => Pending::Concat(x.to_text(), y.to_text()).settle(),
        (NumOp::Add, _, ValueData::String(_)) => Pending::Concat(x.to_text(), y.to_text()).settle(),
        (NumOp::Add, ValueData::BigInt(a), ValueData::BigInt(b)) => Outcome::Value(
            Value::bigint(a.add(b)),
        ),
        (NumOp::Sub, ValueData::BigInt(a), ValueData::BigInt(b)) => Outcome::Value(
            Value::bigint(a.sub(b)),
        ),
        (NumOp::Mul, ValueData::BigInt(a), ValueData::BigInt(b)) => Outcome::Value(
            Value::bigint(a.mul(b)),
        ),
        (NumOp::Div, ValueData::BigInt(a), ValueData::BigInt(b)) => Outcome::Value(
            Value::bigint(a.div(b)),
        ),
        (NumOp::Mod, ValueData::BigInt(a), ValueData::BigInt(b)) => Outcome::Value(
            Value::bigint(a.rem(b)),
        ),
        _ => Outcome::Pending(Pending::Arithmetic(op, x.to_number(), y.to_number())),
    }
}

/// Whether an arithmetic operator has a result on the two values.
pub fn is_arithmetic_defined(op: NumOp, x: &Value, y: &Value) -> (r: bool)
    ensures
        r == arithmetic_defined(op, x@, y@),
{
    match (op, x.data(), y.data()) {
        (NumOp::Div, ValueData::BigInt(_), ValueData::BigInt(b)) => !b.is_zero(),
        (NumOp::Mod, ValueData::BigInt(_), ValueData::BigInt(b)) => !b.is_zero(),
        _ => true,
    }
}

/// Applies a bitwise operator.
pub fn apply_bitwise(op: BitOp, x: &Value, y: &Value) -> (r: Outcome)
    requires
        bitwise_defined(op, x@, y@),
    ensures
        r@ == bitwise(op, x@, y@),
{
    match (x.data(), y.data()) {
        (ValueData::BigInt(a), ValueData::BigInt(b)) => Outcome::Value(
            Value::bigint(
                match op {
                    BitOp::And => a.bitand(b),
                    BitOp::Or => a.bitor(b),
                    BitOp::Xor => a.bitxor(b),
                    BitOp::Shl => a.shl(b),
                    BitOp::Shr => a.shr(b),
                    BitOp::UShr => a.shr(b),
                },
            ),
        ),
        _ => Pending::Bitwise(op, x.to_number(), y.to_number()).settle(),
    }
}

/// Whether a bitwise operator has a result on the two values.
pub fn is_bitwise_defined(op: BitOp, x: &Value, y: &Value) -> (r: bool)
    ensures
        r == bitwise_defined(op, x@, y@),
{
    match (op, x.data(), y.data()) {
        (BitOp::And, _, _) => true,
        (BitOp::Or, _, _) => true,
        (BitOp::Xor, _, _) => true,
        (_, ValueData::BigInt(_), ValueData::BigInt(b)) => b.to_i32().is_some(),
        _ => true,
    }
}

impl Value {
    /// `+`.
    pub fn add(&self, other: &Value) -> (r: Outcome)
        ensures
            r@ == arithmetic(NumOp::Add, self@, other@),
    {
        apply_arithmetic(NumOp::Add, self, other)
    }

    /// `-`.
    pub fn sub(&self, other: &Value) -> (r: Outcome)
        ensures
            r@ == arithmetic(NumOp::Sub, self@, other@),
    {
        apply_arithmetic(NumOp::Sub, self, other)
    }

    /// `*`.
    pub fn mul(&self, other: &Value) -> (r: Outcome)
        ensures
            r@ == arithmetic(NumOp::Mul, self@, other@),
    {
        apply_arithmetic(NumOp::Mul, self, other)
    }

    /// `/`. A big integer is not divided by the big integer 0.
    pub fn div(&self, other: &Value) -> (r: Outcome)
        requires
            arithmetic_defined(NumOp::Div, self@, other@),
        ensures
            r@ == arithmetic(NumOp::Div, self@, other@),
    {
        apply_arithmetic(NumOp::Div, self, other)
    }

    /// `%`. A big integer is not divided by the big integer 0.
    pub fn rem(&self, other: &Value) -> (r: Outcome)
        requires
            arithmetic_defined(NumOp::Mod, self@, other@),
        ensures
            r@ == arithmetic(NumOp::Mod, self@, other@),
    {
        apply_arithmetic(NumOp::Mod, self, other)
    }

    /// `**`: always the power of the two numbers.
    pub fn as_num_to_power(&self, other: &Value) -> (r: Outcome)
        ensures
            r@ == arithmetic(NumOp::Exp, self@, other@),
    {
        apply_arithmetic(NumOp::Exp, self, other)
    }

    /// `&`.
    pub fn bitand(&self, other: &Value) -> (r: Outcome)
        ensures
            r@ == bitwise(BitOp::And, self@, other@),
    {
        apply_bitwise(BitOp::And, self, other)
    }

    /// `|`.
    pub fn bitor(&self, other: &Value) -> (r: Outcome)
        ensures
            r@ == bitwise(BitOp::Or, self@, other@),
    {
        apply_bitwise(BitOp::Or, self, other)
    }

    /// `^`.
    pub fn bitxor(&self, other: &Value) -> (r: Outcome)
        ensures
            r@ == bitwise(BitOp::Xor, self@, other@),
    {
        apply_bitwise(BitOp::Xor, self, other)
    }

    /// `<<`. A big integer is shifted only by a count that fits in 32 bits
    /// with a sign.
    pub fn shl(&self, other: &Value) -> (r: Outcome)
        requires
            bitwise_defined(BitOp::Shl, self@, other@),
        ensures
            r@ == bitwise(BitOp::Shl, self@, other@),
    {
        apply_bitwise(BitOp::Shl, self, other)
    }

    /// `>>`. A big integer is shifted only by a count that fits in 32 bits
    /// with a sign.
    pub fn shr(&self, other: &Value) -> (r: Outcome)
        requires
            bitwise_defined(BitOp::Shr, self@, other@),
        ensures
            r@ == bitwise(BitOp::Shr, self@, other@),
    {
        apply_bitwise(BitOp::Shr, self, other)
    }

    /// Logical NOT: the negation of the truthiness.
    pub fn not(&self) -> (r: Value)
        ensures
            r@ == Content::Boolean(!self@.is_true()),
    {
        Value::boolean(!self.is_true())
    }

    /// Unary minus.
    pub fn neg(&self) -> (r: Outcome)
        ensures
            r@ == negation(self@),
    {
        match self.data() {
            ValueData::Object(_) => Outcome::Value(Value::rational(Double::nan())),
            ValueData::Symbol(_) => Outcome::Value(Value::rational(Double::nan())),
            ValueData::Undefined => Outcome::Value(Value::rational(Double::nan())),
            ValueData::String(s) => Outcome::Pending(Pending::Negate(Numeric::Text(s.clone()))),
            ValueData::Rational(d) => Outcome::Value(Value::rational(d.negate())),
            ValueData::Integer(n) => Outcome::Value(Value::rational(Double::from_i32(*n).negate())),
            ValueData::Boolean(true) => Outcome::Value(Value::integer(1)),
            ValueData::Boolean(false) => Outcome::Value(Value::integer(0)),
            ValueData::Null => Outcome::Value(Value::integer(0)),
            ValueData::BigInt(n) => Outcome::Value(Value::bigint(n.neg())),
        }
    }
}

} // verus!

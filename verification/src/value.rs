//! JavaScript values: the kinds, the type tag, truthiness and the conversions
//! that need no floating-point work.

use std::rc::Rc;
use vstd::prelude::*;
use crate::bigint::BigInt;
use crate::bigint::decimal_text;
use crate::number::Double;

verus! {

/// The kinds of value, which are the types of the language. The two number
/// representations share one kind.
#[derive(Clone, Copy, Debug, PartialEq, Eq, Structural)]
pub enum Type {
    Undefined,
    Null,
    Boolean,
    Number,
    String,
    BigInt,
    Object,
    Symbol,
}

/// What a value holds.
#[derive(Debug, PartialEq)]
pub enum ValueData {
    Undefined,
    Null,
    Boolean(bool),
    /// A number held as a 32-bit integer.
    Integer(i32),
    /// A number held as a double.
    Rational(Double),
    String(String),
    BigInt(BigInt),
    /// A reference to an object of the object model, by its handle.
    Object(u64),
    /// A symbol, by its handle.
    Symbol(u64),
}

/// What a value holds, as mathematics sees it.
pub enum Content {
    Undefined,
    Null,
    Boolean(bool),
    Integer(i32),
    Rational(Double),
    String(Seq<char>),
    BigInt(int),
    Object(u64),
    Symbol(u64),
}

impl View for ValueData {
    type V = Content;

    open spec fn view(&self) -> Content {
        match *self {
            ValueData::Undefined => Content::Undefined,
            ValueData::Null => Content::Null,
            ValueData::Boolean(b) => Content::Boolean(b),
            ValueData::Integer(n) => Content::Integer(n),
            ValueData::Rational(d) => Content::Rational(d),
            ValueData::String(s) => Content::String(s@),
            ValueData::BigInt(b) => Content::BigInt(b@),
            ValueData::Object(id) => Content::Object(id),
            ValueData::Symbol(id) => Content::Symbol(id),
        }
    }
}

/// A value: a shared, immutable cell. Copies of a value made with `share`
/// are the same cell; two values built apart are different cells even where
/// they hold the same. The derived `==` compares what two values hold,
/// doubles by their bits; the equalities of the language are in
/// `operations`.
#[derive(Debug, PartialEq)]
pub struct Value {
    cell: Rc<ValueData>,
}

impl View for Value {
    type V = Content;

    closed spec fn view(&self) -> Content {
        (*self.cell)@
    }
}

/// `Rc::clone`: another handle to the same cell, which holds what it held.
#[verifier::external_body]
fn share_cell(cell: &Rc<ValueData>) -> (r: Rc<ValueData>)
    ensures
        r == *cell,
{
    Rc::clone(cell)
}

/// `Rc::ptr_eq`: whether two handles are to one cell. Where they are, they
/// hold the same; where they are not, nothing follows.
#[verifier::external_body]
fn same_cell(a: &Rc<ValueData>, b: &Rc<ValueData>) -> (r: bool)
    ensures
        r ==> *a == *b,
{
    Rc::ptr_eq(a, b)
}

impl Content {
    /// The type of a value with this content.
    pub open spec fn kind(self) -> Type {
        match self {
            Content::Undefined => Type::Undefined,
            Content::Null => Type::Null,
            Content::Boolean(_) => Type::Boolean,
            Content::Integer(_) => Type::Number,
            Content::Rational(_) => Type::Number,
            Content::String(_) => Type::String,
            Content::BigInt(_) => Type::BigInt,
            Content::Object(_) => Type::Object,
            Content::Symbol(_) => Type::Symbol,
        }
    }

    /// Truthiness: false for undefined, null, `false`, a zero, a NaN, the
    /// empty string and the big integer 0; true for everything else.
    pub open spec fn is_true(self) -> bool {
        match self {
            Content::Undefined => false,
            Content::Null => false,
            Content::Boolean(b) => b,
            Content::Integer(n) => n != 0,
            Content::Rational(d) => !d.is_zero() && !d.is_nan(),
            Content::String(s) => s.len() > 0,
            Content::BigInt(n) => n != 0,
            Content::Object(_) => true,
            Content::Symbol(_) => true,
        }
    }

    /// The double of a number, whichever way it is held.
    pub open spec fn number(self) -> Double
        recommends
            self.kind() == Type::Number,
    {
        match self {
            Content::Integer(n) => Double::of_int(n as int),
            Content::Rational(d) => d,
            _ => Double { bits: 0 },
        }
    }
}

impl Type {
    /// The tag of the type: its name in lower case.
    pub open spec fn name(self) -> Seq<char> {
        match self {
            Type::Undefined => "undefined"@,
            Type::Null => "null"@,
            Type::Boolean => "boolean"@,
            Type::Number => "number"@,
            Type::String => "string"@,
            Type::BigInt => "bigint"@,
            Type::Object => "object"@,
            Type::Symbol => "symbol"@,
        }
    }

    /// The tag of the type.
    pub fn as_str(&self) -> (r: &'static str)
        ensures
            r@ == self.name(),
    {
        match self {
            Type::Undefined => "undefined",
            Type::Null => "null",
            Type::Boolean => "boolean",
            Type::Number => "number",
            Type::String => "string",
            Type::BigInt => "bigint",
            Type::Object => "object",
            Type::Symbol => "symbol",
        }
    }
}

impl Value {
    fn new(data: ValueData) -> (r: Value)
        ensures
            r@ == data@,
    {
        Value { cell: Rc::new(data) }
    }

    /// The value undefined.
    pub fn undefined() -> (r: Value)
        ensures
            r@ == Content::Undefined,
    {
        Value::new(ValueData::Undefined)
    }

    /// The value null.
    pub fn null() -> (r: Value)
        ensures
            r@ == Content::Null,
    {
        Value::new(ValueData::Null)
    }

    /// A boolean.
    pub fn boolean(b: bool) -> (r: Value)
        ensures
            r@ == Content::Boolean(b),
    {
        Value::new(ValueData::Boolean(b))
    }

    /// A number held as a 32-bit integer.
    pub fn integer(n: i32) -> (r: Value)
        ensures
            r@ == Content::Integer(n),
    {
        Value::new(ValueData::Integer(n))
    }

    /// A number held as a double.
    pub fn rational(d: Double) -> (r: Value)
        ensures
            r@ == Content::Rational(d),
    {
        Value::new(ValueData::Rational(d))
    }

    /// A string.
    pub fn string(s: String) -> (r: Value)
        ensures
            r@ == Content::String(s@),
    {
        Value::new(ValueData::String(s))
    }

    /// A big integer.
    pub fn bigint(b: BigInt) -> (r: Value)
        ensures
            r@ == Content::BigInt(b@),
    {
        Value::new(ValueData::BigInt(b))
    }

    /// A reference to the object with the given handle.
    pub fn object(handle: u64) -> (r: Value)
        ensures
            r@ == Content::Object(handle),
    {
        Value::new(ValueData::Object(handle))
    }

    /// The symbol with the given handle.
    pub fn symbol(handle: u64) -> (r: Value)
        ensures
            r@ == Content::Symbol(handle),
    {
        Value::new(ValueData::Symbol(handle))
    }

    /// What the value holds.
    pub fn data(&self) -> (r: &ValueData)
        ensures
            r@ == self@,
    {
        &*self.cell
    }

    /// Another handle to this value: the same cell.
    pub fn share(&self) -> (r: Value)
        ensures
            r@ == self@,
    {
        Value { cell: share_cell(&self.cell) }
    }

    /// Whether the two values are one cell. Values that are one cell hold
    /// the same; of values that are not, nothing follows.
    pub fn is_same_cell(&self, other: &Value) -> (r: bool)
        ensures
            r ==> self@ == other@,
    {
        same_cell(&self.cell, &other.cell)
    }

    /// The type of the value.
    pub fn kind(&self) -> (r: Type)
        ensures
            r == self@.kind(),
    {
        match self.data() {
            ValueData::Undefined => Type::Undefined,
            ValueData::Null => Type::Null,
            ValueData::Boolean(_) => Type::Boolean,
            ValueData::Integer(_) => Type::Number,
            ValueData::Rational(_) => Type::Number,
            ValueData::String(_) => Type::String,
            ValueData::BigInt(_) => Type::BigInt,
            ValueData::Object(_) => Type::Object,
            ValueData::Symbol(_) => Type::Symbol,
        }
    }

    /// The type tag of the value: one of "undefined", "null", "boolean",
    /// "number", "string", "bigint", "object" and "symbol".
    pub fn get_type(&self) -> (r: &'static str)
        ensures
            r@ == self@.kind().name(),
    {
        self.kind().as_str()
    }

    /// Whether the value is a number, however it is held.
    pub fn is_number(&self) -> (r: bool)
        ensures
            r == (self@.kind() == Type::Number),
    {
        self.kind() == Type::Number
    }

    /// Whether the value is a reference to an object.
    pub fn is_object(&self) -> (r: bool)
        ensures
            r == (self@.kind() == Type::Object),
    {
        self.kind() == Type::Object
    }

    /// Whether the value is null or undefined.
    pub fn is_null_or_undefined(&self) -> (r: bool)
        ensures
            r == (self@ == Content::Null || self@ == Content::Undefined),
    {
        match self.data() {
            ValueData::Undefined => true,
            ValueData::Null => true,
            _ => false,
        }
    }

    /// Truthiness.
    pub fn is_true(&self) -> (r: bool)
        ensures
            r == self@.is_true(),
    {
        match self.data() {
            ValueData::Undefined => false,
            ValueData::Null => false,
            ValueData::Boolean(b) => *b,
            ValueData::Integer(n) => *n != 0,
            ValueData::Rational(d) => d.is_truthy(),
            ValueData::String(s) => s.as_str().unicode_len() > 0,
            ValueData::BigInt(n) => !n.is_zero(),
            ValueData::Object(_) => true,
            ValueData::Symbol(_) => true,
        }
    }
}


/// What is known of the number of a value without floating-point work.
#[derive(Debug, PartialEq)]
pub enum Numeric {
    /// The number itself.
    Known(Double),
    /// Text still to be read as a number.
    Text(String),
    /// A big integer still to be rounded to a double.
    Big(BigInt),
}

/// `Numeric`, as mathematics sees it.
pub enum NumericView {
    Known(Double),
    Text(Seq<char>),
    Big(int),
}

impl View for Numeric {
    type V = NumericView;

    open spec fn view(&self) -> NumericView {
        match *self {
            Numeric::Known(d) => NumericView::Known(d),
            Numeric::Text(s) => NumericView::Text(s@),
            Numeric::Big(b) => NumericView::Big(b@),
        }
    }
}

/// What is known of the text of a value without floating-point work.
#[derive(Debug, PartialEq)]
pub enum Text {
    /// The text itself.
    Known(String),
    /// A double still to be written out.
    Number(Double),
}

/// `Text`, as mathematics sees it.
pub enum TextView {
    Known(Seq<char>),
    Number(Double),
}

impl View for Text {
    type V = TextView;

    open spec fn view(&self) -> TextView {
        match *self {
            Text::Known(s) => TextView::Known(s@),
            Text::Number(d) => TextView::Number(d),
        }
    }
}

impl Content {
    /// The conversion of a value to a number, as far as it goes without
    /// floating-point work: undefined, objects and symbols are NaN; null and
    /// `false` are 0 and `true` is 1; a number is itself; a string and a big
    /// integer are left to be converted.
    pub open spec fn to_number(self) -> NumericView {
        match self {
            Content::Undefined => NumericView::Known(Double { bits: crate::number::NAN_BITS }),
            Content::Null => NumericView::Known(Double::of_int(0)),
            Content::Boolean(b) => NumericView::Known(
                Double::of_int(
                    if b {
                        1
                    } else {
                        0
                    },
                ),
            ),
            Content::Integer(n) => NumericView::Known(Double::of_int(n as int)),
            Content::Rational(d) => NumericView::Known(d),
            Content::String(s) => NumericView::Text(s),
            Content::BigInt(n) => NumericView::Big(n),
            Content::Object(_) => NumericView::Known(Double { bits: crate::number::NAN_BITS }),
            Content::Symbol(_) => NumericView::Known(Double { bits: crate::number::NAN_BITS }),
        }
    }

    /// The conversion of a value to text, as far as it goes without
    /// floating-point work: only a double is left to be written out.
    pub open spec fn to_text(self) -> TextView {
        match self {
            Content::Undefined => TextView::Known("undefined"@),
            Content::Null => TextView::Known("null"@),
            Content::Boolean(b) => TextView::Known(
                if b {
                    "true"@
                } else {
                    "false"@
                },
            ),
            Content::Integer(n) => TextView::Known(decimal_text(n as int)),
            Content::Rational(d) => TextView::Number(d),
            Content::String(s) => TextView::Known(s),
            Content::BigInt(n) => TextView::Known(decimal_text(n)),
            Content::Object(_) => TextView::Known("[object Object]"@),
            Content::Symbol(_) => TextView::Known("Symbol()"@),
        }
    }
}

impl Value {
    /// Converts to a number as far as that goes without floating-point work.
    pub fn to_number(&self) -> (r: Numeric)
        ensures
            r@ == self@.to_number(),
    {
        match self.data() {
            ValueData::Undefined => Numeric::Known(Double::nan()),
            ValueData::Null => Numeric::Known(Double::zero()),
            ValueData::Boolean(b) => Numeric::Known(
                if *b {
                    Double::one()
                } else {
                    Double::zero()
                },
            ),
            ValueData::Integer(n) => Numeric::Known(Double::from_i32(*n)),
            ValueData::Rational(d) => Numeric::Known(*d),
            ValueData::String(s) => Numeric::Text(s.clone()),
            ValueData::BigInt(n) => Numeric::Big(n.clone()),
            ValueData::Object(_) => Numeric::Known(Double::nan()),
            ValueData::Symbol(_) => Numeric::Known(Double::nan()),
        }
    }

    /// Converts to text as far as that goes without floating-point work.
    pub fn to_text(&self) -> (r: Text)
        ensures
            r@ == self@.to_text(),
    {
        match self.data() {
            ValueData::Undefined => Text::Known(String::from_str("undefined")),
            ValueData::Null => Text::Known(String::from_str("null")),
            ValueData::Boolean(b) => Text::Known(
                if *b {
                    String::from_str("true")
                } else {
                    String::from_str("false")
                },
            ),
            ValueData::Integer(n) => Text::Known(BigInt::from_i64(*n as i64).to_decimal()),
            ValueData::Rational(d) => Text::Number(*d),
            ValueData::String(s) => Text::Known(s.clone()),
            ValueData::BigInt(n) => Text::Known(n.to_decimal()),
            ValueData::Object(_) => Text::Known(String::from_str("[object Object]")),
            ValueData::Symbol(_) => Text::Known(String::from_str("Symbol()")),
        }
    }
}

} // verus!

//! Computations that wait for floating-point work.
//!
//! Reading a number from text, rounding a big integer to a double,
//! arithmetic on doubles and writing a double out are not done in this
//! library. An operator that needs one of them yields a `Pending`: it names
//! the `Request` to make, takes the `Reply`, and goes on from there.

use vstd::prelude::*;
use crate::ast::op::{BitOp, NumOp};
use crate::bigint::BigInt;
use crate::number::Double;
use crate::value::{Content, Numeric, NumericView, Text, TextView, Value};

verus! {

/// A comparison of two numbers.
#[derive(Clone, Copy, Debug, PartialEq, Eq, Structural)]
pub enum Relation {
    Equal,
    NotEqual,
    Less,
    LessOrEqual,
    Greater,
    GreaterOrEqual,
}

/// A piece of floating-point work.
#[derive(Debug, PartialEq)]
pub enum Request {
    /// Read the text as a number; the answer is a NaN where it is none.
    Parse(String),
    /// Round the big integer to the nearest double.
    Round(BigInt),
    /// Apply the operator to the two doubles.
    Arithmetic(NumOp, Double, Double),
    /// Write the double out as text.
    Format(Double),
}

/// `Request`, as mathematics sees it.
pub enum RequestView {
    Parse(Seq<char>),
    Round(int),
    Arithmetic(NumOp, Double, Double),
    Format(Double),
}

impl View for Request {
    type V = RequestView;

    open spec fn view(&self) -> RequestView {
        match *self {
            Request::Parse(s) => RequestView::Parse(s@),
            Request::Round(n) => RequestView::Round(n@),
            Request::Arithmetic(op, x, y) => RequestView::Arithmetic(op, x, y),
            Request::Format(d) => RequestView::Format(d),
        }
    }
}

/// The answer to a `Request`: a number to `Parse`, `Round` and `Arithmetic`,
/// text to `Format`.
#[derive(Debug, PartialEq)]
pub enum Reply {
    Number(Double),
    Text(String),
}

/// `Reply`, as mathematics sees it.
pub enum ReplyView {
    Number(Double),
    Text(Seq<char>),
}

impl View for Reply {
    type V = ReplyView;

    open spec fn view(&self) -> ReplyView {
        match *self {
            Reply::Number(d) => ReplyView::Number(d),
            Reply::Text(s) => ReplyView::Text(s@),
        }
    }
}

/// A computation that waits for floating-point work.
#[derive(Debug, PartialEq)]
pub enum Pending {
    /// The number that the operator gives on the numbers of the two operands.
    Arithmetic(NumOp, Numeric, Numeric),
    /// The integer that the operator gives on the two numbers truncated to
    /// 32 bits.
    Bitwise(BitOp, Numeric, Numeric),
    /// Whether the relation holds of the two numbers.
    Relational(Relation, Numeric, Numeric),
    /// The two texts joined.
    Concat(Text, Text),
    /// The number negated.
    Negate(Numeric),
}

/// `Pending`, as mathematics sees it.
pub enum PendingView {
    Arithmetic(NumOp, NumericView, NumericView),
    Bitwise(BitOp, NumericView, NumericView),
    Relational(Relation, NumericView, NumericView),
    Concat(TextView, TextView),
    Negate(NumericView),
}

impl View for Pending {
    type V = PendingView;

    open spec fn view(&self) -> PendingView {
        match *self {
            Pending::Arithmetic(op, l, r) => PendingView::Arithmetic(op, l@, r@),
            Pending::Bitwise(op, l, r) => PendingView::Bitwise(op, l@, r@),
            Pending::Relational(rel, l, r) => PendingView::Relational(rel, l@, r@),
            Pending::Concat(l, r) => PendingView::Concat(l@, r@),
            Pending::Negate(n) => PendingView::Negate(n@),
        }
    }
}

/// What an operator yields: a value, or a computation that waits.
#[derive(Debug, PartialEq)]
pub enum Outcome {
    Value(Value),
    Pending(Pending),
}

/// `Outcome`, as mathematics sees it.
pub enum OutcomeView {
    Value(Content),
    Pending(PendingView),
}

impl View for Outcome {
    type V = OutcomeView;

    open spec fn view(&self) -> OutcomeView {
        match *self {
            Outcome::Value(v) => OutcomeView::Value(v@),
            Outcome::Pending(p) => OutcomeView::Pending(p@),
        }
    }
}

impl Relation {
    /// Whether the relation holds of two numbers, by IEEE-754 comparison: of
    /// a NaN only `NotEqual` holds.
    pub open spec fn holds(self, x: Double, y: Double) -> bool {
        match self {
            Relation::Equal => x.ieee_equal(y),
            Relation::NotEqual => !x.ieee_equal(y),
            Relation::Less => x.ieee_less(y),
            Relation::LessOrEqual => x.ieee_less(y) || x.ieee_equal(y),
            Relation::Greater => y.ieee_less(x),
            Relation::GreaterOrEqual => y.ieee_less(x) || y.ieee_equal(x),
        }
    }

    /// Decides the relation of two numbers.
    pub fn test(&self, x: &Double, y: &Double) -> (r: bool)
        ensures
            r == self.holds(*x, *y),
    {
        match self {
            Relation::Equal => x.equals(y),
            Relation::NotEqual => !x.equals(y),
            Relation::Less => x.less_than(y),
            Relation::LessOrEqual => x.less_or_equal(y),
            Relation::Greater => y.less_than(x),
            Relation::GreaterOrEqual => y.less_or_equal(x),
        }
    }
}

/// The bitwise operator on two 32-bit integers. A shift takes its count from
/// the low five bits of the right operand; the unsigned right shift is
/// carried out as the signed one.
pub open spec fn bit_result(op: BitOp, a: i32, b: i32) -> i32 {
    match op {
        BitOp::And => a & b,
        BitOp::Or => a | b,
        BitOp::Xor => a ^ b,
        BitOp::Shl => a << (b & 31),
        BitOp::Shr => a >> (b & 31),
        BitOp::UShr => a >> (b & 31),
    }
}

/// Applies a bitwise operator to two 32-bit integers.
pub fn apply_bit_op(op: BitOp, a: i32, b: i32) -> (r: i32)
    ensures
        r == bit_result(op, a, b),
{
    let count = b & 31;
    assert(0 <= count < 32) by (bit_vector)
        requires
            count == b & 31,
    ;
    match op {
        BitOp::And => a & b,
        BitOp::Or => a | b,
        BitOp::Xor => a ^ b,
        BitOp::Shl => a << count,
        BitOp::Shr => a >> count,
        BitOp::UShr => a >> count,
    }
}

impl NumericView {
    /// The work that finds the number, where it is not known.
    pub open spec fn request(self) -> Option<RequestView> {
        match self {
            NumericView::Known(_) => None,
            NumericView::Text(s) => Some(RequestView::Parse(s)),
            NumericView::Big(n) => Some(RequestView::Round(n)),
        }
    }

    /// The number, where it is known.
    pub open spec fn known(self) -> Double {
        match self {
            NumericView::Known(d) => d,
            _ => Double { bits: 0 },
        }
    }
}

impl TextView {
    /// The text, where it is known.
    pub open spec fn known(self) -> Seq<char> {
        match self {
            TextView::Known(s) => s,
            _ => Seq::empty(),
        }
    }
}

impl PendingView {
    /// The next piece of work to ask for: what finds the left operand, else
    /// what finds the right one, else, for arithmetic, the operation itself.
    /// `None` where nothing is left to ask.
    pub open spec fn request(self) -> Option<RequestView> {
        match self {
            PendingView::Arithmetic(op, l, r) => {
                if l.request().is_some() {
                    l.request()
                } else if r.request().is_some() {
                    r.request()
                } else {
                    Some(RequestView::Arithmetic(op, l.known(), r.known()))
                }
            },
            PendingView::Bitwise(_, l, r) => {
                if l.request().is_some() {
                    l.request()
                } else {
                    r.request()
                }
            },
            PendingView::Relational(_, l, r) => {
                if l.request().is_some() {
                    l.request()
                } else {
                    r.request()
                }
            },
            PendingView::Concat(l, r) => {
                match (l, r) {
                    (TextView::Number(d), _) => Some(RequestView::Format(d)),
                    (_, TextView::Number(d)) => Some(RequestView::Format(d)),
                    _ => None,
                }
            },
            PendingView::Negate(n) => n.request(),
        }
    }

    /// The value of a computation with nothing left to ask.
    pub open spec fn finished(self) -> Content {
        match self {
            PendingView::Arithmetic(_, _, _) => Content::Undefined,
            PendingView::Bitwise(op, l, r) => Content::Integer(
                bit_result(
                    op,
                    l.known().saturated_i32() as i32,
                    r.known().saturated_i32() as i32,
                ),
            ),
            PendingView::Relational(rel, l, r) => Content::Boolean(rel.holds(l.known(), r.known())),
            PendingView::Concat(l, r) => Content::String(l.known() + r.known()),
            PendingView::Negate(n) => Content::Rational(n.known().negated()),
        }
    }

    /// The computation carried as far as it goes without asking: its value
    /// where nothing is left to ask, and itself where something is.
    pub open spec fn settled(self) -> OutcomeView {
        if self.request().is_none() {
            OutcomeView::Value(self.finished())
        } else {
            OutcomeView::Pending(self)
        }
    }

    /// Whether the reply is of the kind that the pending request asks for.
    pub open spec fn accepts(self, reply: ReplyView) -> bool {
        match (self.request(), reply) {
            (Some(RequestView::Format(_)), ReplyView::Text(_)) => true,
            (Some(RequestView::Parse(_)), ReplyView::Number(_)) => true,
            (Some(RequestView::Round(_)), ReplyView::Number(_)) => true,
            (Some(RequestView::Arithmetic(_, _, _)), ReplyView::Number(_)) => true,
            _ => false,
        }
    }

    /// The computation with the answer to its request put in the place of
    /// what was asked for.
    pub open spec fn filled(self, reply: ReplyView) -> PendingView {
        match (self, reply) {
            (PendingView::Arithmetic(op, l, r), ReplyView::Number(d)) => {
                if l.request().is_some() {
                    PendingView::Arithmetic(op, NumericView::Known(d), r)
                } else {
                    PendingView::Arithmetic(op, l, NumericView::Known(d))
                }
            },
            (PendingView::Bitwise(op, l, r), ReplyView::Number(d)) => {
                if l.request().is_some() {
                    PendingView::Bitwise(op, NumericView::Known(d), r)
                } else {
                    PendingView::Bitwise(op, l, NumericView::Known(d))
                }
            },
            (PendingView::Relational(rel, l, r), ReplyView::Number(d)) => {
                if l.request().is_some() {
                    PendingView::Relational(rel, NumericView::Known(d), r)
                } else {
                    PendingView::Relational(rel, l, NumericView::Known(d))
                }
            },
            (PendingView::Concat(l, r), ReplyView::Text(s)) => {
                if l is Number {
                    PendingView::Concat(TextView::Known(s), r)
                } else {
                    PendingView::Concat(l, TextView::Known(s))
                }
            },
            (PendingView::Negate(_), ReplyView::Number(d)) => PendingView::Negate(
                NumericView::Known(d),
            ),
            _ => self,
        }
    }

    /// How the computation goes on with a reply. A reply of the wrong kind
    /// changes nothing. The answer to the arithmetic itself is the result.
    /// Any other answer takes the place of what was asked for, and the
    /// computation is carried on as far as it goes.
    pub open spec fn supplied(self, reply: ReplyView) -> OutcomeView {
        if !self.accepts(reply) {
            OutcomeView::Pending(self)
        } else {
            match (self.request(), reply) {
                (Some(RequestView::Arithmetic(_, _, _)), ReplyView::Number(d)) => OutcomeView::Value(
                    Content::Rational(d),
                ),
                _ => self.filled(reply).settled(),
            }
        }
    }
}


impl Numeric {
    /// The work that finds the number, where it is not known.
    pub fn request(&self) -> (r: Option<Request>)
        ensures
            match r {
                Some(q) => self@.request() == Some(q@),
                None => self@.request().is_none(),
            },
    {
        match self {
            Numeric::Known(_) => None,
            Numeric::Text(s) => Some(Request::Parse(s.clone())),
            Numeric::Big(n) => Some(Request::Round(n.clone())),
        }
    }

    /// Whether the number is known.
    pub fn is_known(&self) -> (r: bool)
        ensures
            r == self@.request().is_none(),
            r == (self@ is Known),
    {
        match self {
            Numeric::Known(_) => true,
            _ => false,
        }
    }

    fn value(&self) -> (r: Double)
        requires
            self@ is Known,
        ensures
            r == self@.known(),
    {
        match self {
            Numeric::Known(d) => *d,
            _ => Double::zero(),
        }
    }
}

impl Pending {
    /// The next piece of work to ask for, or `None` where nothing is left to
    /// ask.
    pub fn request(&self) -> (r: Option<Request>)
        ensures
            match r {
                Some(q) => self@.request() == Some(q@),
                None => self@.request().is_none(),
            },
    {
        match self {
            Pending::Arithmetic(op, l, r) => {
                if !l.is_known() {
                    l.request()
                } else if !r.is_known() {
                    r.request()
                } else {
                    Some(Request::Arithmetic(*op, l.value(), r.value()))
                }
            },
            Pending::Bitwise(_, l, r) => {
                if !l.is_known() {
                    l.request()
                } else {
                    r.request()
                }
            },
            Pending::Relational(_, l, r) => {
                if !l.is_known() {
                    l.request()
                } else {
                    r.request()
                }
            },
            Pending::Concat(l, r) => {
                match (l, r) {
                    (Text::Number(d), _) => Some(Request::Format(*d)),
                    (_, Text::Number(d)) => Some(Request::Format(*d)),
                    _ => None,
                }
            },
            Pending::Negate(n) => n.request(),
        }
    }

    /// Whether the reply is of the kind that the pending request asks for.
    pub fn accepts(&self, reply: &Reply) -> (r: bool)
        ensures
            r == self@.accepts(reply@),
    {
        match (self.request(), reply) {
            (Some(Request::Format(_)), Reply::Text(_)) => true,
            (Some(Request::Parse(_)), Reply::Number(_)) => true,
            (Some(Request::Round(_)), Reply::Number(_)) => true,
            (Some(Request::Arithmetic(_, _, _)), Reply::Number(_)) => true,
            _ => false,
        }
    }

    /// Carries the computation as far as it goes without asking.
    pub fn settle(self) -> (r: Outcome)
        ensures
            r@ == self@.settled(),
    {
        match self {
            Pending::Bitwise(op, Numeric::Known(x), Numeric::Known(y)) => Outcome::Value(
                Value::integer(apply_bit_op(op, x.to_i32(), y.to_i32())),
            ),
            Pending::Relational(rel, Numeric::Known(x), Numeric::Known(y)) => Outcome::Value(
                Value::boolean(rel.test(&x, &y)),
            ),
            Pending::Concat(Text::Known(a), Text::Known(b)) => Outcome::Value(
                Value::string(a.concat(b.as_str())),
            ),
            Pending::Negate(Numeric::Known(x)) => Outcome::Value(Value::rational(x.negate())),
            other => Outcome::Pending(other),
        }
    }

    /// Goes on with the answer to the request. A reply of the wrong kind, or
    /// one that was not asked for, leaves the computation as it is.
    pub fn supply(self, reply: Reply) -> (r: Outcome)
        ensures
            r@ == self@.supplied(reply@),
    {
        match (self, reply) {
            (Pending::Arithmetic(op, l, r), Reply::Number(d)) => {
                if !l.is_known() {
                    Pending::Arithmetic(op, Numeric::Known(d), r).settle()
                } else if !r.is_known() {
                    Pending::Arithmetic(op, l, Numeric::Known(d)).settle()
                } else {
                    Outcome::Value(Value::rational(d))
                }
            },
            (Pending::Bitwise(op, l, r), Reply::Number(d)) => {
                if !l.is_known() {
                    Pending::Bitwise(op, Numeric::Known(d), r).settle()
                } else if !r.is_known() {
                    Pending::Bitwise(op, l, Numeric::Known(d)).settle()
                } else {
                    Outcome::Pending(Pending::Bitwise(op, l, r))
                }
            },
            (Pending::Relational(rel, l, r), Reply::Number(d)) => {
                if !l.is_known() {
                    Pending::Relational(rel, Numeric::Known(d), r).settle()
                } else if !r.is_known() {
                    Pending::Relational(rel, l, Numeric::Known(d)).settle()
                } else {
                    Outcome::Pending(Pending::Relational(rel, l, r))
                }
            },
            (Pending::Concat(Text::Number(_), r), Reply::Text(s)) => Pending::Concat(
                Text::Known(s),
                r,
            ).settle(),
            (Pending::Concat(l, Text::Number(_)), Reply::Text(s)) => Pending::Concat(
                l,
                Text::Known(s),
            ).settle(),
            (Pending::Negate(n), Reply::Number(d)) => {
                if !n.is_known() {
                    Pending::Negate(Numeric::Known(d)).settle()
                } else {
                    Outcome::Pending(Pending::Negate(n))
                }
            },
            (other, _) => Outcome::Pending(other),
        }
    }
}

} // verus!

//! The operators of the syntax tree.

use vstd::prelude::*;
use vstd::std_specs::convert::FromSpecImpl;

verus! {

/// Arithmetic operators.
#[derive(Clone, Copy, Debug, PartialEq, Eq, Structural)]
pub enum NumOp {
    Add,
    Sub,
    Div,
    Mul,
    Exp,
    Mod,
}

/// Operators of one operand.
#[derive(Clone, Copy, Debug, PartialEq, Eq, Structural)]
pub enum UnaryOp {
    IncrementPost,
    IncrementPre,
    DecrementPost,
    DecrementPre,
    Minus,
    Plus,
    Not,
    Tilde,
    TypeOf,
    Delete,
    Void,
}

/// Bitwise operators.
#[derive(Clone, Copy, Debug, PartialEq, Eq, Structural)]
pub enum BitOp {
    And,
    Or,
    Xor,
    Shl,
    Shr,
    UShr,
}

/// Comparison operators.
#[derive(Clone, Copy, Debug, PartialEq, Eq, Structural)]
pub enum CompOp {
    Equal,
    NotEqual,
    StrictEqual,
    StrictNotEqual,
    GreaterThan,
    GreaterThanOrEqual,
    LessThan,
    LessThanOrEqual,
    In,
}

/// Logical operators, which decide after their left operand whether the
/// right one is evaluated.
#[derive(Clone, Copy, Debug, PartialEq, Eq, Structural)]
pub enum LogOp {
    And,
    Or,
}

/// Compound assignment operators.
#[derive(Clone, Copy, Debug, PartialEq, Eq, Structural)]
pub enum AssignOp {
    Add,
    Sub,
    Mul,
    Exp,
    Div,
    Mod,
    And,
    Or,
    Xor,
    Shl,
    Shr,
}

/// A binary operator, by category.
#[derive(Clone, Copy, Debug, PartialEq, Eq, Structural)]
pub enum BinOp {
    Num(NumOp),
    Bit(BitOp),
    Comp(CompOp),
    Log(LogOp),
    Assign(AssignOp),
}

impl From<NumOp> for BinOp {
    fn from(op: NumOp) -> (r: BinOp) {
        BinOp::Num(op)
    }
}

impl FromSpecImpl<NumOp> for BinOp {
    open spec fn obeys_from_spec() -> bool {
        true
    }

    open spec fn from_spec(op: NumOp) -> BinOp {
        BinOp::Num(op)
    }
}

impl From<BitOp> for BinOp {
    fn from(op: BitOp) -> (r: BinOp) {
        BinOp::Bit(op)
    }
}

impl FromSpecImpl<BitOp> for BinOp {
    open spec fn obeys_from_spec() -> bool {
        true
    }

    open spec fn from_spec(op: BitOp) -> BinOp {
        BinOp::Bit(op)
    }
}

impl From<CompOp> for BinOp {
    fn from(op: CompOp) -> (r: BinOp) {
        BinOp::Comp(op)
    }
}

impl FromSpecImpl<CompOp> for BinOp {
    open spec fn obeys_from_spec() -> bool {
        true
    }

    open spec fn from_spec(op: CompOp) -> BinOp {
        BinOp::Comp(op)
    }
}

impl From<LogOp> for BinOp {
    fn from(op: LogOp) -> (r: BinOp) {
        BinOp::Log(op)
    }
}

impl FromSpecImpl<LogOp> for BinOp {
    open spec fn obeys_from_spec() -> bool {
        true
    }

    open spec fn from_spec(op: LogOp) -> BinOp {
        BinOp::Log(op)
    }
}

impl From<AssignOp> for BinOp {
    fn from(op: AssignOp) -> (r: BinOp) {
        BinOp::Assign(op)
    }
}

impl FromSpecImpl<AssignOp> for BinOp {
    open spec fn obeys_from_spec() -> bool {
        true
    }

    open spec fn from_spec(op: AssignOp) -> BinOp {
        BinOp::Assign(op)
    }
}


impl BinOp {
    /// How tightly the operator binds: the smaller the number, the tighter.
    pub open spec fn precedence(self) -> u64 {
        match self {
            BinOp::Num(NumOp::Exp) => 4,
            BinOp::Num(NumOp::Mul) => 5,
            BinOp::Num(NumOp::Div) => 5,
            BinOp::Num(NumOp::Mod) => 5,
            BinOp::Num(NumOp::Add) => 6,
            BinOp::Num(NumOp::Sub) => 6,
            BinOp::Bit(BitOp::Shl) => 7,
            BinOp::Bit(BitOp::Shr) => 7,
            BinOp::Bit(BitOp::UShr) => 7,
            BinOp::Comp(CompOp::LessThan) => 8,
            BinOp::Comp(CompOp::LessThanOrEqual) => 8,
            BinOp::Comp(CompOp::GreaterThan) => 8,
            BinOp::Comp(CompOp::GreaterThanOrEqual) => 8,
            BinOp::Comp(CompOp::In) => 8,
            BinOp::Comp(_) => 9,
            BinOp::Bit(BitOp::And) => 10,
            BinOp::Bit(BitOp::Xor) => 11,
            BinOp::Bit(BitOp::Or) => 12,
            BinOp::Log(LogOp::And) => 13,
            BinOp::Log(LogOp::Or) => 14,
            BinOp::Assign(_) => 15,
        }
    }

    /// Whether the operator groups from the left, as every binary operator
    /// is taken to do.
    pub fn get_assoc(&self) -> (r: bool)
        ensures
            r,
    {
        true
    }

    /// How tightly the operator binds.
    pub fn get_precedence(&self) -> (r: u64)
        ensures
            r == self.precedence(),
    {
        match self {
            BinOp::Num(NumOp::Exp) => 4,
            BinOp::Num(NumOp::Mul) | BinOp::Num(NumOp::Div) | BinOp::Num(NumOp::Mod) => 5,
            BinOp::Num(NumOp::Add) | BinOp::Num(NumOp::Sub) => 6,
            BinOp::Bit(BitOp::Shl) | BinOp::Bit(BitOp::Shr) | BinOp::Bit(BitOp::UShr) => 7,
            BinOp::Comp(CompOp::LessThan)
            | BinOp::Comp(CompOp::LessThanOrEqual)
            | BinOp::Comp(CompOp::GreaterThan)
            | BinOp::Comp(CompOp::GreaterThanOrEqual)
            | BinOp::Comp(CompOp::In) => 8,
            BinOp::Comp(_) => 9,
            BinOp::Bit(BitOp::And) => 10,
            BinOp::Bit(BitOp::Xor) => 11,
            BinOp::Bit(BitOp::Or) => 12,
            BinOp::Log(LogOp::And) => 13,
            BinOp::Log(LogOp::Or) => 14,
            BinOp::Assign(_) => 15,
        }
    }
}

} // verus!

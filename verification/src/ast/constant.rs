//! Literals.

use vstd::prelude::*;
use vstd::std_specs::convert::FromSpecImpl;
use crate::bigint::BigInt;
use crate::number::Double;

verus! {

/// A literal of the source text.
#[derive(Debug, PartialEq)]
pub enum Const {
    String(String),
    /// A number written with a fraction or an exponent.
    Num(Double),
    /// A number written as an integer that fits in 32 bits.
    Int(i32),
    BigInt(BigInt),
    Bool(bool),
    Null,
    Undefined,
}

impl From<i32> for Const {
    fn from(n: i32) -> (r: Const) {
        Const::Int(n)
    }
}

impl FromSpecImpl<i32> for Const {
    open spec fn obeys_from_spec() -> bool {
        true
    }

    open spec fn from_spec(n: i32) -> Const {
        Const::Int(n)
    }
}

impl From<bool> for Const {
    fn from(b: bool) -> (r: Const) {
        Const::Bool(b)
    }
}

impl FromSpecImpl<bool> for Const {
    open spec fn obeys_from_spec() -> bool {
        true
    }

    open spec fn from_spec(b: bool) -> Const {
        Const::Bool(b)
    }
}

impl From<Double> for Const {
    fn from(d: Double) -> (r: Const) {
        Const::Num(d)
    }
}

impl FromSpecImpl<Double> for Const {
    open spec fn obeys_from_spec() -> bool {
        true
    }

    open spec fn from_spec(d: Double) -> Const {
        Const::Num(d)
    }
}

impl From<BigInt> for Const {
    fn from(n: BigInt) -> (r: Const) {
        Const::BigInt(n)
    }
}

impl FromSpecImpl<BigInt> for Const {
    open spec fn obeys_from_spec() -> bool {
        true
    }

    open spec fn from_spec(n: BigInt) -> Const {
        Const::BigInt(n)
    }
}

impl<'a> From<&'a str> for Const {
    fn from(text: &'a str) -> (r: Const)
        ensures
            r matches Const::String(s) && s@ == text@,
    {
        Const::String(String::from_str(text))
    }
}

impl<'a> FromSpecImpl<&'a str> for Const {
    open spec fn obeys_from_spec() -> bool {
        false
    }

    open spec fn from_spec(text: &'a str) -> Const {
        Const::Undefined
    }
}

} // verus!

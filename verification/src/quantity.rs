//! Quantities and the errors that unit-aware operations can raise.

use vstd::prelude::*;
use decimal::d128;
use crate::catalog::Unit;

verus! {

/// An immutable quantity: a decimal value paired with a unit tag. Its
/// category is derived from the unit; every operation creates a fresh value.
#[derive(Clone, Copy, Debug)]
pub struct Number {
    pub value: d128,
    pub unit: Unit,
}

impl Number {
    /// Pairs a decimal value with a unit tag.
    pub fn new(value: d128, unit: Unit) -> (n: Number)
        ensures
            n.value == value,
            n.unit == unit,
    {
        Number { value: value, unit: unit }
    }
}

/// The operator that an [`UnitError::UnsupportedOperation`] names.
#[derive(Clone, Copy, PartialEq, Eq, Structural, Debug)]
pub enum ArithOp {
    Add,
    Subtract,
    Multiply,
    Divide,
    Modulo,
    Pow,
}

/// Why a conversion or an arithmetic operation was refused. Each variant
/// names the offending units so a caller can surface a precise message.
#[derive(Clone, Copy, PartialEq, Eq, Structural, Debug)]
pub enum UnitError {
    /// A conversion, addition, subtraction or modulo was attempted across
    /// two incompatible categories.
    CategoryMismatch { from: Unit, to: Unit },
    /// An operator was invoked on a unit combination outside its legality
    /// table.
    UnsupportedOperation { op: ArithOp, left: Unit, right: Unit },
    /// A temperature pair outside the enumerated conversion table. The table
    /// is total over the closed three-unit set, so this is defensive and
    /// never actually returned.
    UnsupportedConversion { from: Unit, to: Unit },
}

} // verus!

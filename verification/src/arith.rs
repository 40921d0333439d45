//! The arithmetic operators: add, subtract, multiply, divide, modulo and
//! power, each enforcing its own legality table over unit categories.

use vstd::prelude::*;
use crate::catalog::Unit;
use crate::catalog::UnitType;
use crate::convert::convert_to_lowest;
use crate::convert::lowest_pair;
use crate::decimal_ops::dec_add;
use crate::decimal_ops::dec_sub;
use crate::decimal_ops::dec_mul;
use crate::decimal_ops::dec_div;
use crate::decimal_ops::dec_rem;
use crate::decimal_ops::dec_pow;
use crate::decimal_ops::dec_add_exec;
use crate::decimal_ops::dec_sub_exec;
use crate::decimal_ops::dec_mul_exec;
use crate::decimal_ops::dec_div_exec;
use crate::decimal_ops::dec_rem_exec;
use crate::decimal_ops::dec_pow_exec;
use crate::quantity::ArithOp;
use crate::quantity::Number;
use crate::quantity::UnitError;

verus! {

/// When addition, subtraction and modulo are legal: both operands measure
/// the same category, and that category is not Temperature.
pub open spec fn linear_op_legal(left: Unit, right: Unit) -> bool {
    left.spec_category() == right.spec_category() && left.spec_category()
        != UnitType::Temperature
}

/// When multiplication is legal: both operands are dimensionless scalars, or
/// exactly one is and the other is not a temperature.
pub open spec fn multiply_legal(left: Unit, right: Unit) -> bool {
    ||| left == Unit::NoUnit && right == Unit::NoUnit
    ||| left == Unit::NoUnit && right != Unit::NoUnit && right.spec_category()
        != UnitType::Temperature
    ||| right == Unit::NoUnit && left != Unit::NoUnit && left.spec_category()
        != UnitType::Temperature
}

/// When division is legal: both operands dimensionless, a dimensioned
/// (non-temperature) numerator over a dimensionless denominator, or two
/// dimensioned operands of one non-temperature category.
pub open spec fn divide_legal(left: Unit, right: Unit) -> bool {
    ||| left == Unit::NoUnit && right == Unit::NoUnit
    ||| left != Unit::NoUnit && right == Unit::NoUnit && left.spec_category()
        != UnitType::Temperature
    ||| left != Unit::NoUnit && right != Unit::NoUnit && linear_op_legal(left, right)
}

/// When power is legal: the exponent is dimensionless; the base keeps its
/// unit, whatever it is.
pub open spec fn pow_legal(left: Unit, right: Unit) -> bool {
    right == Unit::NoUnit
}

/// Adds two quantities of one non-temperature category, normalised onto the
/// finer of their two units; the sum carries that unit.
pub fn add(left: Number, right: Number) -> (r: Result<Number, UnitError>)
    ensures
        linear_op_legal(left.unit, right.unit) ==> (r matches Ok(n) && n.unit == lowest_pair(
            left,
            right,
        ).0.unit && n.value == dec_add(
            lowest_pair(left, right).0.value,
            lowest_pair(left, right).1.value,
        )),
        left.unit.spec_category() != right.unit.spec_category() ==> r == Err::<Number, UnitError>(
            (UnitError::CategoryMismatch { from: left.unit, to: right.unit }),
        ),
        left.unit.spec_category() == right.unit.spec_category() && left.unit.spec_category()
            == UnitType::Temperature ==> r == Err::<Number, UnitError>(
            (UnitError::UnsupportedOperation {
                op: ArithOp::Add,
                left: left.unit,
                right: right.unit,
            }),
        ),
{
    if left.unit.category() != right.unit.category() {
        return Err(UnitError::CategoryMismatch { from: left.unit, to: right.unit });
    }
    if left.unit.category() == UnitType::Temperature {
        return Err(
            UnitError::UnsupportedOperation { op: ArithOp::Add, left: left.unit, right: right.unit },
        );
    }
    match convert_to_lowest(left, right) {
        Ok((l, r)) => Ok(Number::new(dec_add_exec(l.value, r.value), l.unit)),
        Err(e) => Err(e),
    }
}

/// Subtracts two quantities of one non-temperature category, normalised onto
/// the finer of their two units; the difference carries that unit.
pub fn subtract(left: Number, right: Number) -> (r: Result<Number, UnitError>)
    ensures
        linear_op_legal(left.unit, right.unit) ==> (r matches Ok(n) && n.unit == lowest_pair(
            left,
            right,
        ).0.unit && n.value == dec_sub(
            lowest_pair(left, right).0.value,
            lowest_pair(left, right).1.value,
        )),
        left.unit.spec_category() != right.unit.spec_category() ==> r == Err::<Number, UnitError>(
            (UnitError::CategoryMismatch { from: left.unit, to: right.unit }),
        ),
        left.unit.spec_category() == right.unit.spec_category() && left.unit.spec_category()
            == UnitType::Temperature ==> r == Err::<Number, UnitError>(
            (UnitError::UnsupportedOperation {
                op: ArithOp::Subtract,
                left: left.unit,
                right: right.unit,
            }),
        ),
{
    if left.unit.category() != right.unit.category() {
        return Err(UnitError::CategoryMismatch { from: left.unit, to: right.unit });
    }
    if left.unit.category() == UnitType::Temperature {
        return Err(
            UnitError::UnsupportedOperation {
                op: ArithOp::Subtract,
                left: left.unit,
                right: right.unit,
            },
        );
    }
    match convert_to_lowest(left, right) {
        Ok((l, r)) => Ok(Number::new(dec_sub_exec(l.value, r.value), l.unit)),
        Err(e) => Err(e),
    }
}

/// Takes the remainder of two quantities of one non-temperature category,
/// normalised onto the finer of their two units; the result carries it.
pub fn modulo(left: Number, right: Number) -> (r: Result<Number, UnitError>)
    ensures
        linear_op_legal(left.unit, right.unit) ==> (r matches Ok(n) && n.unit == lowest_pair(
            left,
            right,
        ).0.unit && n.value == dec_rem(
            lowest_pair(left, right).0.value,
            lowest_pair(left, right).1.value,
        )),
        left.unit.spec_category() != right.unit.spec_category() ==> r == Err::<Number, UnitError>(
            (UnitError::CategoryMismatch { from: left.unit, to: right.unit }),
        ),
        left.unit.spec_category() == right.unit.spec_category() && left.unit.spec_category()
            == UnitType::Temperature ==> r == Err::<Number, UnitError>(
            (UnitError::UnsupportedOperation {
                op: ArithOp::Modulo,
                left: left.unit,
                right: right.unit,
            }),
        ),
{
    if left.unit.category() != right.unit.category() {
        return Err(UnitError::CategoryMismatch { from: left.unit, to: right.unit });
    }
    if left.unit.category() == UnitType::Temperature {
        return Err(
            UnitError::UnsupportedOperation {
                op: ArithOp::Modulo,
                left: left.unit,
                right: right.unit,
            },
        );
    }
    match convert_to_lowest(left, right) {
        Ok((l, r)) => Ok(Number::new(dec_rem_exec(l.value, r.value), l.unit)),
        Err(e) => Err(e),
    }
}

/// Multiplies two quantities. A dimensionless operand acts as a scalar: the
/// product keeps the other operand's unit.
pub fn multiply(left: Number, right: Number) -> (r: Result<Number, UnitError>)
    ensures
        multiply_legal(left.unit, right.unit) ==> (r matches Ok(n) && n.value == dec_mul(
            left.value,
            right.value,
        ) && n.unit == (if left.unit == Unit::NoUnit {
            right.unit
        } else {
            left.unit
        })),
        !multiply_legal(left.unit, right.unit) ==> r == Err::<Number, UnitError>(
            (UnitError::UnsupportedOperation {
                op: ArithOp::Multiply,
                left: left.unit,
                right: right.unit,
            }),
        ),
{
    if left.unit == Unit::NoUnit && right.unit == Unit::NoUnit {
        Ok(Number::new(dec_mul_exec(left.value, right.value), left.unit))
    } else if left.unit.category() == UnitType::Temperature || right.unit.category()
        == UnitType::Temperature {
        Err(
            UnitError::UnsupportedOperation {
                op: ArithOp::Multiply,
                left: left.unit,
                right: right.unit,
            },
        )
    } else if left.unit == Unit::NoUnit {
        Ok(Number::new(dec_mul_exec(left.value, right.value), right.unit))
    } else if right.unit == Unit::NoUnit {
        Ok(Number::new(dec_mul_exec(left.value, right.value), left.unit))
    } else {
        Err(
            UnitError::UnsupportedOperation {
                op: ArithOp::Multiply,
                left: left.unit,
                right: right.unit,
            },
        )
    }
}

/// Divides two quantities. A dimensionless denominator scales the numerator,
/// which keeps its unit; two quantities of one non-temperature category are
/// normalised onto their finer unit and divide into a dimensionless ratio.
pub fn divide(left: Number, right: Number) -> (r: Result<Number, UnitError>)
    ensures
        left.unit == Unit::NoUnit && right.unit == Unit::NoUnit ==> (r matches Ok(n) && n.value
            == dec_div(left.value, right.value) && n.unit == Unit::NoUnit),
        left.unit != Unit::NoUnit && right.unit == Unit::NoUnit && left.unit.spec_category()
            != UnitType::Temperature ==> (r matches Ok(n) && n.value == dec_div(
            left.value,
            right.value,
        ) && n.unit == left.unit),
        left.unit != Unit::NoUnit && right.unit != Unit::NoUnit && linear_op_legal(
            left.unit,
            right.unit,
        ) ==> (r matches Ok(n) && n.value == dec_div(
            lowest_pair(left, right).0.value,
            lowest_pair(left, right).1.value,
        ) && n.unit == Unit::NoUnit),
        !divide_legal(left.unit, right.unit) ==> r == Err::<Number, UnitError>(
            (UnitError::UnsupportedOperation {
                op: ArithOp::Divide,
                left: left.unit,
                right: right.unit,
            }),
        ),
{
    if left.unit == Unit::NoUnit && right.unit == Unit::NoUnit {
        Ok(Number::new(dec_div_exec(left.value, right.value), left.unit))
    } else if left.unit.category() == UnitType::Temperature || right.unit.category()
        == UnitType::Temperature {
        Err(
            UnitError::UnsupportedOperation {
                op: ArithOp::Divide,
                left: left.unit,
                right: right.unit,
            },
        )
    } else if left.unit != Unit::NoUnit && right.unit == Unit::NoUnit {
        Ok(Number::new(dec_div_exec(left.value, right.value), left.unit))
    } else if left.unit.category() == right.unit.category() {
        match convert_to_lowest(left, right) {
            Ok((l, r)) => Ok(Number::new(dec_div_exec(l.value, r.value), Unit::NoUnit)),
            Err(e) => Err(e),
        }
    } else {
        Err(
            UnitError::UnsupportedOperation {
                op: ArithOp::Divide,
                left: left.unit,
                right: right.unit,
            },
        )
    }
}

/// Raises a quantity to a dimensionless power; the result keeps the base's
/// unit.
pub fn pow(left: Number, right: Number) -> (r: Result<Number, UnitError>)
    ensures
        pow_legal(left.unit, right.unit) ==> (r matches Ok(n) && n.value == dec_pow(
            left.value,
            right.value,
        ) && n.unit == left.unit),
        !pow_legal(left.unit, right.unit) ==> r == Err::<Number, UnitError>(
            (UnitError::UnsupportedOperation {
                op: ArithOp::Pow,
                left: left.unit,
                right: right.unit,
            }),
        ),
{
    if right.unit == Unit::NoUnit {
        Ok(Number::new(dec_pow_exec(left.value, right.value), left.unit))
    } else {
        Err(
            UnitError::UnsupportedOperation { op: ArithOp::Pow, left: left.unit, right: right.unit },
        )
    }
}

} // verus!

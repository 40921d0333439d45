//! The conversion engine: re-expressing a quantity in another unit of the
//! same category, and normalising two quantities onto a common unit.

use vstd::prelude::*;
use decimal::d128;
use crate::catalog::Unit;
use crate::catalog::UnitType;
use crate::catalog::weight_eq;
use crate::catalog::weight_gt;
use crate::decimal_ops::dec_add;
use crate::decimal_ops::dec_sub;
use crate::decimal_ops::dec_mul;
use crate::decimal_ops::dec_div;
use crate::decimal_ops::dec_from_str;
use crate::decimal_ops::dec_add_exec;
use crate::decimal_ops::dec_sub_exec;
use crate::decimal_ops::dec_mul_exec;
use crate::decimal_ops::dec_div_exec;
use crate::decimal_ops::parse_dec;
use crate::quantity::Number;
use crate::quantity::UnitError;

verus! {

/// The temperature category is a closed three-unit set.
pub proof fn lemma_temperature_units(u: Unit)
    ensures
        u.spec_category() == UnitType::Temperature ==> (u == Unit::Kelvin || u == Unit::Celcius
            || u == Unit::Fahrenheit),
{
}

/// The affine temperature table: what a temperature reading `v` on the scale
/// `src` reads on the scale `tgt`. Same-scale pairs are the identity; the six
/// cross pairs scale and offset. Pairs outside the table (never reached for
/// temperature operands) fall back to the identity.
pub open spec fn temp_value(src: Unit, tgt: Unit, v: d128) -> d128 {
    if src == tgt {
        v
    } else if src == Unit::Kelvin && tgt == Unit::Celcius {
        dec_sub(v, dec_from_str("273.15"@))
    } else if src == Unit::Kelvin && tgt == Unit::Fahrenheit {
        dec_sub(dec_mul(v, dec_from_str("1.8"@)), dec_from_str("459.67"@))
    } else if src == Unit::Celcius && tgt == Unit::Kelvin {
        dec_add(v, dec_from_str("273.15"@))
    } else if src == Unit::Celcius && tgt == Unit::Fahrenheit {
        dec_add(dec_mul(v, dec_from_str("1.8"@)), dec_from_str("32"@))
    } else if src == Unit::Fahrenheit && tgt == Unit::Kelvin {
        dec_div(dec_mul(dec_add(v, dec_from_str("459.67"@)), dec_from_str("5"@)), dec_from_str("9"@))
    } else if src == Unit::Fahrenheit && tgt == Unit::Celcius {
        dec_div(dec_sub(v, dec_from_str("32"@)), dec_from_str("1.8"@))
    } else {
        v
    }
}

/// The value a quantity `v` of unit `src` takes when re-expressed in the unit
/// `tgt` of the same category: the identity for the unit itself, the affine
/// table for temperatures, and otherwise the multiplicative weight ratio.
pub open spec fn convert_value(src: Unit, tgt: Unit, v: d128) -> d128 {
    if src == tgt {
        v
    } else if src.spec_category() == UnitType::Temperature {
        temp_value(src, tgt, v)
    } else {
        dec_mul(v, dec_div(src.spec_weight(), tgt.spec_weight()))
    }
}

/// The multiplicative conversion factor between two units of one
/// (non-temperature) category: the ratio of their weights.
fn get_convertion_factor(unit: Unit, to_unit: Unit) -> (f: d128)
    ensures
        f == dec_div(unit.spec_weight(), to_unit.spec_weight()),
{
    dec_div_exec(unit.weight(), to_unit.weight())
}

/// Converts a quantity to a target unit of the same category; across
/// categories it fails with `CategoryMismatch`.
pub fn convert(number: Number, to_unit: Unit) -> (r: Result<Number, UnitError>)
    ensures
        number.unit.spec_category() == to_unit.spec_category() ==> (r matches Ok(n) && n.unit
            == to_unit && n.value == convert_value(number.unit, to_unit, number.value)),
        number.unit.spec_category() != to_unit.spec_category() ==> r == Err::<Number, UnitError>(
            (UnitError::CategoryMismatch { from: number.unit, to: to_unit }),
        ),
{
    if number.unit.category() != to_unit.category() {
        return Err(UnitError::CategoryMismatch { from: number.unit, to: to_unit });
    }
    if number.unit == to_unit {
        return Ok(number);
    }
    let value = number.value;
    if number.unit.category() == UnitType::Temperature {
        match (number.unit, to_unit) {
            (Unit::Kelvin, Unit::Celcius) => Ok(
                Number::new(dec_sub_exec(value, parse_dec("273.15")), to_unit),
            ),
            (Unit::Kelvin, Unit::Fahrenheit) => Ok(
                Number::new(
                    dec_sub_exec(dec_mul_exec(value, parse_dec("1.8")), parse_dec("459.67")),
                    to_unit,
                ),
            ),
            (Unit::Celcius, Unit::Kelvin) => Ok(
                Number::new(dec_add_exec(value, parse_dec("273.15")), to_unit),
            ),
            (Unit::Celcius, Unit::Fahrenheit) => Ok(
                Number::new(
                    dec_add_exec(dec_mul_exec(value, parse_dec("1.8")), parse_dec("32")),
                    to_unit,
                ),
            ),
            (Unit::Fahrenheit, Unit::Kelvin) => Ok(
                Number::new(
                    dec_div_exec(
                        dec_mul_exec(dec_add_exec(value, parse_dec("459.67")), parse_dec("5")),
                        parse_dec("9"),
                    ),
                    to_unit,
                ),
            ),
            (Unit::Fahrenheit, Unit::Celcius) => Ok(
                Number::new(
                    dec_div_exec(dec_sub_exec(value, parse_dec("32")), parse_dec("1.8")),
                    to_unit,
                ),
            ),
            _ => {
                proof {
                    lemma_temperature_units(number.unit);
                    lemma_temperature_units(to_unit);
                }
                Err(UnitError::UnsupportedConversion { from: number.unit, to: to_unit })
            },
        }
    } else {
        let convertion_factor = get_convertion_factor(number.unit, to_unit);
        Ok(Number::new(dec_mul_exec(number.value, convertion_factor), to_unit))
    }
}

/// The pair that `convert_to_lowest` yields on success: with equal weights
/// both quantities stay unchanged; otherwise the operand whose unit has the
/// larger weight is re-expressed in the other operand's (finer) unit.
pub open spec fn lowest_pair(left: Number, right: Number) -> (Number, Number) {
    if left.unit.weight_num() == right.unit.weight_num() {
        (left, right)
    } else if left.unit.weight_num() > right.unit.weight_num() {
        ((Number { value: convert_value(left.unit, right.unit, left.value), unit: right.unit }), right)
    } else {
        (left, (Number { value: convert_value(right.unit, left.unit, right.value), unit: left.unit }))
    }
}

/// Brings two quantities onto a common unit before a binary operator runs:
/// the unit with the smaller per-unit weight wins, and exactly equal weights
/// leave both operands unchanged.
pub fn convert_to_lowest(left: Number, right: Number) -> (r: Result<(Number, Number), UnitError>)
    ensures
        left.unit.weight_num() == right.unit.weight_num() ==> r == Ok::<(Number, Number), UnitError>(
            (left, right),
        ),
        left.unit.weight_num() != right.unit.weight_num() && left.unit.spec_category()
            == right.unit.spec_category() ==> r == Ok::<(Number, Number), UnitError>(
            lowest_pair(left, right),
        ),
        left.unit.weight_num() > right.unit.weight_num() && left.unit.spec_category()
            != right.unit.spec_category() ==> r == Err::<(Number, Number), UnitError>(
            (UnitError::CategoryMismatch { from: left.unit, to: right.unit }),
        ),
        left.unit.weight_num() < right.unit.weight_num() && left.unit.spec_category()
            != right.unit.spec_category() ==> r == Err::<(Number, Number), UnitError>(
            (UnitError::CategoryMismatch { from: right.unit, to: left.unit }),
        ),
{
    if weight_eq(&left.unit, &right.unit) {
        Ok((left, right))
    } else if weight_gt(&left.unit, &right.unit) {
        match convert(left, right.unit) {
            Ok(left_converted) => Ok((left_converted, right)),
            Err(e) => Err(e),
        }
    } else {
        match convert(right, left.unit) {
            Ok(right_converted) => Ok((left, right_converted)),
            Err(e) => Err(e),
        }
    }
}

/// Identity law: re-expressing any quantity in its own unit leaves its value
/// untouched, for every unit of the catalog, temperatures included.
pub proof fn lemma_convert_identity(u: Unit, v: d128)
    ensures
        convert_value(u, u, v) == v,
{
}

/// With exactly equal weights — true synonyms, or units of unrelated
/// categories that happen to share a weight — normalisation changes nothing.
pub proof fn lemma_lowest_pair_equal_weights(left: Number, right: Number)
    requires
        left.unit.weight_num() == right.unit.weight_num(),
    ensures
        lowest_pair(left, right) == (left, right),
{
}

/// With unequal weights, normalisation is deterministic: both results carry
/// the unit of strictly smaller weight, and the operand already expressed in
/// it stays unchanged.
pub proof fn lemma_lowest_pair_picks_smaller(left: Number, right: Number)
    requires
        left.unit.weight_num() != right.unit.weight_num(),
    ensures
        lowest_pair(left, right).0.unit == lowest_pair(left, right).1.unit,
        left.unit.weight_num() < right.unit.weight_num() ==> lowest_pair(left, right).0 == left
            && lowest_pair(left, right).1.unit == left.unit,
        left.unit.weight_num() > right.unit.weight_num() ==> lowest_pair(left, right).1 == right
            && lowest_pair(left, right).0.unit == right.unit,
{
}

} // verus!

use std::str::FromStr;

use decimal::d128;
use units::ArithOp;
use units::Number;
use units::Unit;
use units::UnitError;

fn dec(s: &str) -> d128 {
    d128::from_str(s).unwrap()
}

fn quantity(value: &str, unit: Unit) -> Number {
    Number::new(dec(value), unit)
}

#[test]
fn test_add_kilometers_and_meters() {
    let result = units::add(quantity("1", Unit::Kilometer), quantity("500", Unit::Meter)).unwrap();
    assert_eq!(result.unit, Unit::Meter);
    assert!(result.value == dec("1500"));
}

#[test]
fn test_add_category_mismatch() {
    let result = units::add(quantity("1", Unit::Meter), quantity("1", Unit::Kilogram));
    assert_eq!(result.unwrap_err(), UnitError::CategoryMismatch { from: Unit::Meter, to: Unit::Kilogram });
}

#[test]
fn test_add_temperature_unsupported() {
    let result = units::add(quantity("1", Unit::Kelvin), quantity("1", Unit::Celcius));
    assert_eq!(
        result.unwrap_err(),
        UnitError::UnsupportedOperation {
            op: ArithOp::Add,
            left: Unit::Kelvin,
            right: Unit::Celcius,
        }
    );
}

#[test]
fn test_subtract_same_category() {
    let result =
        units::subtract(quantity("1", Unit::Kilometer), quantity("400", Unit::Meter)).unwrap();
    assert_eq!(result.unit, Unit::Meter);
    assert!(result.value == dec("600"));
}

#[test]
fn test_subtract_errors() {
    let result = units::subtract(quantity("1", Unit::Hour), quantity("1", Unit::Watt));
    assert_eq!(result.unwrap_err(), UnitError::CategoryMismatch { from: Unit::Hour, to: Unit::Watt });

    let result = units::subtract(quantity("2", Unit::Fahrenheit), quantity("1", Unit::Fahrenheit));
    assert_eq!(
        result.unwrap_err(),
        UnitError::UnsupportedOperation {
            op: ArithOp::Subtract,
            left: Unit::Fahrenheit,
            right: Unit::Fahrenheit,
        }
    );
}

#[test]
fn test_multiply_scalar() {
    let result = units::multiply(quantity("3", Unit::NoUnit), quantity("2", Unit::Kilometer)).unwrap();
    assert_eq!(result.unit, Unit::Kilometer);
    assert!(result.value == dec("6"));

    let result = units::multiply(quantity("2", Unit::Kilometer), quantity("3", Unit::NoUnit)).unwrap();
    assert_eq!(result.unit, Unit::Kilometer);
    assert!(result.value == dec("6"));

    let result = units::multiply(quantity("3", Unit::NoUnit), quantity("2", Unit::NoUnit)).unwrap();
    assert_eq!(result.unit, Unit::NoUnit);
    assert!(result.value == dec("6"));
}

#[test]
fn test_multiply_unsupported() {
    let result = units::multiply(quantity("2", Unit::Meter), quantity("3", Unit::Meter));
    assert_eq!(
        result.unwrap_err(),
        UnitError::UnsupportedOperation {
            op: ArithOp::Multiply,
            left: Unit::Meter,
            right: Unit::Meter,
        }
    );

    let result = units::multiply(quantity("2", Unit::NoUnit), quantity("300", Unit::Kelvin));
    assert_eq!(
        result.unwrap_err(),
        UnitError::UnsupportedOperation {
            op: ArithOp::Multiply,
            left: Unit::NoUnit,
            right: Unit::Kelvin,
        }
    );
}

#[test]
fn test_divide_same_unit() {
    let result = units::divide(quantity("10", Unit::Meter), quantity("2", Unit::Meter)).unwrap();
    assert_eq!(result.unit, Unit::NoUnit);
    assert!(result.value == dec("5"));
}

#[test]
fn test_divide_mixed_units_of_one_category() {
    let result = units::divide(quantity("1", Unit::Kilometer), quantity("500", Unit::Meter)).unwrap();
    assert_eq!(result.unit, Unit::NoUnit);
    assert!(result.value == dec("2"));
}

#[test]
fn test_divide_by_scalar_keeps_unit() {
    let result = units::divide(quantity("10", Unit::Meter), quantity("2", Unit::NoUnit)).unwrap();
    assert_eq!(result.unit, Unit::Meter);
    assert!(result.value == dec("5"));

    let result = units::divide(quantity("10", Unit::NoUnit), quantity("4", Unit::NoUnit)).unwrap();
    assert_eq!(result.unit, Unit::NoUnit);
    assert!(result.value == dec("2.5"));
}

#[test]
fn test_divide_unsupported() {
    let result = units::divide(quantity("1", Unit::Meter), quantity("1", Unit::Kilogram));
    assert_eq!(
        result.unwrap_err(),
        UnitError::UnsupportedOperation {
            op: ArithOp::Divide,
            left: Unit::Meter,
            right: Unit::Kilogram,
        }
    );

    let result = units::divide(quantity("3", Unit::NoUnit), quantity("2", Unit::Kilometer));
    assert_eq!(
        result.unwrap_err(),
        UnitError::UnsupportedOperation {
            op: ArithOp::Divide,
            left: Unit::NoUnit,
            right: Unit::Kilometer,
        }
    );

    let result = units::divide(quantity("300", Unit::Kelvin), quantity("2", Unit::NoUnit));
    assert_eq!(
        result.unwrap_err(),
        UnitError::UnsupportedOperation {
            op: ArithOp::Divide,
            left: Unit::Kelvin,
            right: Unit::NoUnit,
        }
    );
}

#[test]
fn test_modulo_same_category() {
    let result = units::modulo(quantity("7", Unit::Meter), quantity("3", Unit::Meter)).unwrap();
    assert_eq!(result.unit, Unit::Meter);
    assert!(result.value == dec("1"));

    let result = units::modulo(quantity("1", Unit::Kilometer), quantity("300", Unit::Meter)).unwrap();
    assert_eq!(result.unit, Unit::Meter);
    assert!(result.value == dec("100"));
}

#[test]
fn test_modulo_errors() {
    let result = units::modulo(quantity("1", Unit::Meter), quantity("1", Unit::Kilogram));
    assert_eq!(result.unwrap_err(), UnitError::CategoryMismatch { from: Unit::Meter, to: Unit::Kilogram });

    let result = units::modulo(quantity("300", Unit::Kelvin), quantity("7", Unit::Kelvin));
    assert_eq!(
        result.unwrap_err(),
        UnitError::UnsupportedOperation {
            op: ArithOp::Modulo,
            left: Unit::Kelvin,
            right: Unit::Kelvin,
        }
    );
}

#[test]
fn test_pow_dimensionless() {
    let result = units::pow(quantity("2", Unit::NoUnit), quantity("3", Unit::NoUnit)).unwrap();
    assert_eq!(result.unit, Unit::NoUnit);
    assert!(result.value == dec("8"));
}

#[test]
fn test_pow_keeps_base_unit() {
    let result = units::pow(quantity("2", Unit::Kilometer), quantity("3", Unit::NoUnit)).unwrap();
    assert_eq!(result.unit, Unit::Kilometer);
    assert!(result.value == dec("8"));
}

#[test]
fn test_pow_unsupported() {
    let result = units::pow(quantity("2", Unit::NoUnit), quantity("3", Unit::Meter));
    assert_eq!(
        result.unwrap_err(),
        UnitError::UnsupportedOperation {
            op: ArithOp::Pow,
            left: Unit::NoUnit,
            right: Unit::Meter,
        }
    );
}

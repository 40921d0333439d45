use std::str::FromStr;

use decimal::d128;
use units::Number;
use units::Unit;
use units::UnitError;

fn dec(s: &str) -> d128 {
    d128::from_str(s).unwrap()
}

fn quantity(value: &str, unit: Unit) -> Number {
    Number::new(dec(value), unit)
}

#[test]
fn test_convert_identity() {
    for unit in [Unit::NoUnit, Unit::Meter, Unit::Kilogram, Unit::Joule, Unit::Kelvin] {
        let result = units::convert(quantity("1", unit), unit).unwrap();
        assert_eq!(result.unit, unit);
        assert!(result.value == dec("1"));
    }
}

#[test]
fn test_convert_round_trip() {
    let meters = units::convert(quantity("1", Unit::Kilometer), Unit::Meter).unwrap();
    assert!(meters.value == dec("1000"));
    let back = units::convert(meters, Unit::Kilometer).unwrap();
    assert_eq!(back.unit, Unit::Kilometer);
    assert!(back.value == dec("1"));

    let newton_meters = units::convert(quantity("5", Unit::Joule), Unit::NewtonMeter).unwrap();
    assert!(newton_meters.value == dec("5"));
    let joules = units::convert(newton_meters, Unit::Joule).unwrap();
    assert_eq!(joules.unit, Unit::Joule);
    assert!(joules.value == dec("5"));

    let fahrenheit = units::convert(quantity("300", Unit::Kelvin), Unit::Fahrenheit).unwrap();
    let kelvin = units::convert(fahrenheit, Unit::Kelvin).unwrap();
    assert_eq!(kelvin.unit, Unit::Kelvin);
    assert!(kelvin.value == dec("300"));
}

#[test]
fn test_temperature_fixed_points() {
    let celsius_zero = quantity("0", Unit::Celcius);
    let as_kelvin = units::convert(celsius_zero, Unit::Kelvin).unwrap();
    assert!(as_kelvin.value == dec("273.15"));
    let as_fahrenheit = units::convert(celsius_zero, Unit::Fahrenheit).unwrap();
    assert!(as_fahrenheit.value == dec("32"));

    let kelvin = quantity("273.15", Unit::Kelvin);
    assert!(units::convert(kelvin, Unit::Celcius).unwrap().value == dec("0"));
    assert!(units::convert(kelvin, Unit::Fahrenheit).unwrap().value == dec("32"));

    let fahrenheit = quantity("32", Unit::Fahrenheit);
    assert!(units::convert(fahrenheit, Unit::Celcius).unwrap().value == dec("0"));
    assert!(units::convert(fahrenheit, Unit::Kelvin).unwrap().value == dec("273.15"));

    let cold = quantity("-40", Unit::Celcius);
    assert!(units::convert(cold, Unit::Fahrenheit).unwrap().value == dec("-40"));
    let cold = quantity("-40", Unit::Fahrenheit);
    assert!(units::convert(cold, Unit::Celcius).unwrap().value == dec("-40"));
}

#[test]
fn test_convert_nanoseconds_to_microseconds() {
    let result = units::convert(quantity("1000", Unit::Nanosecond), Unit::Microsecond).unwrap();
    assert_eq!(result.unit, Unit::Microsecond);
    assert!(result.value == dec("1"));
}

#[test]
fn test_convert_kelvin_to_fahrenheit() {
    let result = units::convert(quantity("300", Unit::Kelvin), Unit::Fahrenheit).unwrap();
    assert_eq!(result.unit, Unit::Fahrenheit);
    assert!(result.value == dec("80.33"));
}

#[test]
fn test_convert_category_mismatch() {
    let result = units::convert(quantity("1", Unit::Meter), Unit::Kilogram);
    assert_eq!(result.unwrap_err(), UnitError::CategoryMismatch { from: Unit::Meter, to: Unit::Kilogram });
}

#[test]
fn test_convert_to_lowest_picks_smaller_weight() {
    let (left, right) =
        units::convert_to_lowest(quantity("1", Unit::Kilometer), quantity("500", Unit::Meter))
            .unwrap();
    assert_eq!(left.unit, Unit::Meter);
    assert_eq!(right.unit, Unit::Meter);
    assert!(left.value == dec("1000"));
    assert!(right.value == dec("500"));

    let (left, right) =
        units::convert_to_lowest(quantity("500", Unit::Meter), quantity("1", Unit::Kilometer))
            .unwrap();
    assert_eq!(left.unit, Unit::Meter);
    assert_eq!(right.unit, Unit::Meter);
    assert!(left.value == dec("500"));
    assert!(right.value == dec("1000"));
}

#[test]
fn test_convert_to_lowest_equal_weights_unchanged() {
    let (left, right) =
        units::convert_to_lowest(quantity("3", Unit::Joule), quantity("4", Unit::NewtonMeter))
            .unwrap();
    assert_eq!(left.unit, Unit::Joule);
    assert_eq!(right.unit, Unit::NewtonMeter);
    assert!(left.value == dec("3"));
    assert!(right.value == dec("4"));

    // Nanosecond and Millimeter are the base units of their categories and
    // share the weight 1, so both operands come back unchanged even across
    // categories.
    let (left, right) =
        units::convert_to_lowest(quantity("5", Unit::Nanosecond), quantity("7", Unit::Millimeter))
            .unwrap();
    assert_eq!(left.unit, Unit::Nanosecond);
    assert_eq!(right.unit, Unit::Millimeter);
    assert!(left.value == dec("5"));
    assert!(right.value == dec("7"));
}

#[test]
fn test_convert_to_lowest_category_mismatch() {
    let result = units::convert_to_lowest(quantity("1", Unit::Meter), quantity("1", Unit::Gram));
    assert_eq!(result.unwrap_err(), UnitError::CategoryMismatch { from: Unit::Meter, to: Unit::Gram });

    let result = units::convert_to_lowest(quantity("1", Unit::Gram), quantity("1", Unit::Meter));
    assert_eq!(result.unwrap_err(), UnitError::CategoryMismatch { from: Unit::Meter, to: Unit::Gram });
}

#[test]
fn test_unit_category_and_weight() {
    assert_eq!(Unit::Meter.category(), units::UnitType::Length);
    assert_eq!(Unit::Kelvin.category(), units::UnitType::Temperature);
    assert_eq!(Unit::NoUnit.category(), units::UnitType::NoUnit);
    assert!(Unit::Kilometer.weight() == dec("1000000"));
    assert!(Unit::Inch.weight() == dec("25.4"));
    assert!(Unit::Kelvin.weight() == dec("0"));
}

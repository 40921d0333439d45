use std::str::FromStr;

use decimal::d128;
use units::Number;
use units::Unit;

fn convert_test(value: f64, unit: Unit, to_unit: Unit) -> f64 {
    let value_string = value.to_string();
    let value_d128 = d128::from_str(&value_string).unwrap();
    let number = Number::new(value_d128, unit);

    let result = units::convert(number, to_unit);
    let string_result = result.unwrap().value.to_string();
    let float_result = f64::from_str(&string_result).unwrap();

    float_result
}

#[test]
fn test_convert() {
    assert_eq!(convert_test(1000.0, Unit::Nanosecond, Unit::Microsecond), 1.0);
    assert_eq!(convert_test(1000.0, Unit::Nanosecond, Unit::Microsecond), 1.0);
    assert_eq!(convert_test(1000.0, Unit::Microsecond, Unit::Millisecond), 1.0);
    assert_eq!(convert_test(1000.0, Unit::Millisecond, Unit::Second), 1.0);
    assert_eq!(convert_test(60.0, Unit::Second, Unit::Minute), 1.0);
    assert_eq!(convert_test(60.0, Unit::Minute, Unit::Hour), 1.0);
    assert_eq!(convert_test(24.0, Unit::Hour, Unit::Day), 1.0);
    assert_eq!(convert_test(7.0, Unit::Day, Unit::Week), 1.0);
    assert_eq!(convert_test(30.436875, Unit::Day, Unit::Month), 1.0);
    assert_eq!(convert_test(3.0, Unit::Month, Unit::Quarter), 1.0);
    assert_eq!(convert_test(4.0, Unit::Quarter, Unit::Year), 1.0);
    assert_eq!(convert_test(10.0, Unit::Year, Unit::Decade), 1.0);
    assert_eq!(convert_test(10.0, Unit::Decade, Unit::Century), 1.0);
    assert_eq!(convert_test(10.0, Unit::Century, Unit::Millenium), 1.0);
    assert_eq!(convert_test(10.0, Unit::Millimeter, Unit::Centimeter), 1.0);
    assert_eq!(convert_test(10.0, Unit::Centimeter, Unit::Decimeter), 1.0);
    assert_eq!(convert_test(10.0, Unit::Decimeter, Unit::Meter), 1.0);
    assert_eq!(convert_test(1000.0, Unit::Meter, Unit::Kilometer), 1.0);
    assert_eq!(convert_test(2.54, Unit::Centimeter, Unit::Inch), 1.0);
    assert_eq!(convert_test(12.0, Unit::Inch, Unit::Foot), 1.0);
    assert_eq!(convert_test(3.0, Unit::Foot, Unit::Yard), 1.0);
    assert_eq!(convert_test(1760.0, Unit::Yard, Unit::Mile), 1.0);
    assert_eq!(convert_test(1852.0, Unit::Meter, Unit::NauticalMile), 1.0);
    assert_eq!(convert_test(9460730472580800.0, Unit::Meter, Unit::LightYear), 1.0);
    assert_eq!(convert_test(299792458.0, Unit::Meter, Unit::LightSecond), 1.0);
    assert_eq!(convert_test(100.0, Unit::SquareMillimeter, Unit::SquareCentimeter), 1.0);
    assert_eq!(convert_test(100.0, Unit::SquareCentimeter, Unit::SquareDecimeter), 1.0);
    assert_eq!(convert_test(100.0, Unit::SquareDecimeter, Unit::SquareMeter), 1.0);
    assert_eq!(convert_test(1000000.0, Unit::SquareMeter, Unit::SquareKilometer), 1.0);
    assert_eq!(convert_test(645.16, Unit::SquareMillimeter, Unit::SquareInch), 1.0);
    assert_eq!(convert_test(144.0, Unit::SquareInch, Unit::SquareFoot), 1.0);
    assert_eq!(convert_test(9.0, Unit::SquareFoot, Unit::SquareYard), 1.0);
    assert_eq!(convert_test(3097600.0, Unit::SquareYard, Unit::SquareMile), 1.0);
    assert_eq!(convert_test(100.0, Unit::SquareMeter, Unit::Are), 1.0);
    assert_eq!(convert_test(10.0, Unit::Are, Unit::Decare), 1.0);
    assert_eq!(convert_test(10.0, Unit::Decare, Unit::Hectare), 1.0);
    assert_eq!(convert_test(640.0, Unit::Acre, Unit::SquareMile), 1.0);
    assert_eq!(convert_test(1000.0, Unit::CubicMillimeter, Unit::CubicCentimeter), 1.0);
    assert_eq!(convert_test(1000.0, Unit::CubicCentimeter, Unit::CubicDecimeter), 1.0);
    assert_eq!(convert_test(1000.0, Unit::CubicDecimeter, Unit::CubicMeter), 1.0);
    assert_eq!(convert_test(1000000000.0, Unit::CubicMeter, Unit::CubicKilometer), 1.0);
    assert_eq!(convert_test(1728.0, Unit::CubicInch, Unit::CubicFoot), 1.0);
    assert_eq!(convert_test(27.0, Unit::CubicFoot, Unit::CubicYard), 1.0);
    assert_eq!(convert_test(5451776000.0, Unit::CubicYard, Unit::CubicMile), 1.0);
    assert_eq!(convert_test(1.0, Unit::Milliliter, Unit::CubicCentimeter), 1.0);
    assert_eq!(convert_test(10.0, Unit::Milliliter, Unit::Centiliter), 1.0);
    assert_eq!(convert_test(10.0, Unit::Centiliter, Unit::Deciliter), 1.0);
    assert_eq!(convert_test(10.0, Unit::Deciliter, Unit::Liter), 1.0);
    assert_eq!(convert_test(4.92892159375, Unit::Milliliter, Unit::Teaspoon), 1.0);
    assert_eq!(convert_test(3.0, Unit::Teaspoon, Unit::Tablespoon), 1.0);
    assert_eq!(convert_test(2.0, Unit::Tablespoon, Unit::FluidOunce), 1.0);
    assert_eq!(convert_test(8.0, Unit::FluidOunce, Unit::Cup), 1.0);
    assert_eq!(convert_test(2.0, Unit::Cup, Unit::Pint), 1.0);
    assert_eq!(convert_test(2.0, Unit::Pint, Unit::Quart), 1.0);
    assert_eq!(convert_test(4.0, Unit::Quart, Unit::Gallon), 1.0);
    assert_eq!(convert_test(42.0, Unit::Gallon, Unit::OilBarrel), 1.0);
    assert_eq!(convert_test(1000.0, Unit::Milligram, Unit::Gram), 1.0);
    assert_eq!(convert_test(100.0, Unit::Gram, Unit::Hectogram), 1.0);
    assert_eq!(convert_test(1000.0, Unit::Gram, Unit::Kilogram), 1.0);
    assert_eq!(convert_test(1000.0, Unit::Kilogram, Unit::MetricTon), 1.0);
    assert_eq!(convert_test(0.45359237, Unit::Kilogram, Unit::Pound), 1.0);
    assert_eq!(convert_test(16.0, Unit::Ounce, Unit::Pound), 1.0);
    assert_eq!(convert_test(2000.0, Unit::Pound, Unit::ShortTon), 1.0);
    assert_eq!(convert_test(2240.0, Unit::Pound, Unit::LongTon), 1.0);
    assert_eq!(convert_test(1000.0, Unit::Bit, Unit::Kilobit), 1.0);
    assert_eq!(convert_test(1000.0, Unit::Kilobit, Unit::Megabit), 1.0);
    assert_eq!(convert_test(1000.0, Unit::Megabit, Unit::Gigabit), 1.0);
    assert_eq!(convert_test(1000.0, Unit::Gigabit, Unit::Terabit), 1.0);
    assert_eq!(convert_test(1000.0, Unit::Terabit, Unit::Petabit), 1.0);
    assert_eq!(convert_test(1000.0, Unit::Petabit, Unit::Exabit), 1.0);
    assert_eq!(convert_test(1000.0, Unit::Exabit, Unit::Zettabit), 1.0);
    assert_eq!(convert_test(1000.0, Unit::Zettabit, Unit::Yottabit), 1.0);
    assert_eq!(convert_test(1024.0, Unit::Bit, Unit::Kibibit), 1.0);
    assert_eq!(convert_test(1024.0, Unit::Kibibit, Unit::Mebibit), 1.0);
    assert_eq!(convert_test(1024.0, Unit::Mebibit, Unit::Gibibit), 1.0);
    assert_eq!(convert_test(1024.0, Unit::Gibibit, Unit::Tebibit), 1.0);
    assert_eq!(convert_test(1024.0, Unit::Tebibit, Unit::Pebibit), 1.0);
    assert_eq!(convert_test(1024.0, Unit::Pebibit, Unit::Exbibit), 1.0);
    assert_eq!(convert_test(1024.0, Unit::Exbibit, Unit::Zebibit), 1.0);
    assert_eq!(convert_test(1024.0, Unit::Zebibit, Unit::Yobibit), 1.0);
    assert_eq!(convert_test(8.0, Unit::Bit, Unit::Byte), 1.0);
    assert_eq!(convert_test(1000.0, Unit::Byte, Unit::Kilobyte), 1.0);
    assert_eq!(convert_test(1000.0, Unit::Kilobyte, Unit::Megabyte), 1.0);
    assert_eq!(convert_test(1000.0, Unit::Megabyte, Unit::Gigabyte), 1.0);
    assert_eq!(convert_test(1000.0, Unit::Gigabyte, Unit::Terabyte), 1.0);
    assert_eq!(convert_test(1000.0, Unit::Terabyte, Unit::Petabyte), 1.0);
    assert_eq!(convert_test(1000.0, Unit::Petabyte, Unit::Exabyte), 1.0);
    assert_eq!(convert_test(1000.0, Unit::Exabyte, Unit::Zettabyte), 1.0);
    assert_eq!(convert_test(1000.0, Unit::Zettabyte, Unit::Yottabyte), 1.0);
    assert_eq!(convert_test(1024.0, Unit::Kibibyte, Unit::Mebibyte), 1.0);
    assert_eq!(convert_test(1024.0, Unit::Mebibyte, Unit::Gibibyte), 1.0);
    assert_eq!(convert_test(1024.0, Unit::Gibibyte, Unit::Tebibyte), 1.0);
    assert_eq!(convert_test(1024.0, Unit::Tebibyte, Unit::Pebibyte), 1.0);
    assert_eq!(convert_test(1024.0, Unit::Pebibyte, Unit::Exbibyte), 1.0);
    assert_eq!(convert_test(1024.0, Unit::Exbibyte, Unit::Zebibyte), 1.0);
    assert_eq!(convert_test(1024.0, Unit::Zebibyte, Unit::Yobibyte), 1.0);
    assert_eq!(convert_test(1000.0, Unit::Millijoule, Unit::Joule), 1.0);
    assert_eq!(convert_test(1000.0, Unit::Joule, Unit::Kilojoule), 1.0);
    assert_eq!(convert_test(1.0, Unit::NewtonMeter, Unit::Joule), 1.0);
    assert_eq!(convert_test(1000.0, Unit::Kilojoule, Unit::Megajoule), 1.0);
    assert_eq!(convert_test(1000.0, Unit::Megajoule, Unit::Gigajoule), 1.0);
    assert_eq!(convert_test(1000.0, Unit::Gigajoule, Unit::Terajoule), 1.0);
    assert_eq!(convert_test(4.1868, Unit::Joule, Unit::Calorie), 1.0);
    assert_eq!(convert_test(1000.0, Unit::Calorie, Unit::KiloCalorie), 1.0);
    assert_eq!(convert_test(1055.05585262, Unit::Joule, Unit::BritishThermalUnit), 1.0);
    assert_eq!(convert_test(3600.0, Unit::Joule, Unit::WattHour), 1.0);
    assert_eq!(convert_test(1000.0, Unit::WattHour, Unit::KilowattHour), 1.0);
    assert_eq!(convert_test(1000.0, Unit::KilowattHour, Unit::MegawattHour), 1.0);
    assert_eq!(convert_test(1000.0, Unit::MegawattHour, Unit::GigawattHour), 1.0);
    assert_eq!(convert_test(1000.0, Unit::GigawattHour, Unit::TerawattHour), 1.0);
    assert_eq!(convert_test(1000.0, Unit::TerawattHour, Unit::PetawattHour), 1.0);
    assert_eq!(convert_test(1000.0, Unit::Watt, Unit::Kilowatt), 1.0);
    assert_eq!(convert_test(1000.0, Unit::Kilowatt, Unit::Megawatt), 1.0);
    assert_eq!(convert_test(1000.0, Unit::Megawatt, Unit::Gigawatt), 1.0);
    assert_eq!(convert_test(1000.0, Unit::Gigawatt, Unit::Terawatt), 1.0);
    assert_eq!(convert_test(1000.0, Unit::Terawatt, Unit::Petawatt), 1.0);
    assert_eq!(convert_test(0.0568690272188, Unit::Watt, Unit::BritishThermalUnitsPerMinute), 1.0);
    assert_eq!(convert_test(60.0, Unit::BritishThermalUnitsPerMinute, Unit::BritishThermalUnitsPerHour), 1.0);
    assert_eq!(convert_test(745.6998715822702, Unit::Watt, Unit::Horsepower), 1.0);
    assert_eq!(convert_test(735.49875, Unit::Watt, Unit::MetricHorsepower), 1.0);
    assert_eq!(convert_test(1000.0, Unit::Pascal, Unit::Kilopascal), 1.0);
    assert_eq!(convert_test(101325.0, Unit::Pascal, Unit::Atmosphere), 1.0);
    assert_eq!(convert_test(100.0, Unit::Pascal, Unit::Millibar), 1.0);
    assert_eq!(convert_test(1000.0, Unit::Millibar, Unit::Bar), 1.0);
    assert_eq!(convert_test(3386.389, Unit::Pascal, Unit::InchOfMercury), 1.0);
    assert_eq!(convert_test(6894.757293168361, Unit::Pascal, Unit::PoundsPerSquareInch), 1.0);
    assert_eq!(convert_test(162.12, Unit::Pascal, Unit::Torr), 1.0);
    assert_eq!(convert_test(3.6, Unit::KilometersPerHour, Unit::MetersPerSecond), 1.0);
    assert_eq!(convert_test(0.3048, Unit::MetersPerSecond, Unit::FeetPerSecond), 1.0);
    assert_eq!(convert_test(1.609344, Unit::KilometersPerHour, Unit::MilesPerHour), 1.0);
    assert_eq!(convert_test(1.852, Unit::KilometersPerHour, Unit::Knot), 1.0);
    assert_eq!(convert_test(274.15, Unit::Kelvin, Unit::Celcius), 1.0);
    assert_eq!(convert_test(300.0, Unit::Kelvin, Unit::Fahrenheit), 80.33);
    assert_eq!(convert_test(-272.15, Unit::Celcius, Unit::Kelvin), 1.0);
    assert_eq!(convert_test(-15.0, Unit::Celcius, Unit::Fahrenheit), 5.0);
    assert_eq!(convert_test(80.33, Unit::Fahrenheit, Unit::Kelvin), 300.0);
    assert_eq!(convert_test(5.0, Unit::Fahrenheit, Unit::Celcius), -15.0);
}

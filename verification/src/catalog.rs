//! The unit catalog: every supported unit, its category, and its weight.
//!
//! A unit's weight is the exact multiplicative ratio of one unit-instance to
//! the implicit base unit of its category (the unit of weight 1 there). All
//! weights are exact decimals with at most fourteen fractional digits, so the
//! catalog also exposes each weight as an exact integer multiple of 10^-14:
//! [`Unit::weight_num`]. That integer view drives every weight comparison in
//! the library, while [`Unit::weight`] yields the same constant as a decimal
//! for the conversion arithmetic. Temperature units carry a placeholder
//! weight of 0: their conversions are affine, not multiplicative, and are
//! handled by an explicit table in the conversion engine.

use vstd::prelude::*;
use decimal::d128;
use crate::decimal_ops::dec_from_str;
use crate::decimal_ops::parse_dec;

verus! {

/// The dimension a unit measures. Conversions and most arithmetic are only
/// legal within one category; `NoUnit` (dimensionless) is the scalar category.
#[derive(Clone, Copy, PartialEq, Eq, Structural, Debug)]
pub enum UnitType {
    NoUnit,
    Time,
    Length,
    Area,
    Volume,
    Mass,
    DigitalStorage,
    Energy,
    Power,
    Pressure,
    Speed,
    Temperature,
}

/// The closed set of supported units. Each belongs to exactly one category.
#[derive(Clone, Copy, PartialEq, Eq, Structural, Debug)]
pub enum Unit {
    NoUnit,
    Nanosecond,
    Microsecond,
    Millisecond,
    Second,
    Minute,
    Hour,
    Day,
    Week,
    Month,
    Quarter,
    Year,
    Decade,
    Century,
    Millenium,
    Millimeter,
    Centimeter,
    Decimeter,
    Meter,
    Kilometer,
    Inch,
    Foot,
    Yard,
    Mile,
    NauticalMile,
    LightYear,
    LightSecond,
    SquareMillimeter,
    SquareCentimeter,
    SquareDecimeter,
    SquareMeter,
    SquareKilometer,
    SquareInch,
    SquareFoot,
    SquareYard,
    SquareMile,
    Are,
    Decare,
    Hectare,
    Acre,
    CubicMillimeter,
    CubicCentimeter,
    CubicDecimeter,
    CubicMeter,
    CubicKilometer,
    CubicInch,
    CubicFoot,
    CubicYard,
    CubicMile,
    Milliliter,
    Centiliter,
    Deciliter,
    Liter,
    Teaspoon,
    Tablespoon,
    FluidOunce,
    Cup,
    Pint,
    Quart,
    Gallon,
    OilBarrel,
    Milligram,
    Gram,
    Hectogram,
    Kilogram,
    MetricTon,
    Ounce,
    Pound,
    ShortTon,
    LongTon,
    Bit,
    Kilobit,
    Megabit,
    Gigabit,
    Terabit,
    Petabit,
    Exabit,
    Zettabit,
    Yottabit,
    Kibibit,
    Mebibit,
    Gibibit,
    Tebibit,
    Pebibit,
    Exbibit,
    Zebibit,
    Yobibit,
    Byte,
    Kilobyte,
    Megabyte,
    Gigabyte,
    Terabyte,
    Petabyte,
    Exabyte,
    Zettabyte,
    Yottabyte,
    Kibibyte,
    Mebibyte,
    Gibibyte,
    Tebibyte,
    Pebibyte,
    Exbibyte,
    Zebibyte,
    Yobibyte,
    Millijoule,
    Joule,
    NewtonMeter,
    Kilojoule,
    Megajoule,
    Gigajoule,
    Terajoule,
    Calorie,
    KiloCalorie,
    BritishThermalUnit,
    WattHour,
    KilowattHour,
    MegawattHour,
    GigawattHour,
    TerawattHour,
    PetawattHour,
    Milliwatt,
    Watt,
    Kilowatt,
    Megawatt,
    Gigawatt,
    Terawatt,
    Petawatt,
    BritishThermalUnitsPerMinute,
    BritishThermalUnitsPerHour,
    Horsepower,
    MetricHorsepower,
    Pascal,
    Kilopascal,
    Atmosphere,
    Millibar,
    Bar,
    InchOfMercury,
    PoundsPerSquareInch,
    Torr,
    KilometersPerHour,
    MetersPerSecond,
    MilesPerHour,
    FeetPerSecond,
    Knot,
    Kelvin,
    Celcius,
    Fahrenheit,
}

/// One unit's weight as exact fixed-point parts: the scale of the fractional
/// part, 10^14, is enough for every weight in the catalog.
pub const WEIGHT_FRAC_SCALE: u64 = 100000000000000;

impl Unit {
    /// The category this unit belongs to.
    pub open spec fn spec_category(self) -> UnitType {
        match self {
            Unit::NoUnit => UnitType::NoUnit,
            Unit::Nanosecond => UnitType::Time,
            Unit::Microsecond => UnitType::Time,
            Unit::Millisecond => UnitType::Time,
            Unit::Second => UnitType::Time,
            Unit::Minute => UnitType::Time,
            Unit::Hour => UnitType::Time,
            Unit::Day => UnitType::Time,
            Unit::Week => UnitType::Time,
            Unit::Month => UnitType::Time,
            Unit::Quarter => UnitType::Time,
            Unit::Year => UnitType::Time,
            Unit::Decade => UnitType::Time,
            Unit::Century => UnitType::Time,
            Unit::Millenium => UnitType::Time,
            Unit::Millimeter => UnitType::Length,
            Unit::Centimeter => UnitType::Length,
            Unit::Decimeter => UnitType::Length,
            Unit::Meter => UnitType::Length,
            Unit::Kilometer => UnitType::Length,
            Unit::Inch => UnitType::Length,
            Unit::Foot => UnitType::Length,
            Unit::Yard => UnitType::Length,
            Unit::Mile => UnitType::Length,
            Unit::NauticalMile => UnitType::Length,
            Unit::LightYear => UnitType::Length,
            Unit::LightSecond => UnitType::Length,
            Unit::SquareMillimeter => UnitType::Area,
            Unit::SquareCentimeter => UnitType::Area,
            Unit::SquareDecimeter => UnitType::Area,
            Unit::SquareMeter => UnitType::Area,
            Unit::SquareKilometer => UnitType::Area,
            Unit::SquareInch => UnitType::Area,
            Unit::SquareFoot => UnitType::Area,
            Unit::SquareYard => UnitType::Area,
            Unit::SquareMile => UnitType::Area,
            Unit::Are => UnitType::Area,
            Unit::Decare => UnitType::Area,
            Unit::Hectare => UnitType::Area,
            Unit::Acre => UnitType::Area,
            Unit::CubicMillimeter => UnitType::Volume,
            Unit::CubicCentimeter => UnitType::Volume,
            Unit::CubicDecimeter => UnitType::Volume,
            Unit::CubicMeter => UnitType::Volume,
            Unit::CubicKilometer => UnitType::Volume,
            Unit::CubicInch => UnitType::Volume,
            Unit::CubicFoot => UnitType::Volume,
            Unit::CubicYard => UnitType::Volume,
            Unit::CubicMile => UnitType::Volume,
            Unit::Milliliter => UnitType::Volume,
            Unit::Centiliter => UnitType::Volume,
            Unit::Deciliter => UnitType::Volume,
            Unit::Liter => UnitType::Volume,
            Unit::Teaspoon => UnitType::Volume,
            Unit::Tablespoon => UnitType::Volume,
            Unit::FluidOunce => UnitType::Volume,
            Unit::Cup => UnitType::Volume,
            Unit::Pint => UnitType::Volume,
            Unit::Quart => UnitType::Volume,
            Unit::Gallon => UnitType::Volume,
            Unit::OilBarrel => UnitType::Volume,
            Unit::Milligram => UnitType::Mass,
            Unit::Gram => UnitType::Mass,
            Unit::Hectogram => UnitType::Mass,
            Unit::Kilogram => UnitType::Mass,
            Unit::MetricTon => UnitType::Mass,
            Unit::Ounce => UnitType::Mass,
            Unit::Pound => UnitType::Mass,
            Unit::ShortTon => UnitType::Mass,
            Unit::LongTon => UnitType::Mass,
            Unit::Bit => UnitType::DigitalStorage,
            Unit::Kilobit => UnitType::DigitalStorage,
            Unit::Megabit => UnitType::DigitalStorage,
            Unit::Gigabit => UnitType::DigitalStorage,
            Unit::Terabit => UnitType::DigitalStorage,
            Unit::Petabit => UnitType::DigitalStorage,
            Unit::Exabit => UnitType::DigitalStorage,
            Unit::Zettabit => UnitType::DigitalStorage,
            Unit::Yottabit => UnitType::DigitalStorage,
            Unit::Kibibit => UnitType::DigitalStorage,
            Unit::Mebibit => UnitType::DigitalStorage,
            Unit::Gibibit => UnitType::DigitalStorage,
            Unit::Tebibit => UnitType::DigitalStorage,
            Unit::Pebibit => UnitType::DigitalStorage,
            Unit::Exbibit => UnitType::DigitalStorage,
            Unit::Zebibit => UnitType::DigitalStorage,
            Unit::Yobibit => UnitType::DigitalStorage,
            Unit::Byte => UnitType::DigitalStorage,
            Unit::Kilobyte => UnitType::DigitalStorage,
            Unit::Megabyte => UnitType::DigitalStorage,
            Unit::Gigabyte => UnitType::DigitalStorage,
            Unit::Terabyte => UnitType::DigitalStorage,
            Unit::Petabyte => UnitType::DigitalStorage,
            Unit::Exabyte => UnitType::DigitalStorage,
            Unit::Zettabyte => UnitType::DigitalStorage,
            Unit::Yottabyte => UnitType::DigitalStorage,
            Unit::Kibibyte => UnitType::DigitalStorage,
            Unit::Mebibyte => UnitType::DigitalStorage,
            Unit::Gibibyte => UnitType::DigitalStorage,
            Unit::Tebibyte => UnitType::DigitalStorage,
            Unit::Pebibyte => UnitType::DigitalStorage,
            Unit::Exbibyte => UnitType::DigitalStorage,
            Unit::Zebibyte => UnitType::DigitalStorage,
            Unit::Yobibyte => UnitType::DigitalStorage,
            Unit::Millijoule => UnitType::Energy,
            Unit::Joule => UnitType::Energy,
            Unit::NewtonMeter => UnitType::Energy,
            Unit::Kilojoule => UnitType::Energy,
            Unit::Megajoule => UnitType::Energy,
            Unit::Gigajoule => UnitType::Energy,
            Unit::Terajoule => UnitType::Energy,
            Unit::Calorie => UnitType::Energy,
            Unit::KiloCalorie => UnitType::Energy,
            Unit::BritishThermalUnit => UnitType::Energy,
            Unit::WattHour => UnitType::Energy,
            Unit::KilowattHour => UnitType::Energy,
            Unit::MegawattHour => UnitType::Energy,
            Unit::GigawattHour => UnitType::Energy,
            Unit::TerawattHour => UnitType::Energy,
            Unit::PetawattHour => UnitType::Energy,
            Unit::Milliwatt => UnitType::Power,
            Unit::Watt => UnitType::Power,
            Unit::Kilowatt => UnitType::Power,
            Unit::Megawatt => UnitType::Power,
            Unit::Gigawatt => UnitType::Power,
            Unit::Terawatt => UnitType::Power,
            Unit::Petawatt => UnitType::Power,
            Unit::BritishThermalUnitsPerMinute => UnitType::Power,
            Unit::BritishThermalUnitsPerHour => UnitType::Power,
            Unit::Horsepower => UnitType::Power,
            Unit::MetricHorsepower => UnitType::Power,
            Unit::Pascal => UnitType::Pressure,
            Unit::Kilopascal => UnitType::Pressure,
            Unit::Atmosphere => UnitType::Pressure,
            Unit::Millibar => UnitType::Pressure,
            Unit::Bar => UnitType::Pressure,
            Unit::InchOfMercury => UnitType::Pressure,
            Unit::PoundsPerSquareInch => UnitType::Pressure,
            Unit::Torr => UnitType::Pressure,
            Unit::KilometersPerHour => UnitType::Speed,
            Unit::MetersPerSecond => UnitType::Speed,
            Unit::MilesPerHour => UnitType::Speed,
            Unit::FeetPerSecond => UnitType::Speed,
            Unit::Knot => UnitType::Speed,
            Unit::Kelvin => UnitType::Temperature,
            Unit::Celcius => UnitType::Temperature,
            Unit::Fahrenheit => UnitType::Temperature,
        }
    }

    /// The decimal literal that defines this unit's weight.
    pub open spec fn weight_lit(self) -> Seq<char> {
        match self {
            Unit::NoUnit => "1"@,
            Unit::Nanosecond => "1"@,
            Unit::Microsecond => "1000"@,
            Unit::Millisecond => "1000000"@,
            Unit::Second => "1000000000"@,
            Unit::Minute => "60000000000"@,
            Unit::Hour => "3600000000000"@,
            Unit::Day => "86400000000000"@,
            Unit::Week => "604800000000000"@,
            Unit::Month => "2629746000000000"@,
            Unit::Quarter => "7889238000000000"@,
            Unit::Year => "31556952000000000"@,
            Unit::Decade => "315569520000000000"@,
            Unit::Century => "3155695200000000000"@,
            Unit::Millenium => "31556952000000000000"@,
            Unit::Millimeter => "1"@,
            Unit::Centimeter => "10"@,
            Unit::Decimeter => "100"@,
            Unit::Meter => "1000"@,
            Unit::Kilometer => "1000000"@,
            Unit::Inch => "25.4"@,
            Unit::Foot => "304.8"@,
            Unit::Yard => "914.4"@,
            Unit::Mile => "1609344"@,
            Unit::NauticalMile => "1852000"@,
            Unit::LightYear => "9460730472580800000"@,
            Unit::LightSecond => "299792458000"@,
            Unit::SquareMillimeter => "1"@,
            Unit::SquareCentimeter => "100"@,
            Unit::SquareDecimeter => "10000"@,
            Unit::SquareMeter => "1000000"@,
            Unit::SquareKilometer => "1000000000000"@,
            Unit::SquareInch => "645.16"@,
            Unit::SquareFoot => "92903.04"@,
            Unit::SquareYard => "836127.36"@,
            Unit::SquareMile => "2589988110336.00"@,
            Unit::Are => "100000000"@,
            Unit::Decare => "1000000000"@,
            Unit::Hectare => "10000000000"@,
            Unit::Acre => "4046856422.40"@,
            Unit::CubicMillimeter => "1"@,
            Unit::CubicCentimeter => "1000"@,
            Unit::CubicDecimeter => "1000000"@,
            Unit::CubicMeter => "1000000000"@,
            Unit::CubicKilometer => "1000000000000000000"@,
            Unit::CubicInch => "16387.064"@,
            Unit::CubicFoot => "28316846.592"@,
            Unit::CubicYard => "764554857.984"@,
            Unit::CubicMile => "4168181825440579584"@,
            Unit::Milliliter => "1000"@,
            Unit::Centiliter => "10000"@,
            Unit::Deciliter => "100000"@,
            Unit::Liter => "1000000"@,
            Unit::Teaspoon => "4928.92159375"@,
            Unit::Tablespoon => "14786.76478125"@,
            Unit::FluidOunce => "29573.5295625"@,
            Unit::Cup => "236588.2365"@,
            Unit::Pint => "473176.473"@,
            Unit::Quart => "946352.946"@,
            Unit::Gallon => "3785411.784"@,
            Unit::OilBarrel => "158987294.928"@,
            Unit::Milligram => "0.001"@,
            Unit::Gram => "1"@,
            Unit::Hectogram => "100"@,
            Unit::Kilogram => "1000"@,
            Unit::MetricTon => "1000000"@,
            Unit::Ounce => "28.349523125"@,
            Unit::Pound => "453.59237"@,
            Unit::ShortTon => "907184.74"@,
            Unit::LongTon => "1016046.9088"@,
            Unit::Bit => "1"@,
            Unit::Kilobit => "1000"@,
            Unit::Megabit => "1000000"@,
            Unit::Gigabit => "1000000000"@,
            Unit::Terabit => "1000000000000"@,
            Unit::Petabit => "1000000000000000"@,
            Unit::Exabit => "1000000000000000000"@,
            Unit::Zettabit => "1000000000000000000000"@,
            Unit::Yottabit => "1000000000000000000000000"@,
            Unit::Kibibit => "1024"@,
            Unit::Mebibit => "1048576"@,
            Unit::Gibibit => "1073741824"@,
            Unit::Tebibit => "1099511627776"@,
            Unit::Pebibit => "1125899906842624"@,
            Unit::Exbibit => "1152921504606846976"@,
            Unit::Zebibit => "1180591620717411303424"@,
            Unit::Yobibit => "1208925819614629174706176"@,
            Unit::Byte => "8"@,
            Unit::Kilobyte => "8000"@,
            Unit::Megabyte => "8000000"@,
            Unit::Gigabyte => "8000000000"@,
            Unit::Terabyte => "8000000000000"@,
            Unit::Petabyte => "8000000000000000"@,
            Unit::Exabyte => "8000000000000000000"@,
            Unit::Zettabyte => "8000000000000000000000"@,
            Unit::Yottabyte => "8000000000000000000000000"@,
            Unit::Kibibyte => "8192"@,
            Unit::Mebibyte => "8388608"@,
            Unit::Gibibyte => "8589934592"@,
            Unit::Tebibyte => "8796093022208"@,
            Unit::Pebibyte => "9007199254740992"@,
            Unit::Exbibyte => "9223372036854775808"@,
            Unit::Zebibyte => "9444732965739290427392"@,
            Unit::Yobibyte => "9671406556917033397649408"@,
            Unit::Millijoule => "0.001"@,
            Unit::Joule => "1"@,
            Unit::NewtonMeter => "1"@,
            Unit::Kilojoule => "1000"@,
            Unit::Megajoule => "1000000"@,
            Unit::Gigajoule => "1000000000"@,
            Unit::Terajoule => "1000000000000"@,
            Unit::Calorie => "4.1868"@,
            Unit::KiloCalorie => "4186.8"@,
            Unit::BritishThermalUnit => "1055.05585262"@,
            Unit::WattHour => "3600"@,
            Unit::KilowattHour => "3600000"@,
            Unit::MegawattHour => "3600000000"@,
            Unit::GigawattHour => "3600000000000"@,
            Unit::TerawattHour => "3600000000000000"@,
            Unit::PetawattHour => "3600000000000000000"@,
            Unit::Milliwatt => "0.001"@,
            Unit::Watt => "1"@,
            Unit::Kilowatt => "1000"@,
            Unit::Megawatt => "1000000"@,
            Unit::Gigawatt => "1000000000"@,
            Unit::Terawatt => "1000000000000"@,
            Unit::Petawatt => "1000000000000000"@,
            Unit::BritishThermalUnitsPerMinute => "0.0568690272188"@,
            Unit::BritishThermalUnitsPerHour => "3.412141633128"@,
            Unit::Horsepower => "745.69987158227022"@,
            Unit::MetricHorsepower => "735.49875"@,
            Unit::Pascal => "1"@,
            Unit::Kilopascal => "1000"@,
            Unit::Atmosphere => "101325"@,
            Unit::Millibar => "100"@,
            Unit::Bar => "100000"@,
            Unit::InchOfMercury => "3386.389"@,
            Unit::PoundsPerSquareInch => "6894.757293168361"@,
            Unit::Torr => "162.12"@,
            Unit::KilometersPerHour => "1"@,
            Unit::MetersPerSecond => "3.6"@,
            Unit::MilesPerHour => "1.609344"@,
            Unit::FeetPerSecond => "1.09728"@,
            Unit::Knot => "1.852"@,
            Unit::Kelvin => "0"@,
            Unit::Celcius => "0"@,
            Unit::Fahrenheit => "0"@,
        }
    }

    /// This unit's weight as a decimal value.
    pub open spec fn spec_weight(self) -> d128 {
        dec_from_str(self.weight_lit())
    }

    /// The integer part of this unit's weight.
    pub open spec fn weight_whole(self) -> int {
        match self {
            Unit::NoUnit => 1,
            Unit::Nanosecond => 1,
            Unit::Microsecond => 1000,
            Unit::Millisecond => 1000000,
            Unit::Second => 1000000000,
            Unit::Minute => 60000000000,
            Unit::Hour => 3600000000000,
            Unit::Day => 86400000000000,
            Unit::Week => 604800000000000,
            Unit::Month => 2629746000000000,
            Unit::Quarter => 7889238000000000,
            Unit::Year => 31556952000000000,
            Unit::Decade => 315569520000000000,
            Unit::Century => 3155695200000000000,
            Unit::Millenium => 31556952000000000000,
            Unit::Millimeter => 1,
            Unit::Centimeter => 10,
            Unit::Decimeter => 100,
            Unit::Meter => 1000,
            Unit::Kilometer => 1000000,
            Unit::Inch => 25,
            Unit::Foot => 304,
            Unit::Yard => 914,
            Unit::Mile => 1609344,
            Unit::NauticalMile => 1852000,
            Unit::LightYear => 9460730472580800000,
            Unit::LightSecond => 299792458000,
            Unit::SquareMillimeter => 1,
            Unit::SquareCentimeter => 100,
            Unit::SquareDecimeter => 10000,
            Unit::SquareMeter => 1000000,
            Unit::SquareKilometer => 1000000000000,
            Unit::SquareInch => 645,
            Unit::SquareFoot => 92903,
            Unit::SquareYard => 836127,
            Unit::SquareMile => 2589988110336,
            Unit::Are => 100000000,
            Unit::Decare => 1000000000,
            Unit::Hectare => 10000000000,
            Unit::Acre => 4046856422,
            Unit::CubicMillimeter => 1,
            Unit::CubicCentimeter => 1000,
            Unit::CubicDecimeter => 1000000,
            Unit::CubicMeter => 1000000000,
            Unit::CubicKilometer => 1000000000000000000,
            Unit::CubicInch => 16387,
            Unit::CubicFoot => 28316846,
            Unit::CubicYard => 764554857,
            Unit::CubicMile => 4168181825440579584,
            Unit::Milliliter => 1000,
            Unit::Centiliter => 10000,
            Unit::Deciliter => 100000,
            Unit::Liter => 1000000,
            Unit::Teaspoon => 4928,
            Unit::Tablespoon => 14786,
            Unit::FluidOunce => 29573,
            Unit::Cup => 236588,
            Unit::Pint => 473176,
            Unit::Quart => 946352,
            Unit::Gallon => 3785411,
            Unit::OilBarrel => 158987294,
            Unit::Milligram => 0,
            Unit::Gram => 1,
            Unit::Hectogram => 100,
            Unit::Kilogram => 1000,
            Unit::MetricTon => 1000000,
            Unit::Ounce => 28,
            Unit::Pound => 453,
            Unit::ShortTon => 907184,
            Unit::LongTon => 1016046,
            Unit::Bit => 1,
            Unit::Kilobit => 1000,
            Unit::Megabit => 1000000,
            Unit::Gigabit => 1000000000,
            Unit::Terabit => 1000000000000,
            Unit::Petabit => 1000000000000000,
            Unit::Exabit => 1000000000000000000,
            Unit::Zettabit => 1000000000000000000000,
            Unit::Yottabit => 1000000000000000000000000,
            Unit::Kibibit => 1024,
            Unit::Mebibit => 1048576,
            Unit::Gibibit => 1073741824,
            Unit::Tebibit => 1099511627776,
            Unit::Pebibit => 1125899906842624,
            Unit::Exbibit => 1152921504606846976,
            Unit::Zebibit => 1180591620717411303424,
            Unit::Yobibit => 1208925819614629174706176,
            Unit::Byte => 8,
            Unit::Kilobyte => 8000,
            Unit::Megabyte => 8000000,
            Unit::Gigabyte => 8000000000,
            Unit::Terabyte => 8000000000000,
            Unit::Petabyte => 8000000000000000,
            Unit::Exabyte => 8000000000000000000,
            Unit::Zettabyte => 8000000000000000000000,
            Unit::Yottabyte => 8000000000000000000000000,
            Unit::Kibibyte => 8192,
            Unit::Mebibyte => 8388608,
            Unit::Gibibyte => 8589934592,
            Unit::Tebibyte => 8796093022208,
            Unit::Pebibyte => 9007199254740992,
            Unit::Exbibyte => 9223372036854775808,
            Unit::Zebibyte => 9444732965739290427392,
            Unit::Yobibyte => 9671406556917033397649408,
            Unit::Millijoule => 0,
            Unit::Joule => 1,
            Unit::NewtonMeter => 1,
            Unit::Kilojoule => 1000,
            Unit::Megajoule => 1000000,
            Unit::Gigajoule => 1000000000,
            Unit::Terajoule => 1000000000000,
            Unit::Calorie => 4,
            Unit::KiloCalorie => 4186,
            Unit::BritishThermalUnit => 1055,
            Unit::WattHour => 3600,
            Unit::KilowattHour => 3600000,
            Unit::MegawattHour => 3600000000,
            Unit::GigawattHour => 3600000000000,
            Unit::TerawattHour => 3600000000000000,
            Unit::PetawattHour => 3600000000000000000,
            Unit::Milliwatt => 0,
            Unit::Watt => 1,
            Unit::Kilowatt => 1000,
            Unit::Megawatt => 1000000,
            Unit::Gigawatt => 1000000000,
            Unit::Terawatt => 1000000000000,
            Unit::Petawatt => 1000000000000000,
            Unit::BritishThermalUnitsPerMinute => 0,
            Unit::BritishThermalUnitsPerHour => 3,
            Unit::Horsepower => 745,
            Unit::MetricHorsepower => 735,
            Unit::Pascal => 1,
            Unit::Kilopascal => 1000,
            Unit::Atmosphere => 101325,
            Unit::Millibar => 100,
            Unit::Bar => 100000,
            Unit::InchOfMercury => 3386,
            Unit::PoundsPerSquareInch => 6894,
            Unit::Torr => 162,
            Unit::KilometersPerHour => 1,
            Unit::MetersPerSecond => 3,
            Unit::MilesPerHour => 1,
            Unit::FeetPerSecond => 1,
            Unit::Knot => 1,
            Unit::Kelvin => 0,
            Unit::Celcius => 0,
            Unit::Fahrenheit => 0,
        }
    }

    /// The fractional part of this unit's weight, scaled by 10^14.
    pub open spec fn weight_frac(self) -> int {
        match self {
            Unit::NoUnit => 0,
            Unit::Nanosecond => 0,
            Unit::Microsecond => 0,
            Unit::Millisecond => 0,
            Unit::Second => 0,
            Unit::Minute => 0,
            Unit::Hour => 0,
            Unit::Day => 0,
            Unit::Week => 0,
            Unit::Month => 0,
            Unit::Quarter => 0,
            Unit::Year => 0,
            Unit::Decade => 0,
            Unit::Century => 0,
            Unit::Millenium => 0,
            Unit::Millimeter => 0,
            Unit::Centimeter => 0,
            Unit::Decimeter => 0,
            Unit::Meter => 0,
            Unit::Kilometer => 0,
            Unit::Inch => 40000000000000,
            Unit::Foot => 80000000000000,
            Unit::Yard => 40000000000000,
            Unit::Mile => 0,
            Unit::NauticalMile => 0,
            Unit::LightYear => 0,
            Unit::LightSecond => 0,
            Unit::SquareMillimeter => 0,
            Unit::SquareCentimeter => 0,
            Unit::SquareDecimeter => 0,
            Unit::SquareMeter => 0,
            Unit::SquareKilometer => 0,
            Unit::SquareInch => 16000000000000,
            Unit::SquareFoot => 4000000000000,
            Unit::SquareYard => 36000000000000,
            Unit::SquareMile => 0,
            Unit::Are => 0,
            Unit::Decare => 0,
            Unit::Hectare => 0,
            Unit::Acre => 40000000000000,
            Unit::CubicMillimeter => 0,
            Unit::CubicCentimeter => 0,
            Unit::CubicDecimeter => 0,
            Unit::CubicMeter => 0,
            Unit::CubicKilometer => 0,
            Unit::CubicInch => 6400000000000,
            Unit::CubicFoot => 59200000000000,
            Unit::CubicYard => 98400000000000,
            Unit::CubicMile => 0,
            Unit::Milliliter => 0,
            Unit::Centiliter => 0,
            Unit::Deciliter => 0,
            Unit::Liter => 0,
            Unit::Teaspoon => 92159375000000,
            Unit::Tablespoon => 76478125000000,
            Unit::FluidOunce => 52956250000000,
            Unit::Cup => 23650000000000,
            Unit::Pint => 47300000000000,
            Unit::Quart => 94600000000000,
            Unit::Gallon => 78400000000000,
            Unit::OilBarrel => 92800000000000,
            Unit::Milligram => 100000000000,
            Unit::Gram => 0,
            Unit::Hectogram => 0,
            Unit::Kilogram => 0,
            Unit::MetricTon => 0,
            Unit::Ounce => 34952312500000,
            Unit::Pound => 59237000000000,
            Unit::ShortTon => 74000000000000,
            Unit::LongTon => 90880000000000,
            Unit::Bit => 0,
            Unit::Kilobit => 0,
            Unit::Megabit => 0,
            Unit::Gigabit => 0,
            Unit::Terabit => 0,
            Unit::Petabit => 0,
            Unit::Exabit => 0,
            Unit::Zettabit => 0,
            Unit::Yottabit => 0,
            Unit::Kibibit => 0,
            Unit::Mebibit => 0,
            Unit::Gibibit => 0,
            Unit::Tebibit => 0,
            Unit::Pebibit => 0,
            Unit::Exbibit => 0,
            Unit::Zebibit => 0,
            Unit::Yobibit => 0,
            Unit::Byte => 0,
            Unit::Kilobyte => 0,
            Unit::Megabyte => 0,
            Unit::Gigabyte => 0,
            Unit::Terabyte => 0,
            Unit::Petabyte => 0,
            Unit::Exabyte => 0,
            Unit::Zettabyte => 0,
            Unit::Yottabyte => 0,
            Unit::Kibibyte => 0,
            Unit::Mebibyte => 0,
            Unit::Gibibyte => 0,
            Unit::Tebibyte => 0,
            Unit::Pebibyte => 0,
            Unit::Exbibyte => 0,
            Unit::Zebibyte => 0,
            Unit::Yobibyte => 0,
            Unit::Millijoule => 100000000000,
            Unit::Joule => 0,
            Unit::NewtonMeter => 0,
            Unit::Kilojoule => 0,
            Unit::Megajoule => 0,
            Unit::Gigajoule => 0,
            Unit::Terajoule => 0,
            Unit::Calorie => 18680000000000,
            Unit::KiloCalorie => 80000000000000,
            Unit::BritishThermalUnit => 5585262000000,
            Unit::WattHour => 0,
            Unit::KilowattHour => 0,
            Unit::MegawattHour => 0,
            Unit::GigawattHour => 0,
            Unit::TerawattHour => 0,
            Unit::PetawattHour => 0,
            Unit::Milliwatt => 100000000000,
            Unit::Watt => 0,
            Unit::Kilowatt => 0,
            Unit::Megawatt => 0,
            Unit::Gigawatt => 0,
            Unit::Terawatt => 0,
            Unit::Petawatt => 0,
            Unit::BritishThermalUnitsPerMinute => 5686902721880,
            Unit::BritishThermalUnitsPerHour => 41214163312800,
            Unit::Horsepower => 69987158227022,
            Unit::MetricHorsepower => 49875000000000,
            Unit::Pascal => 0,
            Unit::Kilopascal => 0,
            Unit::Atmosphere => 0,
            Unit::Millibar => 0,
            Unit::Bar => 0,
            Unit::InchOfMercury => 38900000000000,
            Unit::PoundsPerSquareInch => 75729316836100,
            Unit::Torr => 12000000000000,
            Unit::KilometersPerHour => 0,
            Unit::MetersPerSecond => 60000000000000,
            Unit::MilesPerHour => 60934400000000,
            Unit::FeetPerSecond => 9728000000000,
            Unit::Knot => 85200000000000,
            Unit::Kelvin => 0,
            Unit::Celcius => 0,
            Unit::Fahrenheit => 0,
        }
    }

    /// This unit's weight as an exact integer multiple of 10^-14. The weight
    /// order and equalities among units are exactly the order and equalities
    /// of these integers.
    pub open spec fn weight_num(self) -> int {
        self.weight_whole() * (WEIGHT_FRAC_SCALE as int) + self.weight_frac()
    }

    /// The category this unit belongs to.
    pub fn category(&self) -> (c: UnitType)
        ensures
            c == self.spec_category(),
    {
        match self {
            Unit::NoUnit => UnitType::NoUnit,
            Unit::Nanosecond => UnitType::Time,
            Unit::Microsecond => UnitType::Time,
            Unit::Millisecond => UnitType::Time,
            Unit::Second => UnitType::Time,
            Unit::Minute => UnitType::Time,
            Unit::Hour => UnitType::Time,
            Unit::Day => UnitType::Time,
            Unit::Week => UnitType::Time,
            Unit::Month => UnitType::Time,
            Unit::Quarter => UnitType::Time,
            Unit::Year => UnitType::Time,
            Unit::Decade => UnitType::Time,
            Unit::Century => UnitType::Time,
            Unit::Millenium => UnitType::Time,
            Unit::Millimeter => UnitType::Length,
            Unit::Centimeter => UnitType::Length,
            Unit::Decimeter => UnitType::Length,
            Unit::Meter => UnitType::Length,
            Unit::Kilometer => UnitType::Length,
            Unit::Inch => UnitType::Length,
            Unit::Foot => UnitType::Length,
            Unit::Yard => UnitType::Length,
            Unit::Mile => UnitType::Length,
            Unit::NauticalMile => UnitType::Length,
            Unit::LightYear => UnitType::Length,
            Unit::LightSecond => UnitType::Length,
            Unit::SquareMillimeter => UnitType::Area,
            Unit::SquareCentimeter => UnitType::Area,
            Unit::SquareDecimeter => UnitType::Area,
            Unit::SquareMeter => UnitType::Area,
            Unit::SquareKilometer => UnitType::Area,
            Unit::SquareInch => UnitType::Area,
            Unit::SquareFoot => UnitType::Area,
            Unit::SquareYard => UnitType::Area,
            Unit::SquareMile => UnitType::Area,
            Unit::Are => UnitType::Area,
            Unit::Decare => UnitType::Area,
            Unit::Hectare => UnitType::Area,
            Unit::Acre => UnitType::Area,
            Unit::CubicMillimeter => UnitType::Volume,
            Unit::CubicCentimeter => UnitType::Volume,
            Unit::CubicDecimeter => UnitType::Volume,
            Unit::CubicMeter => UnitType::Volume,
            Unit::CubicKilometer => UnitType::Volume,
            Unit::CubicInch => UnitType::Volume,
            Unit::CubicFoot => UnitType::Volume,
            Unit::CubicYard => UnitType::Volume,
            Unit::CubicMile => UnitType::Volume,
            Unit::Milliliter => UnitType::Volume,
            Unit::Centiliter => UnitType::Volume,
            Unit::Deciliter => UnitType::Volume,
            Unit::Liter => UnitType::Volume,
            Unit::Teaspoon => UnitType::Volume,
            Unit::Tablespoon => UnitType::Volume,
            Unit::FluidOunce => UnitType::Volume,
            Unit::Cup => UnitType::Volume,
            Unit::Pint => UnitType::Volume,
            Unit::Quart => UnitType::Volume,
            Unit::Gallon => UnitType::Volume,
            Unit::OilBarrel => UnitType::Volume,
            Unit::Milligram => UnitType::Mass,
            Unit::Gram => UnitType::Mass,
            Unit::Hectogram => UnitType::Mass,
            Unit::Kilogram => UnitType::Mass,
            Unit::MetricTon => UnitType::Mass,
            Unit::Ounce => UnitType::Mass,
            Unit::Pound => UnitType::Mass,
            Unit::ShortTon => UnitType::Mass,
            Unit::LongTon => UnitType::Mass,
            Unit::Bit => UnitType::DigitalStorage,
            Unit::Kilobit => UnitType::DigitalStorage,
            Unit::Megabit => UnitType::DigitalStorage,
            Unit::Gigabit => UnitType::DigitalStorage,
            Unit::Terabit => UnitType::DigitalStorage,
            Unit::Petabit => UnitType::DigitalStorage,
            Unit::Exabit => UnitType::DigitalStorage,
            Unit::Zettabit => UnitType::DigitalStorage,
            Unit::Yottabit => UnitType::DigitalStorage,
            Unit::Kibibit => UnitType::DigitalStorage,
            Unit::Mebibit => UnitType::DigitalStorage,
            Unit::Gibibit => UnitType::DigitalStorage,
            Unit::Tebibit => UnitType::DigitalStorage,
            Unit::Pebibit => UnitType::DigitalStorage,
            Unit::Exbibit => UnitType::DigitalStorage,
            Unit::Zebibit => UnitType::DigitalStorage,
            Unit::Yobibit => UnitType::DigitalStorage,
            Unit::Byte => UnitType::DigitalStorage,
            Unit::Kilobyte => UnitType::DigitalStorage,
            Unit::Megabyte => UnitType::DigitalStorage,
            Unit::Gigabyte => UnitType::DigitalStorage,
            Unit::Terabyte => UnitType::DigitalStorage,
            Unit::Petabyte => UnitType::DigitalStorage,
            Unit::Exabyte => UnitType::DigitalStorage,
            Unit::Zettabyte => UnitType::DigitalStorage,
            Unit::Yottabyte => UnitType::DigitalStorage,
            Unit::Kibibyte => UnitType::DigitalStorage,
            Unit::Mebibyte => UnitType::DigitalStorage,
            Unit::Gibibyte => UnitType::DigitalStorage,
            Unit::Tebibyte => UnitType::DigitalStorage,
            Unit::Pebibyte => UnitType::DigitalStorage,
            Unit::Exbibyte => UnitType::DigitalStorage,
            Unit::Zebibyte => UnitType::DigitalStorage,
            Unit::Yobibyte => UnitType::DigitalStorage,
            Unit::Millijoule => UnitType::Energy,
            Unit::Joule => UnitType::Energy,
            Unit::NewtonMeter => UnitType::Energy,
            Unit::Kilojoule => UnitType::Energy,
            Unit::Megajoule => UnitType::Energy,
            Unit::Gigajoule => UnitType::Energy,
            Unit::Terajoule => UnitType::Energy,
            Unit::Calorie => UnitType::Energy,
            Unit::KiloCalorie => UnitType::Energy,
            Unit::BritishThermalUnit => UnitType::Energy,
            Unit::WattHour => UnitType::Energy,
            Unit::KilowattHour => UnitType::Energy,
            Unit::MegawattHour => UnitType::Energy,
            Unit::GigawattHour => UnitType::Energy,
            Unit::TerawattHour => UnitType::Energy,
            Unit::PetawattHour => UnitType::Energy,
            Unit::Milliwatt => UnitType::Power,
            Unit::Watt => UnitType::Power,
            Unit::Kilowatt => UnitType::Power,
            Unit::Megawatt => UnitType::Power,
            Unit::Gigawatt => UnitType::Power,
            Unit::Terawatt => UnitType::Power,
            Unit::Petawatt => UnitType::Power,
            Unit::BritishThermalUnitsPerMinute => UnitType::Power,
            Unit::BritishThermalUnitsPerHour => UnitType::Power,
            Unit::Horsepower => UnitType::Power,
            Unit::MetricHorsepower => UnitType::Power,
            Unit::Pascal => UnitType::Pressure,
            Unit::Kilopascal => UnitType::Pressure,
            Unit::Atmosphere => UnitType::Pressure,
            Unit::Millibar => UnitType::Pressure,
            Unit::Bar => UnitType::Pressure,
            Unit::InchOfMercury => UnitType::Pressure,
            Unit::PoundsPerSquareInch => UnitType::Pressure,
            Unit::Torr => UnitType::Pressure,
            Unit::KilometersPerHour => UnitType::Speed,
            Unit::MetersPerSecond => UnitType::Speed,
            Unit::MilesPerHour => UnitType::Speed,
            Unit::FeetPerSecond => UnitType::Speed,
            Unit::Knot => UnitType::Speed,
            Unit::Kelvin => UnitType::Temperature,
            Unit::Celcius => UnitType::Temperature,
            Unit::Fahrenheit => UnitType::Temperature,
        }
    }

    /// This unit's weight as a decimal value.
    pub fn weight(&self) -> (w: d128)
        ensures
            w == self.spec_weight(),
    {
        match self {
            Unit::NoUnit => parse_dec("1"),
            Unit::Nanosecond => parse_dec("1"),
            Unit::Microsecond => parse_dec("1000"),
            Unit::Millisecond => parse_dec("1000000"),
            Unit::Second => parse_dec("1000000000"),
            Unit::Minute => parse_dec("60000000000"),
            Unit::Hour => parse_dec("3600000000000"),
            Unit::Day => parse_dec("86400000000000"),
            Unit::Week => parse_dec("604800000000000"),
            Unit::Month => parse_dec("2629746000000000"),
            Unit::Quarter => parse_dec("7889238000000000"),
            Unit::Year => parse_dec("31556952000000000"),
            Unit::Decade => parse_dec("315569520000000000"),
            Unit::Century => parse_dec("3155695200000000000"),
            Unit::Millenium => parse_dec("31556952000000000000"),
            Unit::Millimeter => parse_dec("1"),
            Unit::Centimeter => parse_dec("10"),
            Unit::Decimeter => parse_dec("100"),
            Unit::Meter => parse_dec("1000"),
            Unit::Kilometer => parse_dec("1000000"),
            Unit::Inch => parse_dec("25.4"),
            Unit::Foot => parse_dec("304.8"),
            Unit::Yard => parse_dec("914.4"),
            Unit::Mile => parse_dec("1609344"),
            Unit::NauticalMile => parse_dec("1852000"),
            Unit::LightYear => parse_dec("9460730472580800000"),
            Unit::LightSecond => parse_dec("299792458000"),
            Unit::SquareMillimeter => parse_dec("1"),
            Unit::SquareCentimeter => parse_dec("100"),
            Unit::SquareDecimeter => parse_dec("10000"),
            Unit::SquareMeter => parse_dec("1000000"),
            Unit::SquareKilometer => parse_dec("1000000000000"),
            Unit::SquareInch => parse_dec("645.16"),
            Unit::SquareFoot => parse_dec("92903.04"),
            Unit::SquareYard => parse_dec("836127.36"),
            Unit::SquareMile => parse_dec("2589988110336.00"),
            Unit::Are => parse_dec("100000000"),
            Unit::Decare => parse_dec("1000000000"),
            Unit::Hectare => parse_dec("10000000000"),
            Unit::Acre => parse_dec("4046856422.40"),
            Unit::CubicMillimeter => parse_dec("1"),
            Unit::CubicCentimeter => parse_dec("1000"),
            Unit::CubicDecimeter => parse_dec("1000000"),
            Unit::CubicMeter => parse_dec("1000000000"),
            Unit::CubicKilometer => parse_dec("1000000000000000000"),
            Unit::CubicInch => parse_dec("16387.064"),
            Unit::CubicFoot => parse_dec("28316846.592"),
            Unit::CubicYard => parse_dec("764554857.984"),
            Unit::CubicMile => parse_dec("4168181825440579584"),
            Unit::Milliliter => parse_dec("1000"),
            Unit::Centiliter => parse_dec("10000"),
            Unit::Deciliter => parse_dec("100000"),
            Unit::Liter => parse_dec("1000000"),
            Unit::Teaspoon => parse_dec("4928.92159375"),
            Unit::Tablespoon => parse_dec("14786.76478125"),
            Unit::FluidOunce => parse_dec("29573.5295625"),
            Unit::Cup => parse_dec("236588.2365"),
            Unit::Pint => parse_dec("473176.473"),
            Unit::Quart => parse_dec("946352.946"),
            Unit::Gallon => parse_dec("3785411.784"),
            Unit::OilBarrel => parse_dec("158987294.928"),
            Unit::Milligram => parse_dec("0.001"),
            Unit::Gram => parse_dec("1"),
            Unit::Hectogram => parse_dec("100"),
            Unit::Kilogram => parse_dec("1000"),
            Unit::MetricTon => parse_dec("1000000"),
            Unit::Ounce => parse_dec("28.349523125"),
            Unit::Pound => parse_dec("453.59237"),
            Unit::ShortTon => parse_dec("907184.74"),
            Unit::LongTon => parse_dec("1016046.9088"),
            Unit::Bit => parse_dec("1"),
            Unit::Kilobit => parse_dec("1000"),
            Unit::Megabit => parse_dec("1000000"),
            Unit::Gigabit => parse_dec("1000000000"),
            Unit::Terabit => parse_dec("1000000000000"),
            Unit::Petabit => parse_dec("1000000000000000"),
            Unit::Exabit => parse_dec("1000000000000000000"),
            Unit::Zettabit => parse_dec("1000000000000000000000"),
            Unit::Yottabit => parse_dec("1000000000000000000000000"),
            Unit::Kibibit => parse_dec("1024"),
            Unit::Mebibit => parse_dec("1048576"),
            Unit::Gibibit => parse_dec("1073741824"),
            Unit::Tebibit => parse_dec("1099511627776"),
            Unit::Pebibit => parse_dec("1125899906842624"),
            Unit::Exbibit => parse_dec("1152921504606846976"),
            Unit::Zebibit => parse_dec("1180591620717411303424"),
            Unit::Yobibit => parse_dec("1208925819614629174706176"),
            Unit::Byte => parse_dec("8"),
            Unit::Kilobyte => parse_dec("8000"),
            Unit::Megabyte => parse_dec("8000000"),
            Unit::Gigabyte => parse_dec("8000000000"),
            Unit::Terabyte => parse_dec("8000000000000"),
            Unit::Petabyte => parse_dec("8000000000000000"),
            Unit::Exabyte => parse_dec("8000000000000000000"),
            Unit::Zettabyte => parse_dec("8000000000000000000000"),
            Unit::Yottabyte => parse_dec("8000000000000000000000000"),
            Unit::Kibibyte => parse_dec("8192"),
            Unit::Mebibyte => parse_dec("8388608"),
            Unit::Gibibyte => parse_dec("8589934592"),
            Unit::Tebibyte => parse_dec("8796093022208"),
            Unit::Pebibyte => parse_dec("9007199254740992"),
            Unit::Exbibyte => parse_dec("9223372036854775808"),
            Unit::Zebibyte => parse_dec("9444732965739290427392"),
            Unit::Yobibyte => parse_dec("9671406556917033397649408"),
            Unit::Millijoule => parse_dec("0.001"),
            Unit::Joule => parse_dec("1"),
            Unit::NewtonMeter => parse_dec("1"),
            Unit::Kilojoule => parse_dec("1000"),
            Unit::Megajoule => parse_dec("1000000"),
            Unit::Gigajoule => parse_dec("1000000000"),
            Unit::Terajoule => parse_dec("1000000000000"),
            Unit::Calorie => parse_dec("4.1868"),
            Unit::KiloCalorie => parse_dec("4186.8"),
            Unit::BritishThermalUnit => parse_dec("1055.05585262"),
            Unit::WattHour => parse_dec("3600"),
            Unit::KilowattHour => parse_dec("3600000"),
            Unit::MegawattHour => parse_dec("3600000000"),
            Unit::GigawattHour => parse_dec("3600000000000"),
            Unit::TerawattHour => parse_dec("3600000000000000"),
            Unit::PetawattHour => parse_dec("3600000000000000000"),
            Unit::Milliwatt => parse_dec("0.001"),
            Unit::Watt => parse_dec("1"),
            Unit::Kilowatt => parse_dec("1000"),
            Unit::Megawatt => parse_dec("1000000"),
            Unit::Gigawatt => parse_dec("1000000000"),
            Unit::Terawatt => parse_dec("1000000000000"),
            Unit::Petawatt => parse_dec("1000000000000000"),
            Unit::BritishThermalUnitsPerMinute => parse_dec("0.0568690272188"),
            Unit::BritishThermalUnitsPerHour => parse_dec("3.412141633128"),
            Unit::Horsepower => parse_dec("745.69987158227022"),
            Unit::MetricHorsepower => parse_dec("735.49875"),
            Unit::Pascal => parse_dec("1"),
            Unit::Kilopascal => parse_dec("1000"),
            Unit::Atmosphere => parse_dec("101325"),
            Unit::Millibar => parse_dec("100"),
            Unit::Bar => parse_dec("100000"),
            Unit::InchOfMercury => parse_dec("3386.389"),
            Unit::PoundsPerSquareInch => parse_dec("6894.757293168361"),
            Unit::Torr => parse_dec("162.12"),
            Unit::KilometersPerHour => parse_dec("1"),
            Unit::MetersPerSecond => parse_dec("3.6"),
            Unit::MilesPerHour => parse_dec("1.609344"),
            Unit::FeetPerSecond => parse_dec("1.09728"),
            Unit::Knot => parse_dec("1.852"),
            Unit::Kelvin => parse_dec("0"),
            Unit::Celcius => parse_dec("0"),
            Unit::Fahrenheit => parse_dec("0"),
        }
    }

    /// This unit's weight as exact fixed-point parts: the integer part and
    /// the fractional part scaled by 10^14.
    pub fn weight_parts(&self) -> (r: (u128, u64))
        ensures
            r.0 as int == self.weight_whole(),
            r.1 as int == self.weight_frac(),
            r.1 < WEIGHT_FRAC_SCALE,
    {
        match self {
            Unit::NoUnit => (1u128, 0u64),
            Unit::Nanosecond => (1u128, 0u64),
            Unit::Microsecond => (1000u128, 0u64),
            Unit::Millisecond => (1000000u128, 0u64),
            Unit::Second => (1000000000u128, 0u64),
            Unit::Minute => (60000000000u128, 0u64),
            Unit::Hour => (3600000000000u128, 0u64),
            Unit::Day => (86400000000000u128, 0u64),
            Unit::Week => (604800000000000u128, 0u64),
            Unit::Month => (2629746000000000u128, 0u64),
            Unit::Quarter => (7889238000000000u128, 0u64),
            Unit::Year => (31556952000000000u128, 0u64),
            Unit::Decade => (315569520000000000u128, 0u64),
            Unit::Century => (3155695200000000000u128, 0u64),
            Unit::Millenium => (31556952000000000000u128, 0u64),
            Unit::Millimeter => (1u128, 0u64),
            Unit::Centimeter => (10u128, 0u64),
            Unit::Decimeter => (100u128, 0u64),
            Unit::Meter => (1000u128, 0u64),
            Unit::Kilometer => (1000000u128, 0u64),
            Unit::Inch => (25u128, 40000000000000u64),
            Unit::Foot => (304u128, 80000000000000u64),
            Unit::Yard => (914u128, 40000000000000u64),
            Unit::Mile => (1609344u128, 0u64),
            Unit::NauticalMile => (1852000u128, 0u64),
            Unit::LightYear => (9460730472580800000u128, 0u64),
            Unit::LightSecond => (299792458000u128, 0u64),
            Unit::SquareMillimeter => (1u128, 0u64),
            Unit::SquareCentimeter => (100u128, 0u64),
            Unit::SquareDecimeter => (10000u128, 0u64),
            Unit::SquareMeter => (1000000u128, 0u64),
            Unit::SquareKilometer => (1000000000000u128, 0u64),
            Unit::SquareInch => (645u128, 16000000000000u64),
            Unit::SquareFoot => (92903u128, 4000000000000u64),
            Unit::SquareYard => (836127u128, 36000000000000u64),
            Unit::SquareMile => (2589988110336u128, 0u64),
            Unit::Are => (100000000u128, 0u64),
            Unit::Decare => (1000000000u128, 0u64),
            Unit::Hectare => (10000000000u128, 0u64),
            Unit::Acre => (4046856422u128, 40000000000000u64),
            Unit::CubicMillimeter => (1u128, 0u64),
            Unit::CubicCentimeter => (1000u128, 0u64),
            Unit::CubicDecimeter => (1000000u128, 0u64),
            Unit::CubicMeter => (1000000000u128, 0u64),
            Unit::CubicKilometer => (1000000000000000000u128, 0u64),
            Unit::CubicInch => (16387u128, 6400000000000u64),
            Unit::CubicFoot => (28316846u128, 59200000000000u64),
            Unit::CubicYard => (764554857u128, 98400000000000u64),
            Unit::CubicMile => (4168181825440579584u128, 0u64),
            Unit::Milliliter => (1000u128, 0u64),
            Unit::Centiliter => (10000u128, 0u64),
            Unit::Deciliter => (100000u128, 0u64),
            Unit::Liter => (1000000u128, 0u64),
            Unit::Teaspoon => (4928u128, 92159375000000u64),
            Unit::Tablespoon => (14786u128, 76478125000000u64),
            Unit::FluidOunce => (29573u128, 52956250000000u64),
            Unit::Cup => (236588u128, 23650000000000u64),
            Unit::Pint => (473176u128, 47300000000000u64),
            Unit::Quart => (946352u128, 94600000000000u64),
            Unit::Gallon => (3785411u128, 78400000000000u64),
            Unit::OilBarrel => (158987294u128, 92800000000000u64),
            Unit::Milligram => (0u128, 100000000000u64),
            Unit::Gram => (1u128, 0u64),
            Unit::Hectogram => (100u128, 0u64),
            Unit::Kilogram => (1000u128, 0u64),
            Unit::MetricTon => (1000000u128, 0u64),
            Unit::Ounce => (28u128, 34952312500000u64),
            Unit::Pound => (453u128, 59237000000000u64),
            Unit::ShortTon => (907184u128, 74000000000000u64),
            Unit::LongTon => (1016046u128, 90880000000000u64),
            Unit::Bit => (1u128, 0u64),
            Unit::Kilobit => (1000u128, 0u64),
            Unit::Megabit => (1000000u128, 0u64),
            Unit::Gigabit => (1000000000u128, 0u64),
            Unit::Terabit => (1000000000000u128, 0u64),
            Unit::Petabit => (1000000000000000u128, 0u64),
            Unit::Exabit => (1000000000000000000u128, 0u64),
            Unit::Zettabit => (1000000000000000000000u128, 0u64),
            Unit::Yottabit => (1000000000000000000000000u128, 0u64),
            Unit::Kibibit => (1024u128, 0u64),
            Unit::Mebibit => (1048576u128, 0u64),
            Unit::Gibibit => (1073741824u128, 0u64),
            Unit::Tebibit => (1099511627776u128, 0u64),
            Unit::Pebibit => (1125899906842624u128, 0u64),
            Unit::Exbibit => (1152921504606846976u128, 0u64),
            Unit::Zebibit => (1180591620717411303424u128, 0u64),
            Unit::Yobibit => (1208925819614629174706176u128, 0u64),
            Unit::Byte => (8u128, 0u64),
            Unit::Kilobyte => (8000u128, 0u64),
            Unit::Megabyte => (8000000u128, 0u64),
            Unit::Gigabyte => (8000000000u128, 0u64),
            Unit::Terabyte => (8000000000000u128, 0u64),
            Unit::Petabyte => (8000000000000000u128, 0u64),
            Unit::Exabyte => (8000000000000000000u128, 0u64),
            Unit::Zettabyte => (8000000000000000000000u128, 0u64),
            Unit::Yottabyte => (8000000000000000000000000u128, 0u64),
            Unit::Kibibyte => (8192u128, 0u64),
            Unit::Mebibyte => (8388608u128, 0u64),
            Unit::Gibibyte => (8589934592u128, 0u64),
            Unit::Tebibyte => (8796093022208u128, 0u64),
            Unit::Pebibyte => (9007199254740992u128, 0u64),
            Unit::Exbibyte => (9223372036854775808u128, 0u64),
            Unit::Zebibyte => (9444732965739290427392u128, 0u64),
            Unit::Yobibyte => (9671406556917033397649408u128, 0u64),
            Unit::Millijoule => (0u128, 100000000000u64),
            Unit::Joule => (1u128, 0u64),
            Unit::NewtonMeter => (1u128, 0u64),
            Unit::Kilojoule => (1000u128, 0u64),
            Unit::Megajoule => (1000000u128, 0u64),
            Unit::Gigajoule => (1000000000u128, 0u64),
            Unit::Terajoule => (1000000000000u128, 0u64),
            Unit::Calorie => (4u128, 18680000000000u64),
            Unit::KiloCalorie => (4186u128, 80000000000000u64),
            Unit::BritishThermalUnit => (1055u128, 5585262000000u64),
            Unit::WattHour => (3600u128, 0u64),
            Unit::KilowattHour => (3600000u128, 0u64),
            Unit::MegawattHour => (3600000000u128, 0u64),
            Unit::GigawattHour => (3600000000000u128, 0u64),
            Unit::TerawattHour => (3600000000000000u128, 0u64),
            Unit::PetawattHour => (3600000000000000000u128, 0u64),
            Unit::Milliwatt => (0u128, 100000000000u64),
            Unit::Watt => (1u128, 0u64),
            Unit::Kilowatt => (1000u128, 0u64),
            Unit::Megawatt => (1000000u128, 0u64),
            Unit::Gigawatt => (1000000000u128, 0u64),
            Unit::Terawatt => (1000000000000u128, 0u64),
            Unit::Petawatt => (1000000000000000u128, 0u64),
            Unit::BritishThermalUnitsPerMinute => (0u128, 5686902721880u64),
            Unit::BritishThermalUnitsPerHour => (3u128, 41214163312800u64),
            Unit::Horsepower => (745u128, 69987158227022u64),
            Unit::MetricHorsepower => (735u128, 49875000000000u64),
            Unit::Pascal => (1u128, 0u64),
            Unit::Kilopascal => (1000u128, 0u64),
            Unit::Atmosphere => (101325u128, 0u64),
            Unit::Millibar => (100u128, 0u64),
            Unit::Bar => (100000u128, 0u64),
            Unit::InchOfMercury => (3386u128, 38900000000000u64),
            Unit::PoundsPerSquareInch => (6894u128, 75729316836100u64),
            Unit::Torr => (162u128, 12000000000000u64),
            Unit::KilometersPerHour => (1u128, 0u64),
            Unit::MetersPerSecond => (3u128, 60000000000000u64),
            Unit::MilesPerHour => (1u128, 60934400000000u64),
            Unit::FeetPerSecond => (1u128, 9728000000000u64),
            Unit::Knot => (1u128, 85200000000000u64),
            Unit::Kelvin => (0u128, 0u64),
            Unit::Celcius => (0u128, 0u64),
            Unit::Fahrenheit => (0u128, 0u64),
        }
    }
}

/// Whether two units have exactly equal weights (true synonyms such as Joule
/// and NewtonMeter, or the base units of two different categories).
pub fn weight_eq(a: &Unit, b: &Unit) -> (r: bool)
    ensures
        r == (a.weight_num() == b.weight_num()),
{
    let (aw, af) = a.weight_parts();
    let (bw, bf) = b.weight_parts();
    aw == bw && af == bf
}

/// Whether the first unit's weight strictly exceeds the second's.
pub fn weight_gt(a: &Unit, b: &Unit) -> (r: bool)
    ensures
        r == (a.weight_num() > b.weight_num()),
{
    let (aw, af) = a.weight_parts();
    let (bw, bf) = b.weight_parts();
    aw > bw || (aw == bw && af > bf)
}

} // verus!

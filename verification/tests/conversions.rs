use measures::{Measurement, NamedUnit, Ratio};

type Quantity = Measurement<f64>;

const UNITS: [NamedUnit; 24] = [
    NamedUnit::Inches,
    NamedUnit::Feet,
    NamedUnit::Centimeters,
    NamedUnit::Meters,
    NamedUnit::Kilometers,
    NamedUnit::Miles,
    NamedUnit::Nanoseconds,
    NamedUnit::Microseconds,
    NamedUnit::Milliseconds,
    NamedUnit::Seconds,
    NamedUnit::Minutes,
    NamedUnit::Hours,
    NamedUnit::SquareMeters,
    NamedUnit::MetersPerSecond,
    NamedUnit::KilometersPerHour,
    NamedUnit::MilesPerHour,
    NamedUnit::Mach,
    NamedUnit::Kilograms,
    NamedUnit::Grams,
    NamedUnit::Pounds,
    NamedUnit::Ampere,
    NamedUnit::Kelvin,
    NamedUnit::Moles,
    NamedUnit::Candela,
];

#[test]
fn a_ratio_is_its_numerator_over_its_denominator() {
    assert_eq!(Ratio { numerator: 1, denominator: 1000 }.value::<f64>(), 0.001);
    assert_eq!(Ratio { numerator: 3937008, denominator: 100000 }.value::<f64>(), 39.37008);
    assert_eq!(Ratio { numerator: 1, denominator: 60 }.value::<f64>(), 1.0 / 60.0);
    assert_eq!(Ratio { numerator: 7, denominator: 2 }.value::<f64>(), 3.5);
    assert_eq!(Ratio { numerator: 7, denominator: 2 }.value::<u64>(), 3);
    assert!(Ratio { numerator: 1, denominator: 0 }.value::<f64>().is_infinite());
}

#[test]
fn scales_as_decimal_numbers() {
    assert_eq!(NamedUnit::Inches.scale().value::<f64>(), 39.37008);
    assert_eq!(NamedUnit::Feet.scale().value::<f64>(), 3.28084);
    assert_eq!(NamedUnit::Centimeters.scale().value::<f64>(), 100.0);
    assert_eq!(NamedUnit::Meters.scale().value::<f64>(), 1.0);
    assert_eq!(NamedUnit::Kilometers.scale().value::<f64>(), 1.0 / 1000.0);
    assert_eq!(NamedUnit::Miles.scale().value::<f64>(), 1.0 / 1609.344);
    assert_eq!(NamedUnit::Nanoseconds.scale().value::<f64>(), 1000000000.0);
    assert_eq!(NamedUnit::Microseconds.scale().value::<f64>(), 1000000.0);
    assert_eq!(NamedUnit::Milliseconds.scale().value::<f64>(), 1000.0);
    assert_eq!(NamedUnit::Seconds.scale().value::<f64>(), 1.0);
    assert_eq!(NamedUnit::Minutes.scale().value::<f64>(), 1.0 / 60.0);
    assert_eq!(NamedUnit::Hours.scale().value::<f64>(), 1.0 / 3600.0);
    assert_eq!(NamedUnit::SquareMeters.scale().value::<f64>(), 1.0);
    assert_eq!(NamedUnit::MetersPerSecond.scale().value::<f64>(), 1.0);
    assert_eq!(NamedUnit::KilometersPerHour.scale().value::<f64>(), 3.6);
    assert_eq!(NamedUnit::MilesPerHour.scale().value::<f64>(), 2.236936);
    assert_eq!(NamedUnit::Mach.scale().value::<f64>(), 0.002939);
    assert_eq!(NamedUnit::Kilograms.scale().value::<f64>(), 1.0);
    assert_eq!(NamedUnit::Grams.scale().value::<f64>(), 1000.0);
    assert_eq!(NamedUnit::Pounds.scale().value::<f64>(), 2.204623);
    assert_eq!(NamedUnit::Ampere.scale().value::<f64>(), 1.0);
    assert_eq!(NamedUnit::Kelvin.scale().value::<f64>(), 1.0);
    assert_eq!(NamedUnit::Moles.scale().value::<f64>(), 1.0);
    assert_eq!(NamedUnit::Candela.scale().value::<f64>(), 1.0);
}

#[test]
fn a_value_is_divided_by_the_scale_on_the_way_in() {
    assert_eq!(Quantity::from_unit(1500.0, NamedUnit::Kilometers).get_meters(), 1500000.0);
    assert_eq!(Quantity::from_unit(3.0, NamedUnit::Milliseconds).get_seconds(), 0.003);
    assert_eq!(Quantity::from_unit(2.0, NamedUnit::Hours).get_seconds(), 7200.0);
    assert_eq!(Quantity::from_unit(1.0, NamedUnit::Feet).get_meters(), 0.3047999902464003);
    assert_eq!(Quantity::from_unit(1.0, NamedUnit::Inches).get_meters(), 0.025399999187200026);
    assert_eq!(Quantity::from_unit(5.0, NamedUnit::Miles).get_meters(), 8046.72);
    assert_eq!(Quantity::from_unit(1.0, NamedUnit::Mach).get_meters_per_second(), 340.25178632187817);
    assert_eq!(Quantity::from_unit(10.0, NamedUnit::Pounds).get_kilograms(), 4.535922921968971);
    assert_eq!(Quantity::from_unit(100.0, NamedUnit::KilometersPerHour).get_meters_per_second(), 27.77777777777778);
}

#[test]
fn a_magnitude_is_multiplied_by_the_scale_on_the_way_out() {
    assert_eq!(Quantity::meters(0.5).to_unit(NamedUnit::Centimeters), 50.0);
    assert_eq!(Quantity::seconds(0.5).to_unit(NamedUnit::Nanoseconds), 500000000.0);
    assert_eq!(Quantity::seconds(0.5).to_unit(NamedUnit::Microseconds), 500000.0);
    assert_eq!(Quantity::seconds(7200.0).to_unit(NamedUnit::Minutes), 120.0);
    assert_eq!(Quantity::meters(8046.72).to_unit(NamedUnit::Kilometers), 8.04672);
    assert_eq!(Quantity::meters(2.0).to_unit(NamedUnit::Feet), 6.56168);
    assert_eq!(Quantity::meters(2.0).to_unit(NamedUnit::Inches), 78.74016);
    assert_eq!(Quantity::kilograms(2.0).to_unit(NamedUnit::Pounds), 4.409246);
    assert_eq!(Quantity::kilograms(2.0).to_unit(NamedUnit::Grams), 2000.0);
    assert_eq!(
        Quantity::kilometers_per_hour(100.0).to_unit(NamedUnit::MilesPerHour),
        62.13711111111111
    );
}

#[test]
fn named_makers_agree_with_the_table() {
    let x = 12.5;
    assert_eq!(Quantity::inches(x), Quantity::from_unit(x, NamedUnit::Inches));
    assert_eq!(Quantity::feet(x), Quantity::from_unit(x, NamedUnit::Feet));
    assert_eq!(Quantity::centimeters(x), Quantity::from_unit(x, NamedUnit::Centimeters));
    assert_eq!(Quantity::meters(x), Quantity::from_unit(x, NamedUnit::Meters));
    assert_eq!(Quantity::kilometers(x), Quantity::from_unit(x, NamedUnit::Kilometers));
    assert_eq!(Quantity::miles(x), Quantity::from_unit(x, NamedUnit::Miles));
    assert_eq!(Quantity::nanoseconds(x), Quantity::from_unit(x, NamedUnit::Nanoseconds));
    assert_eq!(Quantity::microseconds(x), Quantity::from_unit(x, NamedUnit::Microseconds));
    assert_eq!(Quantity::milliseconds(x), Quantity::from_unit(x, NamedUnit::Milliseconds));
    assert_eq!(Quantity::seconds(x), Quantity::from_unit(x, NamedUnit::Seconds));
    assert_eq!(Quantity::minutes(x), Quantity::from_unit(x, NamedUnit::Minutes));
    assert_eq!(Quantity::hours(x), Quantity::from_unit(x, NamedUnit::Hours));
    assert_eq!(Quantity::square_meters(x), Quantity::from_unit(x, NamedUnit::SquareMeters));
    assert_eq!(Quantity::meter_per_second(x), Quantity::from_unit(x, NamedUnit::MetersPerSecond));
    assert_eq!(Quantity::kilometers_per_hour(x), Quantity::from_unit(x, NamedUnit::KilometersPerHour));
    assert_eq!(Quantity::miles_per_hour(x), Quantity::from_unit(x, NamedUnit::MilesPerHour));
    assert_eq!(Quantity::mach(x), Quantity::from_unit(x, NamedUnit::Mach));
    assert_eq!(Quantity::kilograms(x), Quantity::from_unit(x, NamedUnit::Kilograms));
    assert_eq!(Quantity::grams(x), Quantity::from_unit(x, NamedUnit::Grams));
    assert_eq!(Quantity::pounds(x), Quantity::from_unit(x, NamedUnit::Pounds));
    assert_eq!(Quantity::ampere(x), Quantity::from_unit(x, NamedUnit::Ampere));
    assert_eq!(Quantity::kelvin(x), Quantity::from_unit(x, NamedUnit::Kelvin));
    assert_eq!(Quantity::moles(x), Quantity::from_unit(x, NamedUnit::Moles));
    assert_eq!(Quantity::candela(x), Quantity::from_unit(x, NamedUnit::Candela));
}

#[test]
fn named_readers_agree_with_the_table() {
    let l = Quantity::meters(12.5);
    assert_eq!(l.get_inches(), l.to_unit(NamedUnit::Inches));
    assert_eq!(l.get_feet(), l.to_unit(NamedUnit::Feet));
    assert_eq!(l.get_centimeters(), l.to_unit(NamedUnit::Centimeters));
    assert_eq!(l.get_meters(), l.to_unit(NamedUnit::Meters));
    assert_eq!(l.get_kilometers(), l.to_unit(NamedUnit::Kilometers));
    assert_eq!(l.get_miles(), l.to_unit(NamedUnit::Miles));
    let t = Quantity::seconds(12.5);
    assert_eq!(t.get_nanoseconds(), t.to_unit(NamedUnit::Nanoseconds));
    assert_eq!(t.get_microseconds(), t.to_unit(NamedUnit::Microseconds));
    assert_eq!(t.get_milliseconds(), t.to_unit(NamedUnit::Milliseconds));
    assert_eq!(t.get_seconds(), t.to_unit(NamedUnit::Seconds));
    assert_eq!(t.get_minutes(), t.to_unit(NamedUnit::Minutes));
    assert_eq!(t.get_hours(), t.to_unit(NamedUnit::Hours));
    let a = Quantity::square_meters(12.5);
    assert_eq!(a.get_square_meters(), a.to_unit(NamedUnit::SquareMeters));
    let v = Quantity::meter_per_second(12.5);
    assert_eq!(v.get_meters_per_second(), v.to_unit(NamedUnit::MetersPerSecond));
    assert_eq!(v.get_kilometers_per_hour(), v.to_unit(NamedUnit::KilometersPerHour));
    assert_eq!(v.get_miles_per_hour(), v.to_unit(NamedUnit::MilesPerHour));
    assert_eq!(v.get_mach(), v.to_unit(NamedUnit::Mach));
    let m = Quantity::kilograms(12.5);
    assert_eq!(m.get_kilograms(), m.to_unit(NamedUnit::Kilograms));
    assert_eq!(m.get_grams(), m.to_unit(NamedUnit::Grams));
    assert_eq!(m.get_pounds(), m.to_unit(NamedUnit::Pounds));
    let i = Quantity::ampere(12.5);
    assert_eq!(i.get_ampere(), i.to_unit(NamedUnit::Ampere));
    let k = Quantity::kelvin(12.5);
    assert_eq!(k.get_kelvin(), k.to_unit(NamedUnit::Kelvin));
    let n = Quantity::moles(12.5);
    assert_eq!(n.get_moles(), n.to_unit(NamedUnit::Moles));
    let j = Quantity::candela(12.5);
    assert_eq!(j.get_candela(), j.to_unit(NamedUnit::Candela));
}

#[test]
fn every_unit_gives_back_what_it_was_given() {
    let values = [12.5, 0.032, 16200.0, 1.0, 7.0, 0.001, 123456.789, -4.75, 0.0];
    for unit in UNITS {
        for x in values {
            let back = Quantity::from_unit(x, unit).to_unit(unit);
            assert!((back - x).abs() <= 4.0 * f64::EPSILON * x.abs());
        }
    }
}

#[test]
fn canonical_units_keep_the_value_as_it_is() {
    let x = 0.1 + 0.2;
    assert_eq!(Quantity::meters(x).get_meters(), x);
    assert_eq!(Quantity::seconds(x).get_seconds(), x);
    assert_eq!(Quantity::kilograms(x).get_kilograms(), x);
    assert_eq!(Quantity::ampere(x).get_ampere(), x);
    assert_eq!(Quantity::kelvin(x).get_kelvin(), x);
    assert_eq!(Quantity::moles(x).get_moles(), x);
    assert_eq!(Quantity::candela(x).get_candela(), x);
    assert_eq!(Quantity::square_meters(x).get_square_meters(), x);
    assert_eq!(Quantity::meter_per_second(x).get_meters_per_second(), x);
}

#[test]
fn conversions_between_units_of_one_kind() {
    assert_eq!(Quantity::hours(2.0).get_minutes(), 120.0);
    assert_eq!(Quantity::minutes(3.0).get_seconds(), 180.0);
    assert!((Quantity::miles(1.0).get_kilometers() - 1.609344).abs() < 1e-12);
    assert!((Quantity::feet(3.28084).get_meters() - 1.0).abs() < 1e-12);
    assert!((Quantity::kilometers_per_hour(3.6).get_meters_per_second() - 1.0).abs() < 1e-12);
    assert!((Quantity::pounds(2.204623).get_kilograms() - 1.0).abs() < 1e-12);
    assert!((Quantity::miles_per_hour(2.236936).get_meters_per_second() - 1.0).abs() < 1e-12);
}

#[test]
fn a_hundred_centimeters_are_a_meter() {
    assert_eq!(Quantity::centimeters(100.0).get_meters(), 1.0);
    assert_eq!(Quantity::meters(1.0).get_centimeters(), 100.0);
    let sum = measures::add_lengths(Quantity::centimeters(50.0), Quantity::centimeters(50.0));
    assert!((sum.get_meters() - 1.0).abs() <= 1e-9);
    assert_eq!(Quantity::centimeters(2.5).get_meters(), 0.025);
    assert!((Quantity::inches(1.0).get_centimeters() - 2.54).abs() < 1e-6);
}

#[test]
fn a_thousand_grams_are_a_kilogram() {
    assert_eq!(Quantity::grams(1000.0).get_kilograms(), 1.0);
    assert_eq!(Quantity::kilograms(2.0).get_grams(), 2000.0);
    assert_eq!(Quantity::grams(1500.0).get_kilograms(), 1.5);
    assert!((Quantity::pounds(1.0).get_grams() - 453.59237).abs() < 1e-3);
}

#[test]
fn the_units_of_speed_agree_with_those_of_length_and_time() {
    let mile_an_hour = Quantity::miles(1.0) / Quantity::hours(1.0);
    assert_eq!(mile_an_hour.get_meters_per_second(), 0.44704);
    assert!((mile_an_hour.get_miles_per_hour() - 1.0).abs() <= 1e-5);
    assert_eq!(mile_an_hour.get_miles_per_hour(), 0.99999986944);
    let kilometer_an_hour = Quantity::kilometers(1.0) / Quantity::hours(1.0);
    assert!((kilometer_an_hour.get_kilometers_per_hour() - 1.0).abs() <= 1e-12);
    let meter_a_second = Quantity::meters(1.0) / Quantity::seconds(1.0);
    assert_eq!(meter_a_second.get_meters_per_second(), 1.0);
    let fast = Quantity::miles(60.0) / Quantity::minutes(60.0);
    assert!((fast.get_miles_per_hour() - 60.0).abs() <= 60.0 * 1e-5);
    assert!((fast.get_kilometers_per_hour() - 96.56064).abs() <= 1e-9);
}

#[test]
fn the_area_of_a_square_agrees_with_its_side() {
    let side = Quantity::centimeters(200.0);
    assert_eq!((side * side).get_square_meters(), 4.0);
}

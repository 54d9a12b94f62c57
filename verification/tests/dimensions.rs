use measures::{Kind, Measurement, NamedUnit, Ratio, UnitType};

type Quantity = Measurement<f64>;

const KINDS: [Kind; 9] = [
    Kind::Time,
    Kind::Length,
    Kind::Mass,
    Kind::Current,
    Kind::Temperature,
    Kind::Amount,
    Kind::Luminosity,
    Kind::Area,
    Kind::Speed,
];

const UNITS: [NamedUnit; 24] = [
    NamedUnit::Inches,
    NamedUnit::Feet,
    NamedUnit::Centimeters,
    NamedUnit::Meters,
    NamedUnit::Kilometers,
    NamedUnit::Miles,
    NamedUnit::Nanoseconds,
    NamedUnit::Microseconds,
    NamedUnit::Milliseconds,
    NamedUnit::Seconds,
    NamedUnit::Minutes,
    NamedUnit::Hours,
    NamedUnit::SquareMeters,
    NamedUnit::MetersPerSecond,
    NamedUnit::KilometersPerHour,
    NamedUnit::MilesPerHour,
    NamedUnit::Mach,
    NamedUnit::Kilograms,
    NamedUnit::Grams,
    NamedUnit::Pounds,
    NamedUnit::Ampere,
    NamedUnit::Kelvin,
    NamedUnit::Moles,
    NamedUnit::Candela,
];

fn exponents(u: UnitType) -> [i32; 7] {
    [u.time, u.length, u.mass, u.current, u.temperature, u.amount, u.luminosity]
}

#[test]
fn base_kinds_have_a_single_one() {
    assert_eq!(exponents(Kind::Time.unit()), [1, 0, 0, 0, 0, 0, 0]);
    assert_eq!(exponents(Kind::Length.unit()), [0, 1, 0, 0, 0, 0, 0]);
    assert_eq!(exponents(Kind::Mass.unit()), [0, 0, 1, 0, 0, 0, 0]);
    assert_eq!(exponents(Kind::Current.unit()), [0, 0, 0, 1, 0, 0, 0]);
    assert_eq!(exponents(Kind::Temperature.unit()), [0, 0, 0, 0, 1, 0, 0]);
    assert_eq!(exponents(Kind::Amount.unit()), [0, 0, 0, 0, 0, 1, 0]);
    assert_eq!(exponents(Kind::Luminosity.unit()), [0, 0, 0, 0, 0, 0, 1]);
}

#[test]
fn derived_kinds_have_their_vectors() {
    assert_eq!(exponents(Kind::Area.unit()), [0, 2, 0, 0, 0, 0, 0]);
    assert_eq!(exponents(Kind::Speed.unit()), [-1, 1, 0, 0, 0, 0, 0]);
}

#[test]
fn length_squared_has_the_vector_of_area() {
    let product = Kind::Length.unit() + Kind::Length.unit();
    assert_eq!(exponents(product), [0, 2, 0, 0, 0, 0, 0]);
    assert_eq!(product, Kind::Area.unit());

    let measured = Quantity::meters(3.0) * Quantity::feet(2.0);
    assert_eq!(exponents(measured.unit()), [0, 2, 0, 0, 0, 0, 0]);
}

#[test]
fn length_per_time_has_the_vector_of_speed() {
    let quotient = Kind::Length.unit() - Kind::Time.unit();
    assert_eq!(exponents(quotient), [-1, 1, 0, 0, 0, 0, 0]);
    assert_eq!(quotient, Kind::Speed.unit());

    let measured = Quantity::miles(3.0) / Quantity::hours(2.0);
    assert_eq!(exponents(measured.unit()), [-1, 1, 0, 0, 0, 0, 0]);
}

#[test]
fn exponents_add_and_subtract_componentwise() {
    let a = UnitType { time: -2, length: 1, mass: 1, current: 0, temperature: 4, amount: -7, luminosity: 3 };
    let b = UnitType { time: 5, length: -1, mass: 2, current: 9, temperature: -4, amount: 1, luminosity: 0 };
    assert_eq!(exponents(a + b), [3, 0, 3, 9, 0, -6, 3]);
    assert_eq!(exponents(a - b), [-7, 2, -1, -9, 8, -8, 3]);
    assert_eq!(exponents(b - a), [7, -2, 1, 9, -8, 8, -3]);
}

#[test]
fn exponents_reach_the_ends_of_their_range() {
    let high = UnitType { time: i32::MAX - 1, length: 0, mass: 0, current: 0, temperature: 0, amount: 0, luminosity: i32::MIN + 1 };
    let step = UnitType { time: 1, length: 0, mass: 0, current: 0, temperature: 0, amount: 0, luminosity: -1 };
    assert_eq!(exponents(high + step), [i32::MAX, 0, 0, 0, 0, 0, i32::MIN]);
    assert_eq!(exponents((high + step) - step), exponents(high));
}

#[test]
fn sum_then_difference_gives_back_the_vector() {
    for a in KINDS {
        for b in KINDS {
            assert_eq!((a.unit() + b.unit()) - b.unit(), a.unit());
            assert_eq!((a.unit() - b.unit()) + b.unit(), a.unit());
            assert_eq!(a.unit() + b.unit(), b.unit() + a.unit());
        }
    }
}

#[test]
fn vectors_are_equal_when_all_exponents_agree() {
    let a = UnitType { time: 1, length: 2, mass: 3, current: 4, temperature: 5, amount: 6, luminosity: 7 };
    let same = UnitType { time: 1, length: 2, mass: 3, current: 4, temperature: 5, amount: 6, luminosity: 7 };
    assert_eq!(a, same);
    assert_ne!(a, UnitType { time: 0, ..a });
    assert_ne!(a, UnitType { length: 0, ..a });
    assert_ne!(a, UnitType { mass: 0, ..a });
    assert_ne!(a, UnitType { current: 0, ..a });
    assert_ne!(a, UnitType { temperature: 0, ..a });
    assert_ne!(a, UnitType { amount: 0, ..a });
    assert_ne!(a, UnitType { luminosity: 0, ..a });
    assert_ne!(Kind::Temperature.unit(), Kind::Amount.unit());
}

#[test]
fn dimensions_beyond_the_named_kinds_arise_from_arithmetic() {
    let acceleration = Quantity::meters(9.0) / Quantity::seconds(3.0) / Quantity::seconds(3.0);
    assert_eq!(exponents(acceleration.unit()), [-2, 1, 0, 0, 0, 0, 0]);
    let force = acceleration * Quantity::kilograms(2.0);
    assert_eq!(exponents(force.unit()), [-2, 1, 1, 0, 0, 0, 0]);
    let ratio = Quantity::meters(9.0) / Quantity::meters(3.0);
    assert_eq!(exponents(ratio.unit()), [0, 0, 0, 0, 0, 0, 0]);
    let back = force / Quantity::kilograms(2.0) * Quantity::seconds(1.0);
    assert_eq!(back.unit(), Kind::Speed.unit());
    assert_eq!(back.get_meters_per_second(), 1.0);
}

#[test]
fn every_unit_has_its_kind() {
    let kinds = [
        Kind::Length, Kind::Length, Kind::Length, Kind::Length, Kind::Length, Kind::Length,
        Kind::Time, Kind::Time, Kind::Time, Kind::Time, Kind::Time, Kind::Time,
        Kind::Area,
        Kind::Speed, Kind::Speed, Kind::Speed, Kind::Speed,
        Kind::Mass, Kind::Mass, Kind::Mass,
        Kind::Current, Kind::Temperature, Kind::Amount, Kind::Luminosity,
    ];
    for (unit, kind) in UNITS.iter().zip(kinds.iter()) {
        assert_eq!(unit.kind(), *kind);
    }
}

#[test]
fn every_unit_has_its_scale() {
    let scales: [(u32, u32); 24] = [
        (3937008, 100000), (328084, 100000), (100, 1), (1, 1), (1, 1000), (1000, 1609344),
        (1000000000, 1), (1000000, 1), (1000, 1), (1, 1), (1, 60), (1, 3600),
        (1, 1),
        (1, 1), (36, 10), (2236936, 1000000), (2939, 1000000),
        (1, 1), (1000, 1), (2204623, 1000000),
        (1, 1), (1, 1), (1, 1), (1, 1),
    ];
    for (unit, (numerator, denominator)) in UNITS.iter().zip(scales.iter()) {
        assert_eq!(unit.scale(), Ratio { numerator: *numerator, denominator: *denominator });
        assert!(unit.scale().numerator > 0);
        assert!(unit.scale().denominator > 0);
    }
}

#[test]
fn every_kind_has_a_canonical_unit_of_scale_one() {
    let canonical = [
        NamedUnit::Seconds, NamedUnit::Meters, NamedUnit::Kilograms, NamedUnit::Ampere,
        NamedUnit::Kelvin, NamedUnit::Moles, NamedUnit::Candela,
        NamedUnit::SquareMeters, NamedUnit::MetersPerSecond,
    ];
    for (kind, unit) in KINDS.iter().zip(canonical.iter()) {
        assert_eq!(NamedUnit::canonical(*kind), *unit);
        assert_eq!(unit.kind(), *kind);
        assert_eq!(unit.scale(), Ratio { numerator: 1, denominator: 1 });
        assert_eq!(unit.scale().value::<f64>(), 1.0);
    }
}

#[test]
fn a_measurement_has_the_dimension_of_its_unit() {
    for unit in UNITS {
        let m = Quantity::from_unit(1.5, unit);
        assert_eq!(m.unit(), unit.kind().unit());
    }
}

#[test]
fn checked_sum_and_difference_agree_with_the_operators() {
    for a in KINDS {
        for b in KINDS {
            assert_eq!(a.unit().checked_add(b.unit()), Some(a.unit() + b.unit()));
            assert_eq!(a.unit().checked_sub(b.unit()), Some(a.unit() - b.unit()));
        }
    }
    assert_eq!(Kind::Length.unit().checked_add(Kind::Length.unit()), Some(Kind::Area.unit()));
    assert_eq!(Kind::Length.unit().checked_sub(Kind::Time.unit()), Some(Kind::Speed.unit()));
}

#[test]
fn checked_sum_and_difference_stop_at_the_ends_of_the_range() {
    let zero = UnitType { time: 0, length: 0, mass: 0, current: 0, temperature: 0, amount: 0, luminosity: 0 };
    let one = [
        UnitType { time: 1, ..zero },
        UnitType { length: 1, ..zero },
        UnitType { mass: 1, ..zero },
        UnitType { current: 1, ..zero },
        UnitType { temperature: 1, ..zero },
        UnitType { amount: 1, ..zero },
        UnitType { luminosity: 1, ..zero },
    ];
    let top = [
        UnitType { time: i32::MAX, ..zero },
        UnitType { length: i32::MAX, ..zero },
        UnitType { mass: i32::MAX, ..zero },
        UnitType { current: i32::MAX, ..zero },
        UnitType { temperature: i32::MAX, ..zero },
        UnitType { amount: i32::MAX, ..zero },
        UnitType { luminosity: i32::MAX, ..zero },
    ];
    let bottom = [
        UnitType { time: i32::MIN, ..zero },
        UnitType { length: i32::MIN, ..zero },
        UnitType { mass: i32::MIN, ..zero },
        UnitType { current: i32::MIN, ..zero },
        UnitType { temperature: i32::MIN, ..zero },
        UnitType { amount: i32::MIN, ..zero },
        UnitType { luminosity: i32::MIN, ..zero },
    ];
    for i in 0..7 {
        assert_eq!(top[i].checked_add(one[i]), None);
        assert_eq!(bottom[i].checked_sub(one[i]), None);
        assert_eq!(top[i].checked_sub(one[i]).map(exponents).map(|e| e[i]), Some(i32::MAX - 1));
        assert_eq!(bottom[i].checked_add(one[i]).map(exponents).map(|e| e[i]), Some(i32::MIN + 1));
        assert_eq!(top[i].checked_add(zero), Some(top[i]));
        assert_eq!(zero.checked_sub(bottom[i]), None);
        assert_eq!(zero.checked_sub(top[i]).map(exponents).map(|e| e[i]), Some(-i32::MAX));
        for j in 0..7 {
            if i != j {
                assert!(top[i].checked_add(one[j]).is_some());
            }
        }
    }
}

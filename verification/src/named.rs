//! The named units: for each, its kind and its scale against the canonical unit.

use crate::kind::Kind;
use vstd::prelude::*;

verus! {

/// A scale factor, held exactly as a quotient of two whole numbers.
///
/// It counts how many of a named unit make one canonical unit: 1000 over 1 for
/// the millisecond, 1 over 60 for the minute.
#[derive(Clone, Copy, Debug, PartialEq, Eq, Structural)]
pub struct Ratio {
    pub numerator: u32,
    pub denominator: u32,
}

/// A unit with a name. Each belongs to one kind of quantity and has one fixed scale.
#[derive(Clone, Copy, Debug, PartialEq, Eq, Structural)]
pub enum NamedUnit {
    /// Length: 39.37008 to the meter.
    Inches,
    /// Length: 3.28084 to the meter.
    Feet,
    /// Length: 100 to the meter.
    Centimeters,
    /// Length: the canonical unit of length.
    Meters,
    /// Length: a thousandth to the meter.
    Kilometers,
    /// Length: one to 1609.344 meters.
    Miles,
    /// Time: a thousand million to the second.
    Nanoseconds,
    /// Time: a million to the second.
    Microseconds,
    /// Time: a thousand to the second.
    Milliseconds,
    /// Time: the canonical unit of time.
    Seconds,
    /// Time: a sixtieth to the second.
    Minutes,
    /// Time: one to 3600 seconds.
    Hours,
    /// Area: the canonical unit of area.
    SquareMeters,
    /// Speed: the canonical unit of speed.
    MetersPerSecond,
    /// Speed: 3.6 to the meter per second.
    KilometersPerHour,
    /// Speed: 2.236936 to the meter per second.
    MilesPerHour,
    /// Speed: 0.002939 to the meter per second.
    Mach,
    /// Mass: the canonical unit of mass.
    Kilograms,
    /// Mass: 1000 to the kilogram.
    Grams,
    /// Mass: 2.204623 to the kilogram.
    Pounds,
    /// Current: the canonical unit of current.
    Ampere,
    /// Temperature: the canonical unit of temperature.
    Kelvin,
    /// Amount: the canonical unit of amount.
    Moles,
    /// Luminosity: the canonical unit of luminosity.
    Candela,
}

impl NamedUnit {
    /// The kind of quantity that this unit measures.
    pub open spec fn spec_kind(self) -> Kind {
        match self {
            NamedUnit::Inches => Kind::Length,
            NamedUnit::Feet => Kind::Length,
            NamedUnit::Centimeters => Kind::Length,
            NamedUnit::Meters => Kind::Length,
            NamedUnit::Kilometers => Kind::Length,
            NamedUnit::Miles => Kind::Length,
            NamedUnit::Nanoseconds => Kind::Time,
            NamedUnit::Microseconds => Kind::Time,
            NamedUnit::Milliseconds => Kind::Time,
            NamedUnit::Seconds => Kind::Time,
            NamedUnit::Minutes => Kind::Time,
            NamedUnit::Hours => Kind::Time,
            NamedUnit::SquareMeters => Kind::Area,
            NamedUnit::MetersPerSecond => Kind::Speed,
            NamedUnit::KilometersPerHour => Kind::Speed,
            NamedUnit::MilesPerHour => Kind::Speed,
            NamedUnit::Mach => Kind::Speed,
            NamedUnit::Kilograms => Kind::Mass,
            NamedUnit::Grams => Kind::Mass,
            NamedUnit::Pounds => Kind::Mass,
            NamedUnit::Ampere => Kind::Current,
            NamedUnit::Kelvin => Kind::Temperature,
            NamedUnit::Moles => Kind::Amount,
            NamedUnit::Candela => Kind::Luminosity,
        }
    }

    /// The kind of quantity that this unit measures.
    #[verifier::when_used_as_spec(spec_kind)]
    pub fn kind(self) -> (k: Kind)
        ensures
            k == self.spec_kind(),
    {
        match self {
            NamedUnit::Inches => Kind::Length,
            NamedUnit::Feet => Kind::Length,
            NamedUnit::Centimeters => Kind::Length,
            NamedUnit::Meters => Kind::Length,
            NamedUnit::Kilometers => Kind::Length,
            NamedUnit::Miles => Kind::Length,
            NamedUnit::Nanoseconds => Kind::Time,
            NamedUnit::Microseconds => Kind::Time,
            NamedUnit::Milliseconds => Kind::Time,
            NamedUnit::Seconds => Kind::Time,
            NamedUnit::Minutes => Kind::Time,
            NamedUnit::Hours => Kind::Time,
            NamedUnit::SquareMeters => Kind::Area,
            NamedUnit::MetersPerSecond => Kind::Speed,
            NamedUnit::KilometersPerHour => Kind::Speed,
            NamedUnit::MilesPerHour => Kind::Speed,
            NamedUnit::Mach => Kind::Speed,
            NamedUnit::Kilograms => Kind::Mass,
            NamedUnit::Grams => Kind::Mass,
            NamedUnit::Pounds => Kind::Mass,
            NamedUnit::Ampere => Kind::Current,
            NamedUnit::Kelvin => Kind::Temperature,
            NamedUnit::Moles => Kind::Amount,
            NamedUnit::Candela => Kind::Luminosity,
        }
    }

    /// How many of this unit make one canonical unit of its kind.
    #[verifier::inline]
    pub open spec fn spec_scale(self) -> Ratio {
        match self {
            NamedUnit::Inches => Ratio { numerator: 3937008, denominator: 100000 },
            NamedUnit::Feet => Ratio { numerator: 328084, denominator: 100000 },
            NamedUnit::Centimeters => Ratio { numerator: 100, denominator: 1 },
            NamedUnit::Meters => Ratio { numerator: 1, denominator: 1 },
            NamedUnit::Kilometers => Ratio { numerator: 1, denominator: 1000 },
            NamedUnit::Miles => Ratio { numerator: 1000, denominator: 1609344 },
            NamedUnit::Nanoseconds => Ratio { numerator: 1000000000, denominator: 1 },
            NamedUnit::Microseconds => Ratio { numerator: 1000000, denominator: 1 },
            NamedUnit::Milliseconds => Ratio { numerator: 1000, denominator: 1 },
            NamedUnit::Seconds => Ratio { numerator: 1, denominator: 1 },
            NamedUnit::Minutes => Ratio { numerator: 1, denominator: 60 },
            NamedUnit::Hours => Ratio { numerator: 1, denominator: 3600 },
            NamedUnit::SquareMeters => Ratio { numerator: 1, denominator: 1 },
            NamedUnit::MetersPerSecond => Ratio { numerator: 1, denominator: 1 },
            NamedUnit::KilometersPerHour => Ratio { numerator: 36, denominator: 10 },
            NamedUnit::MilesPerHour => Ratio { numerator: 2236936, denominator: 1000000 },
            NamedUnit::Mach => Ratio { numerator: 2939, denominator: 1000000 },
            NamedUnit::Kilograms => Ratio { numerator: 1, denominator: 1 },
            NamedUnit::Grams => Ratio { numerator: 1000, denominator: 1 },
            NamedUnit::Pounds => Ratio { numerator: 2204623, denominator: 1000000 },
            NamedUnit::Ampere => Ratio { numerator: 1, denominator: 1 },
            NamedUnit::Kelvin => Ratio { numerator: 1, denominator: 1 },
            NamedUnit::Moles => Ratio { numerator: 1, denominator: 1 },
            NamedUnit::Candela => Ratio { numerator: 1, denominator: 1 },
        }
    }

    /// How many of this unit make one canonical unit of its kind.
    #[verifier::when_used_as_spec(spec_scale)]
    pub fn scale(self) -> (r: Ratio)
        ensures
            r == self.spec_scale(),
    {
        match self {
            NamedUnit::Inches => Ratio { numerator: 3937008, denominator: 100000 },
            NamedUnit::Feet => Ratio { numerator: 328084, denominator: 100000 },
            NamedUnit::Centimeters => Ratio { numerator: 100, denominator: 1 },
            NamedUnit::Meters => Ratio { numerator: 1, denominator: 1 },
            NamedUnit::Kilometers => Ratio { numerator: 1, denominator: 1000 },
            NamedUnit::Miles => Ratio { numerator: 1000, denominator: 1609344 },
            NamedUnit::Nanoseconds => Ratio { numerator: 1000000000, denominator: 1 },
            NamedUnit::Microseconds => Ratio { numerator: 1000000, denominator: 1 },
            NamedUnit::Milliseconds => Ratio { numerator: 1000, denominator: 1 },
            NamedUnit::Seconds => Ratio { numerator: 1, denominator: 1 },
            NamedUnit::Minutes => Ratio { numerator: 1, denominator: 60 },
            NamedUnit::Hours => Ratio { numerator: 1, denominator: 3600 },
            NamedUnit::SquareMeters => Ratio { numerator: 1, denominator: 1 },
            NamedUnit::MetersPerSecond => Ratio { numerator: 1, denominator: 1 },
            NamedUnit::KilometersPerHour => Ratio { numerator: 36, denominator: 10 },
            NamedUnit::MilesPerHour => Ratio { numerator: 2236936, denominator: 1000000 },
            NamedUnit::Mach => Ratio { numerator: 2939, denominator: 1000000 },
            NamedUnit::Kilograms => Ratio { numerator: 1, denominator: 1 },
            NamedUnit::Grams => Ratio { numerator: 1000, denominator: 1 },
            NamedUnit::Pounds => Ratio { numerator: 2204623, denominator: 1000000 },
            NamedUnit::Ampere => Ratio { numerator: 1, denominator: 1 },
            NamedUnit::Kelvin => Ratio { numerator: 1, denominator: 1 },
            NamedUnit::Moles => Ratio { numerator: 1, denominator: 1 },
            NamedUnit::Candela => Ratio { numerator: 1, denominator: 1 },
        }
    }

    /// The unit in which quantities of `kind` are stored.
    pub open spec fn spec_canonical(kind: Kind) -> NamedUnit {
        match kind {
            Kind::Time => NamedUnit::Seconds,
            Kind::Length => NamedUnit::Meters,
            Kind::Mass => NamedUnit::Kilograms,
            Kind::Current => NamedUnit::Ampere,
            Kind::Temperature => NamedUnit::Kelvin,
            Kind::Amount => NamedUnit::Moles,
            Kind::Luminosity => NamedUnit::Candela,
            Kind::Area => NamedUnit::SquareMeters,
            Kind::Speed => NamedUnit::MetersPerSecond,
        }
    }

    /// The unit in which quantities of `kind` are stored.
    #[verifier::when_used_as_spec(spec_canonical)]
    pub fn canonical(kind: Kind) -> (unit: NamedUnit)
        ensures
            unit == Self::spec_canonical(kind),
    {
        match kind {
            Kind::Time => NamedUnit::Seconds,
            Kind::Length => NamedUnit::Meters,
            Kind::Mass => NamedUnit::Kilograms,
            Kind::Current => NamedUnit::Ampere,
            Kind::Temperature => NamedUnit::Kelvin,
            Kind::Amount => NamedUnit::Moles,
            Kind::Luminosity => NamedUnit::Candela,
            Kind::Area => NamedUnit::SquareMeters,
            Kind::Speed => NamedUnit::MetersPerSecond,
        }
    }

    /// Every kind has a canonical unit of its own, whose scale is one.
    pub proof fn lemma_canonical_scale_is_one(kind: Kind)
        ensures
            Self::canonical(kind).kind() == kind,
            Self::canonical(kind).scale() == (Ratio { numerator: 1, denominator: 1 }),
    {
    }

    /// No scale is zero, and none has a zero denominator.
    pub proof fn lemma_scale_is_positive(self)
        ensures
            self.scale().numerator > 0,
            self.scale().denominator > 0,
    {
    }
}

} // verus!

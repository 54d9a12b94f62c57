//! The named units of speed.

use crate::kind::Kind;
use crate::measurement::Measurement;
use crate::named::NamedUnit;
use crate::scalar::obeys_ratio_spec;
use std::ops::{Div, Mul};
use vstd::prelude::*;
use vstd::std_specs::ops::{DivSpec, MulSpec};

verus! {

impl<S: From<u32> + Div<Output = S>> Measurement<S> {
    /// A speed of `raw` meters per second.
    pub fn meter_per_second(raw: S) -> (m: Measurement<S>)
        requires
            NamedUnit::MetersPerSecond.scale().divides(raw),
        ensures
            m.unit() == Kind::Speed.unit(),
            NamedUnit::MetersPerSecond.scale().gives_quotient(raw, m.raw_value()),
            obeys_ratio_spec::<S>() ==> m.raw_value() == raw.div_spec(
                NamedUnit::MetersPerSecond.scale().spec_value::<S>(),
            ),
    {
        Measurement::from_unit(raw, NamedUnit::MetersPerSecond)
    }

    /// A speed of `raw` kilometers per hour.
    pub fn kilometers_per_hour(raw: S) -> (m: Measurement<S>)
        requires
            NamedUnit::KilometersPerHour.scale().divides(raw),
        ensures
            m.unit() == Kind::Speed.unit(),
            NamedUnit::KilometersPerHour.scale().gives_quotient(raw, m.raw_value()),
            obeys_ratio_spec::<S>() ==> m.raw_value() == raw.div_spec(
                NamedUnit::KilometersPerHour.scale().spec_value::<S>(),
            ),
    {
        Measurement::from_unit(raw, NamedUnit::KilometersPerHour)
    }

    /// A speed of `raw` miles per hour.
    pub fn miles_per_hour(raw: S) -> (m: Measurement<S>)
        requires
            NamedUnit::MilesPerHour.scale().divides(raw),
        ensures
            m.unit() == Kind::Speed.unit(),
            NamedUnit::MilesPerHour.scale().gives_quotient(raw, m.raw_value()),
            obeys_ratio_spec::<S>() ==> m.raw_value() == raw.div_spec(
                NamedUnit::MilesPerHour.scale().spec_value::<S>(),
            ),
    {
        Measurement::from_unit(raw, NamedUnit::MilesPerHour)
    }

    /// A speed of `raw` Mach.
    pub fn mach(raw: S) -> (m: Measurement<S>)
        requires
            NamedUnit::Mach.scale().divides(raw),
        ensures
            m.unit() == Kind::Speed.unit(),
            NamedUnit::Mach.scale().gives_quotient(raw, m.raw_value()),
            obeys_ratio_spec::<S>() ==> m.raw_value() == raw.div_spec(
                NamedUnit::Mach.scale().spec_value::<S>(),
            ),
    {
        Measurement::from_unit(raw, NamedUnit::Mach)
    }
}

impl<S: Copy + From<u32> + Div<Output = S> + Mul<Output = S>> Measurement<S> {
    /// This speed, counted in meters per second.
    pub fn get_meters_per_second(&self) -> (value: S)
        requires
            self.unit() == Kind::Speed.unit(),
            NamedUnit::MetersPerSecond.scale().multiplies(self.raw_value()),
        ensures
            NamedUnit::MetersPerSecond.scale().gives_product(self.raw_value(), value),
            obeys_ratio_spec::<S>() && S::obeys_mul_spec() ==> value == self.raw_value().mul_spec(
                NamedUnit::MetersPerSecond.scale().spec_value::<S>(),
            ),
    {
        self.to_unit(NamedUnit::MetersPerSecond)
    }

    /// This speed, counted in kilometers per hour.
    pub fn get_kilometers_per_hour(&self) -> (value: S)
        requires
            self.unit() == Kind::Speed.unit(),
            NamedUnit::KilometersPerHour.scale().multiplies(self.raw_value()),
        ensures
            NamedUnit::KilometersPerHour.scale().gives_product(self.raw_value(), value),
            obeys_ratio_spec::<S>() && S::obeys_mul_spec() ==> value == self.raw_value().mul_spec(
                NamedUnit::KilometersPerHour.scale().spec_value::<S>(),
            ),
    {
        self.to_unit(NamedUnit::KilometersPerHour)
    }

    /// This speed, counted in miles per hour.
    pub fn get_miles_per_hour(&self) -> (value: S)
        requires
            self.unit() == Kind::Speed.unit(),
            NamedUnit::MilesPerHour.scale().multiplies(self.raw_value()),
        ensures
            NamedUnit::MilesPerHour.scale().gives_product(self.raw_value(), value),
            obeys_ratio_spec::<S>() && S::obeys_mul_spec() ==> value == self.raw_value().mul_spec(
                NamedUnit::MilesPerHour.scale().spec_value::<S>(),
            ),
    {
        self.to_unit(NamedUnit::MilesPerHour)
    }

    /// This speed, counted in Mach.
    pub fn get_mach(&self) -> (value: S)
        requires
            self.unit() == Kind::Speed.unit(),
            NamedUnit::Mach.scale().multiplies(self.raw_value()),
        ensures
            NamedUnit::Mach.scale().gives_product(self.raw_value(), value),
            obeys_ratio_spec::<S>() && S::obeys_mul_spec() ==> value == self.raw_value().mul_spec(
                NamedUnit::Mach.scale().spec_value::<S>(),
            ),
    {
        self.to_unit(NamedUnit::Mach)
    }
}

} // verus!

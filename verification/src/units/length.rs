//! The named units of length.

use crate::kind::Kind;
use crate::measurement::Measurement;
use crate::named::NamedUnit;
use crate::scalar::obeys_ratio_spec;
use std::ops::{Div, Mul};
use vstd::prelude::*;
use vstd::std_specs::ops::{DivSpec, MulSpec};

verus! {

impl<S: From<u32> + Div<Output = S>> Measurement<S> {
    /// A length of `raw` inches.
    pub fn inches(raw: S) -> (m: Measurement<S>)
        requires
            NamedUnit::Inches.scale().divides(raw),
        ensures
            m.unit() == Kind::Length.unit(),
            NamedUnit::Inches.scale().gives_quotient(raw, m.raw_value()),
            obeys_ratio_spec::<S>() ==> m.raw_value() == raw.div_spec(
                NamedUnit::Inches.scale().spec_value::<S>(),
            ),
    {
        Measurement::from_unit(raw, NamedUnit::Inches)
    }

    /// A length of `raw` feet.
    pub fn feet(raw: S) -> (m: Measurement<S>)
        requires
            NamedUnit::Feet.scale().divides(raw),
        ensures
            m.unit() == Kind::Length.unit(),
            NamedUnit::Feet.scale().gives_quotient(raw, m.raw_value()),
            obeys_ratio_spec::<S>() ==> m.raw_value() == raw.div_spec(
                NamedUnit::Feet.scale().spec_value::<S>(),
            ),
    {
        Measurement::from_unit(raw, NamedUnit::Feet)
    }

    /// A length of `raw` centimeters.
    pub fn centimeters(raw: S) -> (m: Measurement<S>)
        requires
            NamedUnit::Centimeters.scale().divides(raw),
        ensures
            m.unit() == Kind::Length.unit(),
            NamedUnit::Centimeters.scale().gives_quotient(raw, m.raw_value()),
            obeys_ratio_spec::<S>() ==> m.raw_value() == raw.div_spec(
                NamedUnit::Centimeters.scale().spec_value::<S>(),
            ),
    {
        Measurement::from_unit(raw, NamedUnit::Centimeters)
    }

    /// A length of `raw` meters.
    pub fn meters(raw: S) -> (m: Measurement<S>)
        requires
            NamedUnit::Meters.scale().divides(raw),
        ensures
            m.unit() == Kind::Length.unit(),
            NamedUnit::Meters.scale().gives_quotient(raw, m.raw_value()),
            obeys_ratio_spec::<S>() ==> m.raw_value() == raw.div_spec(
                NamedUnit::Meters.scale().spec_value::<S>(),
            ),
    {
        Measurement::from_unit(raw, NamedUnit::Meters)
    }

    /// A length of `raw` kilometers.
    pub fn kilometers(raw: S) -> (m: Measurement<S>)
        requires
            NamedUnit::Kilometers.scale().divides(raw),
        ensures
            m.unit() == Kind::Length.unit(),
            NamedUnit::Kilometers.scale().gives_quotient(raw, m.raw_value()),
            obeys_ratio_spec::<S>() ==> m.raw_value() == raw.div_spec(
                NamedUnit::Kilometers.scale().spec_value::<S>(),
            ),
    {
        Measurement::from_unit(raw, NamedUnit::Kilometers)
    }

    /// A length of `raw` miles.
    pub fn miles(raw: S) -> (m: Measurement<S>)
        requires
            NamedUnit::Miles.scale().divides(raw),
        ensures
            m.unit() == Kind::Length.unit(),
            NamedUnit::Miles.scale().gives_quotient(raw, m.raw_value()),
            obeys_ratio_spec::<S>() ==> m.raw_value() == raw.div_spec(
                NamedUnit::Miles.scale().spec_value::<S>(),
            ),
    {
        Measurement::from_unit(raw, NamedUnit::Miles)
    }
}

impl<S: Copy + From<u32> + Div<Output = S> + Mul<Output = S>> Measurement<S> {
    /// This length, counted in inches.
    pub fn get_inches(&self) -> (value: S)
        requires
            self.unit() == Kind::Length.unit(),
            NamedUnit::Inches.scale().multiplies(self.raw_value()),
        ensures
            NamedUnit::Inches.scale().gives_product(self.raw_value(), value),
            obeys_ratio_spec::<S>() && S::obeys_mul_spec() ==> value == self.raw_value().mul_spec(
                NamedUnit::Inches.scale().spec_value::<S>(),
            ),
    {
        self.to_unit(NamedUnit::Inches)
    }

    /// This length, counted in feet.
    pub fn get_feet(&self) -> (value: S)
        requires
            self.unit() == Kind::Length.unit(),
            NamedUnit::Feet.scale().multiplies(self.raw_value()),
        ensures
            NamedUnit::Feet.scale().gives_product(self.raw_value(), value),
            obeys_ratio_spec::<S>() && S::obeys_mul_spec() ==> value == self.raw_value().mul_spec(
                NamedUnit::Feet.scale().spec_value::<S>(),
            ),
    {
        self.to_unit(NamedUnit::Feet)
    }

    /// This length, counted in centimeters.
    pub fn get_centimeters(&self) -> (value: S)
        requires
            self.unit() == Kind::Length.unit(),
            NamedUnit::Centimeters.scale().multiplies(self.raw_value()),
        ensures
            NamedUnit::Centimeters.scale().gives_product(self.raw_value(), value),
            obeys_ratio_spec::<S>() && S::obeys_mul_spec() ==> value == self.raw_value().mul_spec(
                NamedUnit::Centimeters.scale().spec_value::<S>(),
            ),
    {
        self.to_unit(NamedUnit::Centimeters)
    }

    /// This length, counted in meters.
    pub fn get_meters(&self) -> (value: S)
        requires
            self.unit() == Kind::Length.unit(),
            NamedUnit::Meters.scale().multiplies(self.raw_value()),
        ensures
            NamedUnit::Meters.scale().gives_product(self.raw_value(), value),
            obeys_ratio_spec::<S>() && S::obeys_mul_spec() ==> value == self.raw_value().mul_spec(
                NamedUnit::Meters.scale().spec_value::<S>(),
            ),
    {
        self.to_unit(NamedUnit::Meters)
    }

    /// This length, counted in kilometers.
    pub fn get_kilometers(&self) -> (value: S)
        requires
            self.unit() == Kind::Length.unit(),
            NamedUnit::Kilometers.scale().multiplies(self.raw_value()),
        ensures
            NamedUnit::Kilometers.scale().gives_product(self.raw_value(), value),
            obeys_ratio_spec::<S>() && S::obeys_mul_spec() ==> value == self.raw_value().mul_spec(
                NamedUnit::Kilometers.scale().spec_value::<S>(),
            ),
    {
        self.to_unit(NamedUnit::Kilometers)
    }

    /// This length, counted in miles.
    pub fn get_miles(&self) -> (value: S)
        requires
            self.unit() == Kind::Length.unit(),
            NamedUnit::Miles.scale().multiplies(self.raw_value()),
        ensures
            NamedUnit::Miles.scale().gives_product(self.raw_value(), value),
            obeys_ratio_spec::<S>() && S::obeys_mul_spec() ==> value == self.raw_value().mul_spec(
                NamedUnit::Miles.scale().spec_value::<S>(),
            ),
    {
        self.to_unit(NamedUnit::Miles)
    }
}

} // verus!

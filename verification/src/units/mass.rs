//! The named units of mass.

use crate::kind::Kind;
use crate::measurement::Measurement;
use crate::named::NamedUnit;
use crate::scalar::obeys_ratio_spec;
use std::ops::{Div, Mul};
use vstd::prelude::*;
use vstd::std_specs::ops::{DivSpec, MulSpec};

verus! {

impl<S: From<u32> + Div<Output = S>> Measurement<S> {
    /// A mass of `raw` kilograms.
    pub fn kilograms(raw: S) -> (m: Measurement<S>)
        requires
            NamedUnit::Kilograms.scale().divides(raw),
        ensures
            m.unit() == Kind::Mass.unit(),
            NamedUnit::Kilograms.scale().gives_quotient(raw, m.raw_value()),
            obeys_ratio_spec::<S>() ==> m.raw_value() == raw.div_spec(
                NamedUnit::Kilograms.scale().spec_value::<S>(),
            ),
    {
        Measurement::from_unit(raw, NamedUnit::Kilograms)
    }

    /// A mass of `raw` grams.
    pub fn grams(raw: S) -> (m: Measurement<S>)
        requires
            NamedUnit::Grams.scale().divides(raw),
        ensures
            m.unit() == Kind::Mass.unit(),
            NamedUnit::Grams.scale().gives_quotient(raw, m.raw_value()),
            obeys_ratio_spec::<S>() ==> m.raw_value() == raw.div_spec(
                NamedUnit::Grams.scale().spec_value::<S>(),
            ),
    {
        Measurement::from_unit(raw, NamedUnit::Grams)
    }

    /// A mass of `raw` pounds.
    pub fn pounds(raw: S) -> (m: Measurement<S>)
        requires
            NamedUnit::Pounds.scale().divides(raw),
        ensures
            m.unit() == Kind::Mass.unit(),
            NamedUnit::Pounds.scale().gives_quotient(raw, m.raw_value()),
            obeys_ratio_spec::<S>() ==> m.raw_value() == raw.div_spec(
                NamedUnit::Pounds.scale().spec_value::<S>(),
            ),
    {
        Measurement::from_unit(raw, NamedUnit::Pounds)
    }
}

impl<S: Copy + From<u32> + Div<Output = S> + Mul<Output = S>> Measurement<S> {
    /// This mass, counted in kilograms.
    pub fn get_kilograms(&self) -> (value: S)
        requires
            self.unit() == Kind::Mass.unit(),
            NamedUnit::Kilograms.scale().multiplies(self.raw_value()),
        ensures
            NamedUnit::Kilograms.scale().gives_product(self.raw_value(), value),
            obeys_ratio_spec::<S>() && S::obeys_mul_spec() ==> value == self.raw_value().mul_spec(
                NamedUnit::Kilograms.scale().spec_value::<S>(),
            ),
    {
        self.to_unit(NamedUnit::Kilograms)
    }

    /// This mass, counted in grams.
    pub fn get_grams(&self) -> (value: S)
        requires
            self.unit() == Kind::Mass.unit(),
            NamedUnit::Grams.scale().multiplies(self.raw_value()),
        ensures
            NamedUnit::Grams.scale().gives_product(self.raw_value(), value),
            obeys_ratio_spec::<S>() && S::obeys_mul_spec() ==> value == self.raw_value().mul_spec(
                NamedUnit::Grams.scale().spec_value::<S>(),
            ),
    {
        self.to_unit(NamedUnit::Grams)
    }

    /// This mass, counted in pounds.
    pub fn get_pounds(&self) -> (value: S)
        requires
            self.unit() == Kind::Mass.unit(),
            NamedUnit::Pounds.scale().multiplies(self.raw_value()),
        ensures
            NamedUnit::Pounds.scale().gives_product(self.raw_value(), value),
            obeys_ratio_spec::<S>() && S::obeys_mul_spec() ==> value == self.raw_value().mul_spec(
                NamedUnit::Pounds.scale().spec_value::<S>(),
            ),
    {
        self.to_unit(NamedUnit::Pounds)
    }
}

} // verus!

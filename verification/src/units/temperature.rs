//! The named units of temperature.

use crate::kind::Kind;
use crate::measurement::Measurement;
use crate::named::NamedUnit;
use crate::scalar::obeys_ratio_spec;
use std::ops::{Div, Mul};
use vstd::prelude::*;
use vstd::std_specs::ops::{DivSpec, MulSpec};

verus! {

impl<S: From<u32> + Div<Output = S>> Measurement<S> {
    /// A temperature of `raw` kelvin.
    pub fn kelvin(raw: S) -> (m: Measurement<S>)
        requires
            NamedUnit::Kelvin.scale().divides(raw),
        ensures
            m.unit() == Kind::Temperature.unit(),
            NamedUnit::Kelvin.scale().gives_quotient(raw, m.raw_value()),
            obeys_ratio_spec::<S>() ==> m.raw_value() == raw.div_spec(
                NamedUnit::Kelvin.scale().spec_value::<S>(),
            ),
    {
        Measurement::from_unit(raw, NamedUnit::Kelvin)
    }
}

impl<S: Copy + From<u32> + Div<Output = S> + Mul<Output = S>> Measurement<S> {
    /// This temperature, counted in kelvin.
    pub fn get_kelvin(&self) -> (value: S)
        requires
            self.unit() == Kind::Temperature.unit(),
            NamedUnit::Kelvin.scale().multiplies(self.raw_value()),
        ensures
            NamedUnit::Kelvin.scale().gives_product(self.raw_value(), value),
            obeys_ratio_spec::<S>() && S::obeys_mul_spec() ==> value == self.raw_value().mul_spec(
                NamedUnit::Kelvin.scale().spec_value::<S>(),
            ),
    {
        self.to_unit(NamedUnit::Kelvin)
    }
}

} // verus!

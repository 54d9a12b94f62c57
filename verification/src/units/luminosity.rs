//! The named units of luminosity.

use crate::kind::Kind;
use crate::measurement::Measurement;
use crate::named::NamedUnit;
use crate::scalar::obeys_ratio_spec;
use std::ops::{Div, Mul};
use vstd::prelude::*;
use vstd::std_specs::ops::{DivSpec, MulSpec};

verus! {

impl<S: From<u32> + Div<Output = S>> Measurement<S> {
    /// A luminosity of `raw` candela.
    pub fn candela(raw: S) -> (m: Measurement<S>)
        requires
            NamedUnit::Candela.scale().divides(raw),
        ensures
            m.unit() == Kind::Luminosity.unit(),
            NamedUnit::Candela.scale().gives_quotient(raw, m.raw_value()),
            obeys_ratio_spec::<S>() ==> m.raw_value() == raw.div_spec(
                NamedUnit::Candela.scale().spec_value::<S>(),
            ),
    {
        Measurement::from_unit(raw, NamedUnit::Candela)
    }
}

impl<S: Copy + From<u32> + Div<Output = S> + Mul<Output = S>> Measurement<S> {
    /// This luminosity, counted in candela.
    pub fn get_candela(&self) -> (value: S)
        requires
            self.unit() == Kind::Luminosity.unit(),
            NamedUnit::Candela.scale().multiplies(self.raw_value()),
        ensures
            NamedUnit::Candela.scale().gives_product(self.raw_value(), value),
            obeys_ratio_spec::<S>() && S::obeys_mul_spec() ==> value == self.raw_value().mul_spec(
                NamedUnit::Candela.scale().spec_value::<S>(),
            ),
    {
        self.to_unit(NamedUnit::Candela)
    }
}

} // verus!

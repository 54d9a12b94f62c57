//! The named units of current.

use crate::kind::Kind;
use crate::measurement::Measurement;
use crate::named::NamedUnit;
use crate::scalar::obeys_ratio_spec;
use std::ops::{Div, Mul};
use vstd::prelude::*;
use vstd::std_specs::ops::{DivSpec, MulSpec};

verus! {

impl<S: From<u32> + Div<Output = S>> Measurement<S> {
    /// A current of `raw` ampere.
    pub fn ampere(raw: S) -> (m: Measurement<S>)
        requires
            NamedUnit::Ampere.scale().divides(raw),
        ensures
            m.unit() == Kind::Current.unit(),
            NamedUnit::Ampere.scale().gives_quotient(raw, m.raw_value()),
            obeys_ratio_spec::<S>() ==> m.raw_value() == raw.div_spec(
                NamedUnit::Ampere.scale().spec_value::<S>(),
            ),
    {
        Measurement::from_unit(raw, NamedUnit::Ampere)
    }
}

impl<S: Copy + From<u32> + Div<Output = S> + Mul<Output = S>> Measurement<S> {
    /// This current, counted in ampere.
    pub fn get_ampere(&self) -> (value: S)
        requires
            self.unit() == Kind::Current.unit(),
            NamedUnit::Ampere.scale().multiplies(self.raw_value()),
        ensures
            NamedUnit::Ampere.scale().gives_product(self.raw_value(), value),
            obeys_ratio_spec::<S>() && S::obeys_mul_spec() ==> value == self.raw_value().mul_spec(
                NamedUnit::Ampere.scale().spec_value::<S>(),
            ),
    {
        self.to_unit(NamedUnit::Ampere)
    }
}

} // verus!

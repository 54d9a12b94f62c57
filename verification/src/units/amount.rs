//! The named units of amount of substance.

use crate::kind::Kind;
use crate::measurement::Measurement;
use crate::named::NamedUnit;
use crate::scalar::obeys_ratio_spec;
use std::ops::{Div, Mul};
use vstd::prelude::*;
use vstd::std_specs::ops::{DivSpec, MulSpec};

verus! {

impl<S: From<u32> + Div<Output = S>> Measurement<S> {
    /// An amount of substance of `raw` moles.
    pub fn moles(raw: S) -> (m: Measurement<S>)
        requires
            NamedUnit::Moles.scale().divides(raw),
        ensures
            m.unit() == Kind::Amount.unit(),
            NamedUnit::Moles.scale().gives_quotient(raw, m.raw_value()),
            obeys_ratio_spec::<S>() ==> m.raw_value() == raw.div_spec(
                NamedUnit::Moles.scale().spec_value::<S>(),
            ),
    {
        Measurement::from_unit(raw, NamedUnit::Moles)
    }
}

impl<S: Copy + From<u32> + Div<Output = S> + Mul<Output = S>> Measurement<S> {
    /// This amount of substance, counted in moles.
    pub fn get_moles(&self) -> (value: S)
        requires
            self.unit() == Kind::Amount.unit(),
            NamedUnit::Moles.scale().multiplies(self.raw_value()),
        ensures
            NamedUnit::Moles.scale().gives_product(self.raw_value(), value),
            obeys_ratio_spec::<S>() && S::obeys_mul_spec() ==> value == self.raw_value().mul_spec(
                NamedUnit::Moles.scale().spec_value::<S>(),
            ),
    {
        self.to_unit(NamedUnit::Moles)
    }
}

} // verus!

//! The named units of area.

use crate::kind::Kind;
use crate::measurement::Measurement;
use crate::named::NamedUnit;
use crate::scalar::obeys_ratio_spec;
use std::ops::{Div, Mul};
use vstd::prelude::*;
use vstd::std_specs::ops::{DivSpec, MulSpec};

verus! {

impl<S: From<u32> + Div<Output = S>> Measurement<S> {
    /// An area of `raw` square meters.
    pub fn square_meters(raw: S) -> (m: Measurement<S>)
        requires
            NamedUnit::SquareMeters.scale().divides(raw),
        ensures
            m.unit() == Kind::Area.unit(),
            NamedUnit::SquareMeters.scale().gives_quotient(raw, m.raw_value()),
            obeys_ratio_spec::<S>() ==> m.raw_value() == raw.div_spec(
                NamedUnit::SquareMeters.scale().spec_value::<S>(),
            ),
    {
        Measurement::from_unit(raw, NamedUnit::SquareMeters)
    }
}

impl<S: Copy + From<u32> + Div<Output = S> + Mul<Output = S>> Measurement<S> {
    /// This area, counted in square meters.
    pub fn get_square_meters(&self) -> (value: S)
        requires
            self.unit() == Kind::Area.unit(),
            NamedUnit::SquareMeters.scale().multiplies(self.raw_value()),
        ensures
            NamedUnit::SquareMeters.scale().gives_product(self.raw_value(), value),
            obeys_ratio_spec::<S>() && S::obeys_mul_spec() ==> value == self.raw_value().mul_spec(
                NamedUnit::SquareMeters.scale().spec_value::<S>(),
            ),
    {
        self.to_unit(NamedUnit::SquareMeters)
    }
}

} // verus!

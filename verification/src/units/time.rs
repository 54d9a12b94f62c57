//! The named units of time.

use crate::kind::Kind;
use crate::measurement::Measurement;
use crate::named::NamedUnit;
use crate::scalar::obeys_ratio_spec;
use std::ops::{Div, Mul};
use vstd::prelude::*;
use vstd::std_specs::ops::{DivSpec, MulSpec};

verus! {

impl<S: From<u32> + Div<Output = S>> Measurement<S> {
    /// A time of `raw` nanoseconds.
    pub fn nanoseconds(raw: S) -> (m: Measurement<S>)
        requires
            NamedUnit::Nanoseconds.scale().divides(raw),
        ensures
            m.unit() == Kind::Time.unit(),
            NamedUnit::Nanoseconds.scale().gives_quotient(raw, m.raw_value()),
            obeys_ratio_spec::<S>() ==> m.raw_value() == raw.div_spec(
                NamedUnit::Nanoseconds.scale().spec_value::<S>(),
            ),
    {
        Measurement::from_unit(raw, NamedUnit::Nanoseconds)
    }

    /// A time of `raw` microseconds.
    pub fn microseconds(raw: S) -> (m: Measurement<S>)
        requires
            NamedUnit::Microseconds.scale().divides(raw),
        ensures
            m.unit() == Kind::Time.unit(),
            NamedUnit::Microseconds.scale().gives_quotient(raw, m.raw_value()),
            obeys_ratio_spec::<S>() ==> m.raw_value() == raw.div_spec(
                NamedUnit::Microseconds.scale().spec_value::<S>(),
            ),
    {
        Measurement::from_unit(raw, NamedUnit::Microseconds)
    }

    /// A time of `raw` milliseconds.
    pub fn milliseconds(raw: S) -> (m: Measurement<S>)
        requires
            NamedUnit::Milliseconds.scale().divides(raw),
        ensures
            m.unit() == Kind::Time.unit(),
            NamedUnit::Milliseconds.scale().gives_quotient(raw, m.raw_value()),
            obeys_ratio_spec::<S>() ==> m.raw_value() == raw.div_spec(
                NamedUnit::Milliseconds.scale().spec_value::<S>(),
            ),
    {
        Measurement::from_unit(raw, NamedUnit::Milliseconds)
    }

    /// A time of `raw` seconds.
    pub fn seconds(raw: S) -> (m: Measurement<S>)
        requires
            NamedUnit::Seconds.scale().divides(raw),
        ensures
            m.unit() == Kind::Time.unit(),
            NamedUnit::Seconds.scale().gives_quotient(raw, m.raw_value()),
            obeys_ratio_spec::<S>() ==> m.raw_value() == raw.div_spec(
                NamedUnit::Seconds.scale().spec_value::<S>(),
            ),
    {
        Measurement::from_unit(raw, NamedUnit::Seconds)
    }

    /// A time of `raw` minutes.
    pub fn minutes(raw: S) -> (m: Measurement<S>)
        requires
            NamedUnit::Minutes.scale().divides(raw),
        ensures
            m.unit() == Kind::Time.unit(),
            NamedUnit::Minutes.scale().gives_quotient(raw, m.raw_value()),
            obeys_ratio_spec::<S>() ==> m.raw_value() == raw.div_spec(
                NamedUnit::Minutes.scale().spec_value::<S>(),
            ),
    {
        Measurement::from_unit(raw, NamedUnit::Minutes)
    }

    /// A time of `raw` hours.
    pub fn hours(raw: S) -> (m: Measurement<S>)
        requires
            NamedUnit::Hours.scale().divides(raw),
        ensures
            m.unit() == Kind::Time.unit(),
            NamedUnit::Hours.scale().gives_quotient(raw, m.raw_value()),
            obeys_ratio_spec::<S>() ==> m.raw_value() == raw.div_spec(
                NamedUnit::Hours.scale().spec_value::<S>(),
            ),
    {
        Measurement::from_unit(raw, NamedUnit::Hours)
    }
}

impl<S: Copy + From<u32> + Div<Output = S> + Mul<Output = S>> Measurement<S> {
    /// This time, counted in nanoseconds.
    pub fn get_nanoseconds(&self) -> (value: S)
        requires
            self.unit() == Kind::Time.unit(),
            NamedUnit::Nanoseconds.scale().multiplies(self.raw_value()),
        ensures
            NamedUnit::Nanoseconds.scale().gives_product(self.raw_value(), value),
            obeys_ratio_spec::<S>() && S::obeys_mul_spec() ==> value == self.raw_value().mul_spec(
                NamedUnit::Nanoseconds.scale().spec_value::<S>(),
            ),
    {
        self.to_unit(NamedUnit::Nanoseconds)
    }

    /// This time, counted in microseconds.
    pub fn get_microseconds(&self) -> (value: S)
        requires
            self.unit() == Kind::Time.unit(),
            NamedUnit::Microseconds.scale().multiplies(self.raw_value()),
        ensures
            NamedUnit::Microseconds.scale().gives_product(self.raw_value(), value),
            obeys_ratio_spec::<S>() && S::obeys_mul_spec() ==> value == self.raw_value().mul_spec(
                NamedUnit::Microseconds.scale().spec_value::<S>(),
            ),
    {
        self.to_unit(NamedUnit::Microseconds)
    }

    /// This time, counted in milliseconds.
    pub fn get_milliseconds(&self) -> (value: S)
        requires
            self.unit() == Kind::Time.unit(),
            NamedUnit::Milliseconds.scale().multiplies(self.raw_value()),
        ensures
            NamedUnit::Milliseconds.scale().gives_product(self.raw_value(), value),
            obeys_ratio_spec::<S>() && S::obeys_mul_spec() ==> value == self.raw_value().mul_spec(
                NamedUnit::Milliseconds.scale().spec_value::<S>(),
            ),
    {
        self.to_unit(NamedUnit::Milliseconds)
    }

    /// This time, counted in seconds.
    pub fn get_seconds(&self) -> (value: S)
        requires
            self.unit() == Kind::Time.unit(),
            NamedUnit::Seconds.scale().multiplies(self.raw_value()),
        ensures
            NamedUnit::Seconds.scale().gives_product(self.raw_value(), value),
            obeys_ratio_spec::<S>() && S::obeys_mul_spec() ==> value == self.raw_value().mul_spec(
                NamedUnit::Seconds.scale().spec_value::<S>(),
            ),
    {
        self.to_unit(NamedUnit::Seconds)
    }

    /// This time, counted in minutes.
    pub fn get_minutes(&self) -> (value: S)
        requires
            self.unit() == Kind::Time.unit(),
            NamedUnit::Minutes.scale().multiplies(self.raw_value()),
        ensures
            NamedUnit::Minutes.scale().gives_product(self.raw_value(), value),
            obeys_ratio_spec::<S>() && S::obeys_mul_spec() ==> value == self.raw_value().mul_spec(
                NamedUnit::Minutes.scale().spec_value::<S>(),
            ),
    {
        self.to_unit(NamedUnit::Minutes)
    }

    /// This time, counted in hours.
    pub fn get_hours(&self) -> (value: S)
        requires
            self.unit() == Kind::Time.unit(),
            NamedUnit::Hours.scale().multiplies(self.raw_value()),
        ensures
            NamedUnit::Hours.scale().gives_product(self.raw_value(), value),
            obeys_ratio_spec::<S>() && S::obeys_mul_spec() ==> value == self.raw_value().mul_spec(
                NamedUnit::Hours.scale().spec_value::<S>(),
            ),
    {
        self.to_unit(NamedUnit::Hours)
    }
}

} // verus!

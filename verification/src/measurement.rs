//! Measurements: a magnitude in canonical units, and the dimension it has.

use crate::kind::Kind;
use crate::named::NamedUnit;
use crate::scalar::{
    can_add, can_divide, can_multiply, can_subtract, is_difference, is_product, is_quotient,
    is_sum, obeys_ratio_spec,
};
use crate::unit::{difference, fits, sum, UnitType};
use std::ops::{Add, Div, Mul, Sub};
use vstd::prelude::*;
use vstd::std_specs::ops::{AddSpec, DivSpec, MulSpec, SubSpec};

verus! {

/// A quantity: its magnitude, counted in the canonical unit of its dimension,
/// and that dimension.
///
/// A measurement is made from a value in a named unit, or by arithmetic on
/// other measurements. Sums and differences are for measurements of one
/// dimension; products and quotients give the dimension that their operands
/// make.
#[derive(Clone, Copy, Debug, PartialEq)]
pub struct Measurement<S> {
    unit: UnitType,
    raw_value: S,
}

impl<S> Measurement<S> {
    /// The dimension of this measurement.
    pub closed spec fn spec_unit(&self) -> UnitType {
        self.unit
    }

    /// The magnitude of this measurement, in the canonical unit of its dimension.
    pub closed spec fn raw_value(self) -> S {
        self.raw_value
    }

    /// The measurement of dimension `unit` and canonical magnitude `raw_value`.
    pub closed spec fn from_parts(unit: UnitType, raw_value: S) -> Measurement<S> {
        Measurement { unit, raw_value }
    }

    /// A measurement is its dimension and its magnitude, and nothing more.
    pub proof fn lemma_parts(self)
        ensures
            self == Self::from_parts(self.unit(), self.raw_value()),
    {
    }

    /// `from_parts` keeps both parts as they are given.
    pub proof fn lemma_from_parts(unit: UnitType, raw_value: S)
        ensures
            Self::from_parts(unit, raw_value).unit() == unit,
            Self::from_parts(unit, raw_value).raw_value() == raw_value,
    {
    }

    /// The dimension of this measurement.
    #[verifier::when_used_as_spec(spec_unit)]
    pub fn unit(&self) -> (u: UnitType)
        ensures
            u == self.spec_unit(),
    {
        self.unit
    }
}

impl<S: Add<Output = S>> vstd::std_specs::ops::AddSpecImpl for Measurement<S> {
    open spec fn obeys_add_spec() -> bool {
        S::obeys_add_spec()
    }

    open spec fn add_req(self, rhs: Measurement<S>) -> bool {
        &&& self.unit() == rhs.unit()
        &&& can_add(self.raw_value(), rhs.raw_value())
    }

    open spec fn add_spec(self, rhs: Measurement<S>) -> Measurement<S> {
        Measurement::from_parts(self.unit(), self.raw_value().add_spec(rhs.raw_value()))
    }
}

impl<S: Add<Output = S>> Add for Measurement<S> {
    type Output = Measurement<S>;

    /// The sum of two measurements of one dimension, in that dimension.
    ///
    /// Its precondition is `add_req`: that the operands have one dimension and
    /// that `S` admit the sum of their magnitudes.
    fn add(self, rhs: Measurement<S>) -> (r: Measurement<S>)
        ensures
            r.unit() == self.unit(),
            is_sum(self.raw_value(), rhs.raw_value(), r.raw_value()),
            S::obeys_add_spec() ==> r.raw_value() == self.raw_value().add_spec(rhs.raw_value()),
    {
        Measurement { unit: self.unit, raw_value: self.raw_value + rhs.raw_value }
    }
}

impl<S: Sub<Output = S>> vstd::std_specs::ops::SubSpecImpl for Measurement<S> {
    open spec fn obeys_sub_spec() -> bool {
        S::obeys_sub_spec()
    }

    open spec fn sub_req(self, rhs: Measurement<S>) -> bool {
        &&& self.unit() == rhs.unit()
        &&& can_subtract(self.raw_value(), rhs.raw_value())
    }

    open spec fn sub_spec(self, rhs: Measurement<S>) -> Measurement<S> {
        Measurement::from_parts(self.unit(), self.raw_value().sub_spec(rhs.raw_value()))
    }
}

impl<S: Sub<Output = S>> Sub for Measurement<S> {
    type Output = Measurement<S>;

    /// The difference of two measurements of one dimension, in that dimension.
    ///
    /// Its precondition is `sub_req`: that the operands have one dimension and
    /// that `S` admit the difference of their magnitudes.
    fn sub(self, rhs: Measurement<S>) -> (r: Measurement<S>)
        ensures
            r.unit() == self.unit(),
            is_difference(self.raw_value(), rhs.raw_value(), r.raw_value()),
            S::obeys_sub_spec() ==> r.raw_value() == self.raw_value().sub_spec(rhs.raw_value()),
    {
        Measurement { unit: self.unit, raw_value: self.raw_value - rhs.raw_value }
    }
}

impl<S: Mul<Output = S>> vstd::std_specs::ops::MulSpecImpl<Measurement<S>> for Measurement<S> {
    open spec fn obeys_mul_spec() -> bool {
        S::obeys_mul_spec()
    }

    open spec fn mul_req(self, rhs: Measurement<S>) -> bool {
        &&& fits(sum(self.unit()@, rhs.unit()@))
        &&& can_multiply(self.raw_value(), rhs.raw_value())
    }

    open spec fn mul_spec(self, rhs: Measurement<S>) -> Measurement<S> {
        Measurement::from_parts(
            UnitType::from_exponents(sum(self.unit()@, rhs.unit()@)),
            self.raw_value().mul_spec(rhs.raw_value()),
        )
    }
}

impl<S: Mul<Output = S>> Mul<Measurement<S>> for Measurement<S> {
    type Output = Measurement<S>;

    /// The product of two measurements: the exponents of their dimensions add.
    ///
    /// Its precondition is `mul_req`: that the sums of the exponents fit and
    /// that `S` admit the product of the magnitudes.
    fn mul(self, rhs: Measurement<S>) -> (r: Measurement<S>)
        ensures
            r.unit()@ == sum(self.unit()@, rhs.unit()@),
            is_product(self.raw_value(), rhs.raw_value(), r.raw_value()),
            S::obeys_mul_spec() ==> r.raw_value() == self.raw_value().mul_spec(rhs.raw_value()),
    {
        Measurement { unit: self.unit + rhs.unit, raw_value: self.raw_value * rhs.raw_value }
    }
}

impl<S: Mul<Output = S>> vstd::std_specs::ops::MulSpecImpl<S> for Measurement<S> {
    open spec fn obeys_mul_spec() -> bool {
        S::obeys_mul_spec()
    }

    open spec fn mul_req(self, rhs: S) -> bool {
        can_multiply(self.raw_value(), rhs)
    }

    open spec fn mul_spec(self, rhs: S) -> Measurement<S> {
        Measurement::from_parts(self.unit(), self.raw_value().mul_spec(rhs))
    }
}

impl<S: Mul<Output = S>> Mul<S> for Measurement<S> {
    type Output = Measurement<S>;

    /// This measurement taken `rhs` times over: a bare number changes no dimension.
    ///
    /// Its precondition is `mul_req`: that `S` admit the product.
    fn mul(self, rhs: S) -> (r: Measurement<S>)
        ensures
            r.unit() == self.unit(),
            is_product(self.raw_value(), rhs, r.raw_value()),
            S::obeys_mul_spec() ==> r.raw_value() == self.raw_value().mul_spec(rhs),
    {
        Measurement { unit: self.unit, raw_value: self.raw_value * rhs }
    }
}

impl<S: Div<Output = S>> vstd::std_specs::ops::DivSpecImpl<Measurement<S>> for Measurement<S> {
    open spec fn obeys_div_spec() -> bool {
        S::obeys_div_spec()
    }

    open spec fn div_req(self, rhs: Measurement<S>) -> bool {
        &&& fits(difference(self.unit()@, rhs.unit()@))
        &&& can_divide(self.raw_value(), rhs.raw_value())
    }

    open spec fn div_spec(self, rhs: Measurement<S>) -> Measurement<S> {
        Measurement::from_parts(
            UnitType::from_exponents(difference(self.unit()@, rhs.unit()@)),
            self.raw_value().div_spec(rhs.raw_value()),
        )
    }
}

impl<S: Div<Output = S>> Div<Measurement<S>> for Measurement<S> {
    type Output = Measurement<S>;

    /// The quotient of two measurements: the exponents of the divisor's
    /// dimension are taken from those of the dividend's.
    ///
    /// Its precondition is `div_req`: that the differences of the exponents
    /// fit and that `S` admit the quotient of the magnitudes. A divisor of
    /// magnitude zero is for `S` to admit or not.
    fn div(self, rhs: Measurement<S>) -> (r: Measurement<S>)
        ensures
            r.unit()@ == difference(self.unit()@, rhs.unit()@),
            is_quotient(self.raw_value(), rhs.raw_value(), r.raw_value()),
            S::obeys_div_spec() ==> r.raw_value() == self.raw_value().div_spec(rhs.raw_value()),
    {
        Measurement { unit: self.unit - rhs.unit, raw_value: self.raw_value / rhs.raw_value }
    }
}

impl<S: Div<Output = S>> vstd::std_specs::ops::DivSpecImpl<S> for Measurement<S> {
    open spec fn obeys_div_spec() -> bool {
        S::obeys_div_spec()
    }

    open spec fn div_req(self, rhs: S) -> bool {
        can_divide(self.raw_value(), rhs)
    }

    open spec fn div_spec(self, rhs: S) -> Measurement<S> {
        Measurement::from_parts(self.unit(), self.raw_value().div_spec(rhs))
    }
}

impl<S: Div<Output = S>> Div<S> for Measurement<S> {
    type Output = Measurement<S>;

    /// This measurement divided by a bare number, which changes no dimension.
    ///
    /// Its precondition is `div_req`: that `S` admit the quotient.
    fn div(self, rhs: S) -> (r: Measurement<S>)
        ensures
            r.unit() == self.unit(),
            is_quotient(self.raw_value(), rhs, r.raw_value()),
            S::obeys_div_spec() ==> r.raw_value() == self.raw_value().div_spec(rhs),
    {
        Measurement { unit: self.unit, raw_value: self.raw_value / rhs }
    }
}

impl<S: From<u32> + Div<Output = S>> Measurement<S> {
    /// The measurement that is `value` of `unit`: its magnitude is `value`
    /// divided by the scale of `unit`.
    pub open spec fn spec_from_unit(value: S, unit: NamedUnit) -> Measurement<S> {
        Measurement::from_parts(unit.kind().unit(), value.div_spec(unit.scale().spec_value::<S>()))
    }

    /// Makes the measurement that is `value` of `unit`.
    pub fn from_unit(value: S, unit: NamedUnit) -> (m: Measurement<S>)
        requires
            unit.scale().divides(value),
        ensures
            m.unit() == unit.kind().unit(),
            unit.scale().gives_quotient(value, m.raw_value()),
            obeys_ratio_spec::<S>() ==> m.raw_value() == value.div_spec(unit.scale().spec_value::<S>()),
            obeys_ratio_spec::<S>() ==> m == Self::spec_from_unit(value, unit),
    {
        let factor: S = unit.scale().value();
        let raw_value = value / factor;
        assert(is_quotient(value, factor, raw_value));
        Measurement { unit: unit.kind().unit(), raw_value }
    }
}

impl<S: Copy + From<u32> + Div<Output = S> + Mul<Output = S>> Measurement<S> {
    /// This measurement counted in `unit`: its magnitude times the scale of `unit`.
    pub open spec fn spec_to_unit(self, unit: NamedUnit) -> S {
        self.raw_value().mul_spec(unit.scale().spec_value::<S>())
    }

    /// Counts this measurement in `unit`, a unit of its own kind.
    pub fn to_unit(&self, unit: NamedUnit) -> (value: S)
        requires
            self.unit() == unit.kind().unit(),
            unit.scale().multiplies(self.raw_value()),
        ensures
            unit.scale().gives_product(self.raw_value(), value),
            obeys_ratio_spec::<S>() && S::obeys_mul_spec() ==> value == self.spec_to_unit(unit),
    {
        let factor: S = unit.scale().value();
        let value = self.raw_value * factor;
        assert(is_product(self.raw_value, factor, value));
        value
    }
}

/// The sum of two lengths.
pub fn add_lengths<S: Add<Output = S>>(
    left: Measurement<S>,
    right: Measurement<S>,
) -> (total: Measurement<S>)
    requires
        left.unit() == Kind::Length.unit(),
        right.unit() == Kind::Length.unit(),
        can_add(left.raw_value(), right.raw_value()),
    ensures
        total.unit() == Kind::Length.unit(),
        is_sum(left.raw_value(), right.raw_value(), total.raw_value()),
        S::obeys_add_spec() ==> total == left.add_spec(right),
{
    left + right
}

} // verus!

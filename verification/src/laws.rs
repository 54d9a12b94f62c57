//! What holds of the arithmetic of measurements, whatever the operands.
//!
//! The library adds no error of its own to the scalar's arithmetic. Each law
//! below says which dimension a chain of operations ends in, which scalar
//! expression its magnitude is, and that the chain gives back the measurement
//! it began with wherever the scalar's own arithmetic gives back the magnitude.

use crate::kind::Kind;
use crate::measurement::Measurement;
use crate::named::{NamedUnit, Ratio};
use crate::unit::{difference, fits, sum, UnitType, BASE_QUANTITIES};
use std::ops::{Add, Div, Mul, Sub};
use vstd::prelude::*;
use vstd::std_specs::convert::FromSpec;
use vstd::std_specs::ops::{AddSpec, DivSpec, MulSpec, SubSpec};

verus! {

/// Taking from a sum of exponent vectors the vector that was added gives
/// back the other one, and so does adding to a difference the vector that
/// was taken away.
pub proof fn law_exponents_cancel(a: Seq<int>, b: Seq<int>)
    requires
        a.len() == BASE_QUANTITIES,
    ensures
        difference(sum(a, b), b) == a,
        sum(difference(a, b), b) == a,
{
    assert(difference(sum(a, b), b) =~= a);
    assert(sum(difference(a, b), b) =~= a);
}

/// The sum of exponent vectors does not depend on the order of its operands,
/// and the vector of a bare number, all zeros, changes nothing.
pub proof fn law_exponents_commute(a: Seq<int>, b: Seq<int>)
    requires
        a.len() == BASE_QUANTITIES,
    ensures
        sum(a, b) == sum(b, a),
        sum(a, Seq::new(BASE_QUANTITIES as nat, |i: int| 0int)) == a,
        difference(a, Seq::new(BASE_QUANTITIES as nat, |i: int| 0int)) == a,
{
    let zero = Seq::new(BASE_QUANTITIES as nat, |i: int| 0int);
    assert(sum(a, b) =~= sum(b, a));
    assert(sum(a, zero) =~= a);
    assert(difference(a, zero) =~= a);
}

/// The product of two lengths is an area, whatever their magnitudes: its
/// exponents are those of length, doubled.
pub proof fn law_length_times_length<S: Mul<Output = S>>(a: Measurement<S>, b: Measurement<S>)
    requires
        a.unit() == Kind::Length.unit(),
        b.unit() == Kind::Length.unit(),
    ensures
        fits(sum(a.unit()@, b.unit()@)),
        sum(a.unit()@, b.unit()@) == seq![0int, 2, 0, 0, 0, 0, 0],
        a.mul_spec(b).unit() == Kind::Area.unit(),
{
    let product = sum(a.unit()@, b.unit()@);
    assert(product =~= seq![0int, 2, 0, 0, 0, 0, 0]);
    assert(product =~= Kind::Area.unit()@);
    UnitType::lemma_from_exponents(product);
    UnitType::from_exponents(product).lemma_equal_by_exponents(Kind::Area.unit());
    Measurement::lemma_from_parts(
        UnitType::from_exponents(product),
        a.raw_value().mul_spec(b.raw_value()),
    );
}

/// The quotient of a length by a time is a speed, whatever their magnitudes:
/// its exponents are those of length less those of time.
pub proof fn law_length_over_time<S: Div<Output = S>>(a: Measurement<S>, b: Measurement<S>)
    requires
        a.unit() == Kind::Length.unit(),
        b.unit() == Kind::Time.unit(),
    ensures
        fits(difference(a.unit()@, b.unit()@)),
        difference(a.unit()@, b.unit()@) == seq![-1int, 1, 0, 0, 0, 0, 0],
        a.div_spec(b).unit() == Kind::Speed.unit(),
{
    let quotient = difference(a.unit()@, b.unit()@);
    assert(quotient =~= seq![-1int, 1, 0, 0, 0, 0, 0]);
    assert(quotient =~= Kind::Speed.unit()@);
    UnitType::lemma_from_exponents(quotient);
    UnitType::from_exponents(quotient).lemma_equal_by_exponents(Kind::Speed.unit());
    Measurement::lemma_from_parts(
        UnitType::from_exponents(quotient),
        a.raw_value().div_spec(b.raw_value()),
    );
}

/// For measurements `a` and `b` of one dimension, `(a + b) - b` has the
/// dimension of `a`, and for its magnitude the scalar's own `(x + y) - y`;
/// so it is `a` wherever the scalar's `(x + y) - y` is `x`.
pub proof fn law_add_then_sub<S: Add<Output = S> + Sub<Output = S>>(
    a: Measurement<S>,
    b: Measurement<S>,
)
    requires
        a.unit() == b.unit(),
    ensures
        a.add_spec(b).unit() == b.unit(),
        a.add_spec(b).sub_spec(b).unit() == a.unit(),
        a.add_spec(b).sub_spec(b).raw_value() == a.raw_value().add_spec(b.raw_value()).sub_spec(
            b.raw_value(),
        ),
        a.raw_value().add_spec(b.raw_value()).sub_spec(b.raw_value()) == a.raw_value()
            ==> a.add_spec(b).sub_spec(b) == a,
{
    let x = a.raw_value();
    let y = b.raw_value();
    Measurement::lemma_from_parts(a.unit(), x.add_spec(y));
    Measurement::lemma_from_parts(a.unit(), x.add_spec(y).sub_spec(y));
    a.lemma_parts();
}

/// For any measurements `a` and `b` whose product has a dimension that fits,
/// `(a * b) / b` has the dimension of `a`, and for its magnitude the scalar's
/// own `(x * y) / y`; so it is `a` wherever the scalar's `(x * y) / y` is `x`.
pub proof fn law_mul_then_div<S: Mul<Output = S> + Div<Output = S>>(
    a: Measurement<S>,
    b: Measurement<S>,
)
    requires
        fits(sum(a.unit()@, b.unit()@)),
    ensures
        a.mul_spec(b).unit()@ == sum(a.unit()@, b.unit()@),
        fits(difference(a.mul_spec(b).unit()@, b.unit()@)),
        a.mul_spec(b).div_spec(b).unit() == a.unit(),
        a.mul_spec(b).div_spec(b).raw_value() == a.raw_value().mul_spec(b.raw_value()).div_spec(
            b.raw_value(),
        ),
        a.raw_value().mul_spec(b.raw_value()).div_spec(b.raw_value()) == a.raw_value()
            ==> a.mul_spec(b).div_spec(b) == a,
{
    let x = a.raw_value();
    let y = b.raw_value();
    let product = sum(a.unit()@, b.unit()@);
    UnitType::lemma_from_exponents(product);
    Measurement::lemma_from_parts(UnitType::from_exponents(product), x.mul_spec(y));
    law_exponents_cancel(a.unit()@, b.unit()@);
    UnitType::lemma_from_exponents(a.unit()@);
    UnitType::from_exponents(a.unit()@).lemma_equal_by_exponents(a.unit());
    Measurement::lemma_from_parts(a.unit(), x.mul_spec(y).div_spec(y));
    a.lemma_parts();
}

/// For any measurements `a` and `b` whose quotient has a dimension that fits,
/// `(a / b) * b` has the dimension of `a`, and for its magnitude the scalar's
/// own `(x / y) * y`; so it is `a` wherever the scalar's `(x / y) * y` is `x`.
pub proof fn law_div_then_mul<S: Mul<Output = S> + Div<Output = S>>(
    a: Measurement<S>,
    b: Measurement<S>,
)
    requires
        fits(difference(a.unit()@, b.unit()@)),
    ensures
        a.div_spec(b).unit()@ == difference(a.unit()@, b.unit()@),
        fits(sum(a.div_spec(b).unit()@, b.unit()@)),
        a.div_spec(b).mul_spec(b).unit() == a.unit(),
        a.div_spec(b).mul_spec(b).raw_value() == a.raw_value().div_spec(b.raw_value()).mul_spec(
            b.raw_value(),
        ),
        a.raw_value().div_spec(b.raw_value()).mul_spec(b.raw_value()) == a.raw_value()
            ==> a.div_spec(b).mul_spec(b) == a,
{
    let x = a.raw_value();
    let y = b.raw_value();
    let quotient = difference(a.unit()@, b.unit()@);
    UnitType::lemma_from_exponents(quotient);
    Measurement::lemma_from_parts(UnitType::from_exponents(quotient), x.div_spec(y));
    law_exponents_cancel(a.unit()@, b.unit()@);
    UnitType::lemma_from_exponents(a.unit()@);
    UnitType::from_exponents(a.unit()@).lemma_equal_by_exponents(a.unit());
    Measurement::lemma_from_parts(a.unit(), x.div_spec(y).mul_spec(y));
    a.lemma_parts();
}

/// A value made into a measurement from `unit` and read back in `unit` has
/// passed through the scalar's own `(x / f) * f`, with `f` the scale of
/// `unit`; so it is the value itself wherever the scalar's `(x / f) * f` is `x`.
/// The measurement in between has the dimension of the kind of `unit`.
pub proof fn law_round_trip<S: Copy + From<u32> + Div<Output = S> + Mul<Output = S>>(
    value: S,
    unit: NamedUnit,
)
    ensures
        Measurement::spec_from_unit(value, unit).unit() == unit.kind().unit(),
        Measurement::spec_from_unit(value, unit).spec_to_unit(unit) == value.div_spec(
            unit.scale().spec_value::<S>(),
        ).mul_spec(unit.scale().spec_value::<S>()),
        value.div_spec(unit.scale().spec_value::<S>()).mul_spec(unit.scale().spec_value::<S>())
            == value ==> Measurement::spec_from_unit(value, unit).spec_to_unit(unit) == value,
{
    Measurement::lemma_from_parts(
        unit.kind().unit(),
        value.div_spec(unit.scale().spec_value::<S>()),
    );
}

/// In a canonical unit nothing is scaled: the value comes back as it went
/// in wherever the scalar's own one, which is `1 / 1`, leaves a scalar
/// unchanged when it divides it and when it multiplies it.
pub proof fn law_canonical_unit_keeps_value<
    S: Copy + From<u32> + Div<Output = S> + Mul<Output = S>,
>(value: S, kind: Kind)
    ensures
        NamedUnit::canonical(kind).scale() == (Ratio { numerator: 1, denominator: 1 }),
        Measurement::spec_from_unit(value, NamedUnit::canonical(kind)).unit() == kind.unit(),
        ({
            let one = S::from_spec(1u32).div_spec(S::from_spec(1u32));
            value.div_spec(one) == value && value.mul_spec(one) == value
        }) ==> {
            let unit = NamedUnit::canonical(kind);
            &&& Measurement::spec_from_unit(value, unit).raw_value() == value
            &&& Measurement::spec_from_unit(value, unit).spec_to_unit(unit) == value
        },
{
    let unit = NamedUnit::canonical(kind);
    NamedUnit::lemma_canonical_scale_is_one(kind);
    Measurement::lemma_from_parts(
        unit.kind().unit(),
        value.div_spec(unit.scale().spec_value::<S>()),
    );
}

/// What one `length` in one `time` reads in `speed`, as a fraction of whole
/// numbers: the numerator first. It is taken from the three scales alone,
/// with no rounding.
pub open spec fn speed_reading(length: NamedUnit, time: NamedUnit, speed: NamedUnit) -> (int, int) {
    (
        length.scale().denominator * time.scale().numerator * speed.scale().numerator,
        length.scale().numerator * time.scale().denominator * speed.scale().denominator,
    )
}

/// The units of speed agree with those of length and time from which they
/// are named. One meter in one second is one meter per second, and one
/// kilometer in one hour one kilometer per hour, with nothing left over; one
/// mile in one hour is one mile per hour to within one part in a million.
pub proof fn law_speed_scales_agree()
    ensures
        speed_reading(NamedUnit::Meters, NamedUnit::Seconds, NamedUnit::MetersPerSecond).0
            == speed_reading(NamedUnit::Meters, NamedUnit::Seconds, NamedUnit::MetersPerSecond).1,
        speed_reading(NamedUnit::Kilometers, NamedUnit::Hours, NamedUnit::KilometersPerHour).0
            == speed_reading(NamedUnit::Kilometers, NamedUnit::Hours, NamedUnit::KilometersPerHour).1,
        ({
            let (reading, one) = speed_reading(
                NamedUnit::Miles,
                NamedUnit::Hours,
                NamedUnit::MilesPerHour,
            );
            -one <= 1000000 * (reading - one) <= one
        }),
{
    assert(NamedUnit::Kilometers.scale() == Ratio { numerator: 1, denominator: 1000 });
    assert(NamedUnit::Miles.scale() == Ratio { numerator: 1000, denominator: 1609344 });
    assert(NamedUnit::Hours.scale() == Ratio { numerator: 1, denominator: 3600 });
    assert(NamedUnit::KilometersPerHour.scale() == Ratio { numerator: 36, denominator: 10 });
    assert(NamedUnit::MilesPerHour.scale() == Ratio { numerator: 2236936, denominator: 1000000 });
    assert(1000int * 1 * 36 == 1 * 3600 * 10);
    assert(1609344int * 1 * 2236936 == 3599999529984);
    assert(1000int * 3600 * 1000000 == 3600000000000);
}

/// A hundred centimeters are a meter, and a thousand grams a kilogram: the
/// scale of each is that whole number.
pub proof fn law_metric_scales()
    ensures
        NamedUnit::Centimeters.scale() == (Ratio { numerator: 100, denominator: 1 }),
        NamedUnit::Grams.scale() == (Ratio { numerator: 1000, denominator: 1 }),
        NamedUnit::Kilometers.scale() == (Ratio { numerator: 1, denominator: 1000 }),
        NamedUnit::Milliseconds.scale() == (Ratio { numerator: 1000, denominator: 1 }),
        NamedUnit::Microseconds.scale() == (Ratio { numerator: 1000000, denominator: 1 }),
        NamedUnit::Nanoseconds.scale() == (Ratio { numerator: 1000000000, denominator: 1 }),
{
}

} // verus!

//! The kinds of quantity that have names, and the dimension of each.

use crate::unit::{UnitType, BASE_QUANTITIES};
use vstd::prelude::*;

verus! {

/// A kind of quantity with a name of its own: the seven base quantities, and
/// the derived ones that have named units.
///
/// Other dimensions need no declaration: they arise from products and quotients.
#[derive(Clone, Copy, Debug, PartialEq, Eq, Structural)]
pub enum Kind {
    Time,
    Length,
    Mass,
    Current,
    Temperature,
    Amount,
    Luminosity,
    /// Length squared.
    Area,
    /// Length per time.
    Speed,
}

impl Kind {
    /// The dimension of this kind: a single 1 for a base quantity.
    pub open spec fn spec_unit(self) -> UnitType {
        match self {
            Kind::Time => UnitType { time: 1, length: 0, mass: 0, current: 0, temperature: 0, amount: 0, luminosity: 0 },
            Kind::Length => UnitType { time: 0, length: 1, mass: 0, current: 0, temperature: 0, amount: 0, luminosity: 0 },
            Kind::Mass => UnitType { time: 0, length: 0, mass: 1, current: 0, temperature: 0, amount: 0, luminosity: 0 },
            Kind::Current => UnitType { time: 0, length: 0, mass: 0, current: 1, temperature: 0, amount: 0, luminosity: 0 },
            Kind::Temperature => UnitType { time: 0, length: 0, mass: 0, current: 0, temperature: 1, amount: 0, luminosity: 0 },
            Kind::Amount => UnitType { time: 0, length: 0, mass: 0, current: 0, temperature: 0, amount: 1, luminosity: 0 },
            Kind::Luminosity => UnitType { time: 0, length: 0, mass: 0, current: 0, temperature: 0, amount: 0, luminosity: 1 },
            Kind::Area => UnitType { time: 0, length: 2, mass: 0, current: 0, temperature: 0, amount: 0, luminosity: 0 },
            Kind::Speed => UnitType { time: -1i32, length: 1, mass: 0, current: 0, temperature: 0, amount: 0, luminosity: 0 },
        }
    }

    /// The dimension of this kind.
    #[verifier::when_used_as_spec(spec_unit)]
    pub fn unit(self) -> (u: UnitType)
        ensures
            u == self.spec_unit(),
    {
        match self {
            Kind::Time => UnitType { time: 1, length: 0, mass: 0, current: 0, temperature: 0, amount: 0, luminosity: 0 },
            Kind::Length => UnitType { time: 0, length: 1, mass: 0, current: 0, temperature: 0, amount: 0, luminosity: 0 },
            Kind::Mass => UnitType { time: 0, length: 0, mass: 1, current: 0, temperature: 0, amount: 0, luminosity: 0 },
            Kind::Current => UnitType { time: 0, length: 0, mass: 0, current: 1, temperature: 0, amount: 0, luminosity: 0 },
            Kind::Temperature => UnitType { time: 0, length: 0, mass: 0, current: 0, temperature: 1, amount: 0, luminosity: 0 },
            Kind::Amount => UnitType { time: 0, length: 0, mass: 0, current: 0, temperature: 0, amount: 1, luminosity: 0 },
            Kind::Luminosity => UnitType { time: 0, length: 0, mass: 0, current: 0, temperature: 0, amount: 0, luminosity: 1 },
            Kind::Area => UnitType { time: 0, length: 2, mass: 0, current: 0, temperature: 0, amount: 0, luminosity: 0 },
            Kind::Speed => UnitType { time: -1i32, length: 1, mass: 0, current: 0, temperature: 0, amount: 0, luminosity: 0 },
        }
    }

    /// Whether this kind is one of the seven base quantities.
    pub open spec fn is_base(self) -> bool {
        self != Kind::Area && self != Kind::Speed
    }

    /// The exponent vector with a 1 in place `i` and 0 elsewhere.
    pub open spec fn single(i: int) -> Seq<int> {
        Seq::new(BASE_QUANTITIES as nat, |j: int| if j == i { 1int } else { 0int })
    }

    /// A base kind has the exponent 1 in one place and 0 in the others, and
    /// each of the seven places belongs to one base kind.
    pub proof fn lemma_base_kinds()
        ensures
            forall|kind: Kind| #[trigger]
                kind.is_base() ==> exists|i: int|
                    0 <= i < BASE_QUANTITIES && kind.unit()@ == Self::single(i),
            forall|i: int|
                0 <= i < BASE_QUANTITIES ==> exists|kind: Kind|
                    kind.is_base() && kind.unit()@ == #[trigger] Self::single(i),
            forall|a: Kind, b: Kind| a.unit() == b.unit() ==> a == b,
    {
        assert(Kind::Time.unit()@ =~= Self::single(0));
        assert(Kind::Length.unit()@ =~= Self::single(1));
        assert(Kind::Mass.unit()@ =~= Self::single(2));
        assert(Kind::Current.unit()@ =~= Self::single(3));
        assert(Kind::Temperature.unit()@ =~= Self::single(4));
        assert(Kind::Amount.unit()@ =~= Self::single(5));
        assert(Kind::Luminosity.unit()@ =~= Self::single(6));
        assert forall|i: int| 0 <= i < BASE_QUANTITIES implies exists|kind: Kind|
            kind.is_base() && kind.unit()@ == #[trigger] Self::single(i) by {
            let kind = if i == 0 {
                Kind::Time
            } else if i == 1 {
                Kind::Length
            } else if i == 2 {
                Kind::Mass
            } else if i == 3 {
                Kind::Current
            } else if i == 4 {
                Kind::Temperature
            } else if i == 5 {
                Kind::Amount
            } else {
                Kind::Luminosity
            };
            assert(kind.is_base() && kind.unit()@ == Self::single(i));
        }
    }
}

} // verus!

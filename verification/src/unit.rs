//! Dimension vectors: the exponents of the seven base quantities.

use std::ops::{Add, Sub};
use vstd::prelude::*;

verus! {

/// How many base quantities a dimension vector ranges over.
pub const BASE_QUANTITIES: usize = 7;

/// The dimension of a quantity: one exponent for each base quantity.
///
/// Seen as a sequence, the exponents stand in the order time, length, mass,
/// current, temperature, amount, luminosity. A length has `length == 1` and
/// zero elsewhere; a speed has `length == 1` and `time == -1`.
#[derive(Clone, Copy, Debug, PartialEq, Eq, Structural)]
pub struct UnitType {
    pub time: i32,
    pub length: i32,
    pub mass: i32,
    pub current: i32,
    pub temperature: i32,
    pub amount: i32,
    pub luminosity: i32,
}

impl View for UnitType {
    type V = Seq<int>;

    open spec fn view(&self) -> Seq<int> {
        seq![
            self.time as int,
            self.length as int,
            self.mass as int,
            self.current as int,
            self.temperature as int,
            self.amount as int,
            self.luminosity as int,
        ]
    }
}

/// The componentwise sum of two exponent vectors: the dimension of a product.
pub open spec fn sum(a: Seq<int>, b: Seq<int>) -> Seq<int> {
    Seq::new(BASE_QUANTITIES as nat, |i: int| a[i] + b[i])
}

/// The componentwise difference of two exponent vectors: the dimension of a
/// quotient, dividend first.
pub open spec fn difference(a: Seq<int>, b: Seq<int>) -> Seq<int> {
    Seq::new(BASE_QUANTITIES as nat, |i: int| a[i] - b[i])
}

/// Whether every exponent of `v` can be stored in a `UnitType`.
pub open spec fn fits(v: Seq<int>) -> bool {
    forall|i: int| 0 <= i < BASE_QUANTITIES ==> i32::MIN <= #[trigger] v[i] <= i32::MAX
}

/// A vector fits exactly when each of its seven exponents does.
pub proof fn lemma_fits_each(v: Seq<int>)
    ensures
        fits(v) <==> {
            &&& i32::MIN <= v[0] <= i32::MAX
            &&& i32::MIN <= v[1] <= i32::MAX
            &&& i32::MIN <= v[2] <= i32::MAX
            &&& i32::MIN <= v[3] <= i32::MAX
            &&& i32::MIN <= v[4] <= i32::MAX
            &&& i32::MIN <= v[5] <= i32::MAX
            &&& i32::MIN <= v[6] <= i32::MAX
        },
{
    if fits(v) {
        assert(i32::MIN <= v[0] <= i32::MAX);
        assert(i32::MIN <= v[1] <= i32::MAX);
        assert(i32::MIN <= v[2] <= i32::MAX);
        assert(i32::MIN <= v[3] <= i32::MAX);
        assert(i32::MIN <= v[4] <= i32::MAX);
        assert(i32::MIN <= v[5] <= i32::MAX);
        assert(i32::MIN <= v[6] <= i32::MAX);
    }
}

impl UnitType {
    /// The vector that `exponents` describes, where it fits.
    pub open spec fn from_exponents(exponents: Seq<int>) -> UnitType {
        UnitType {
            time: exponents[0] as i32,
            length: exponents[1] as i32,
            mass: exponents[2] as i32,
            current: exponents[3] as i32,
            temperature: exponents[4] as i32,
            amount: exponents[5] as i32,
            luminosity: exponents[6] as i32,
        }
    }

    /// Two dimension vectors are the same exactly when all seven exponents agree.
    pub proof fn lemma_equal_by_exponents(self, other: UnitType)
        ensures
            self == other <==> self@ == other@,
            self == other <==> (forall|i: int| 0 <= i < BASE_QUANTITIES ==> self@[i] == other@[i]),
    {
        if self@ == other@ {
            assert(self.time == other@[0]);
            assert(self.length == other@[1]);
            assert(self.mass == other@[2]);
            assert(self.current == other@[3]);
            assert(self.temperature == other@[4]);
            assert(self.amount == other@[5]);
            assert(self.luminosity == other@[6]);
        }
        if forall|i: int| 0 <= i < BASE_QUANTITIES ==> self@[i] == other@[i] {
            assert(self@ =~= other@);
        }
    }

    /// The dimension of a product, or `None` where an exponent of it would
    /// not fit.
    pub fn checked_add(self, rhs: UnitType) -> (r: Option<UnitType>)
        ensures
            fits(sum(self@, rhs@)) ==> r is Some && r->0@ == sum(self@, rhs@),
            !fits(sum(self@, rhs@)) ==> r is None,
    {
        proof {
            lemma_fits_each(sum(self@, rhs@));
        }
        let time = self.time.checked_add(rhs.time);
        let length = self.length.checked_add(rhs.length);
        let mass = self.mass.checked_add(rhs.mass);
        let current = self.current.checked_add(rhs.current);
        let temperature = self.temperature.checked_add(rhs.temperature);
        let amount = self.amount.checked_add(rhs.amount);
        let luminosity = self.luminosity.checked_add(rhs.luminosity);
        match (time, length, mass, current, temperature, amount, luminosity) {
            (
                Some(time),
                Some(length),
                Some(mass),
                Some(current),
                Some(temperature),
                Some(amount),
                Some(luminosity),
            ) => {
                let r = UnitType { time, length, mass, current, temperature, amount, luminosity };
                assert(r@ =~= sum(self@, rhs@));
                Some(r)
            },
            _ => None,
        }
    }

    /// The dimension of a quotient, `self` over `rhs`, or `None` where an
    /// exponent of it would not fit.
    pub fn checked_sub(self, rhs: UnitType) -> (r: Option<UnitType>)
        ensures
            fits(difference(self@, rhs@)) ==> r is Some && r->0@ == difference(self@, rhs@),
            !fits(difference(self@, rhs@)) ==> r is None,
    {
        proof {
            lemma_fits_each(difference(self@, rhs@));
        }
        let time = self.time.checked_sub(rhs.time);
        let length = self.length.checked_sub(rhs.length);
        let mass = self.mass.checked_sub(rhs.mass);
        let current = self.current.checked_sub(rhs.current);
        let temperature = self.temperature.checked_sub(rhs.temperature);
        let amount = self.amount.checked_sub(rhs.amount);
        let luminosity = self.luminosity.checked_sub(rhs.luminosity);
        match (time, length, mass, current, temperature, amount, luminosity) {
            (
                Some(time),
                Some(length),
                Some(mass),
                Some(current),
                Some(temperature),
                Some(amount),
                Some(luminosity),
            ) => {
                let r = UnitType { time, length, mass, current, temperature, amount, luminosity };
                assert(r@ =~= difference(self@, rhs@));
                Some(r)
            },
            _ => None,
        }
    }

    /// A vector of seven exponents that fit is the view of exactly one `UnitType`.
    pub proof fn lemma_from_exponents(exponents: Seq<int>)
        requires
            exponents.len() == BASE_QUANTITIES,
            fits(exponents),
        ensures
            Self::from_exponents(exponents)@ == exponents,
    {
        assert(Self::from_exponents(exponents)@ =~= exponents);
    }
}

impl vstd::std_specs::ops::AddSpecImpl for UnitType {
    open spec fn obeys_add_spec() -> bool {
        true
    }

    open spec fn add_req(self, rhs: UnitType) -> bool {
        fits(sum(self@, rhs@))
    }

    open spec fn add_spec(self, rhs: UnitType) -> UnitType {
        UnitType::from_exponents(sum(self@, rhs@))
    }
}

impl Add for UnitType {
    type Output = UnitType;

    /// The dimension of a product of two quantities of dimensions `self` and `rhs`.
    fn add(self, rhs: UnitType) -> (r: UnitType)
        ensures
            r@ == sum(self@, rhs@),
    {
        proof {
            lemma_fits_each(sum(self@, rhs@));
        }
        let r = UnitType {
            time: self.time + rhs.time,
            length: self.length + rhs.length,
            mass: self.mass + rhs.mass,
            current: self.current + rhs.current,
            temperature: self.temperature + rhs.temperature,
            amount: self.amount + rhs.amount,
            luminosity: self.luminosity + rhs.luminosity,
        };
        assert(r@ =~= sum(self@, rhs@));
        r
    }
}

impl vstd::std_specs::ops::SubSpecImpl for UnitType {
    open spec fn obeys_sub_spec() -> bool {
        true
    }

    open spec fn sub_req(self, rhs: UnitType) -> bool {
        fits(difference(self@, rhs@))
    }

    open spec fn sub_spec(self, rhs: UnitType) -> UnitType {
        UnitType::from_exponents(difference(self@, rhs@))
    }
}

impl Sub for UnitType {
    type Output = UnitType;

    /// The dimension of a quotient: that of the dividend `self` less that of the divisor `rhs`.
    fn sub(self, rhs: UnitType) -> (r: UnitType)
        ensures
            r@ == difference(self@, rhs@),
    {
        proof {
            lemma_fits_each(difference(self@, rhs@));
        }
        let r = UnitType {
            time: self.time - rhs.time,
            length: self.length - rhs.length,
            mass: self.mass - rhs.mass,
            current: self.current - rhs.current,
            temperature: self.temperature - rhs.temperature,
            amount: self.amount - rhs.amount,
            luminosity: self.luminosity - rhs.luminosity,
        };
        assert(r@ =~= difference(self@, rhs@));
        r
    }
}

} // verus!

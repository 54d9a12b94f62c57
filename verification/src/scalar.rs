//! What the library asks of the scalar in which magnitudes are held, and the
//! words in which it speaks of the scalar's arithmetic.
//!
//! A measurement holds one scalar of a type `S` that the caller picks. The
//! library adds, subtracts, multiplies and divides scalars with the operators
//! of `S`, and makes scale factors from whole numbers with `S::from`. It asks
//! of each operation only that `S` admit the operands, and says of each result
//! that it is one that `S` gives for them. What an IEEE number does on
//! rounding, on overflow or on a division by zero is the scalar's own affair,
//! and passes through unchanged.
//!
//! Where the operators of `S` obey the specifications that they state, a
//! result is also given as a value: the one that those specifications name.
//! That says nothing of how close the value is to the quotient or the product
//! of the mathematical numbers: a whole-number scalar obeys, and truncates.
//!
//! The scale factors are made with `From<u32>`. An IEEE number of 64 bits
//! has it; one of 32 bits comes in as a type of the caller's that wraps it
//! and converts a whole number by rounding to the nearest.

use crate::named::Ratio;
use std::ops::{Add, Div, Mul, Sub};
use vstd::prelude::*;
use vstd::std_specs::convert::FromSpec;
use vstd::std_specs::ops::DivSpec;

verus! {

/// Whether `S` admits `a + b`.
pub open spec fn can_add<S: Add<Output = S>>(a: S, b: S) -> bool {
    call_requires(<S as Add>::add, (a, b))
}

/// Whether `r` is a result that `S` gives for `a + b`.
pub open spec fn is_sum<S: Add<Output = S>>(a: S, b: S, r: S) -> bool {
    call_ensures(<S as Add>::add, (a, b), r)
}

/// Whether `S` admits `a - b`.
pub open spec fn can_subtract<S: Sub<Output = S>>(a: S, b: S) -> bool {
    call_requires(<S as Sub>::sub, (a, b))
}

/// Whether `r` is a result that `S` gives for `a - b`.
pub open spec fn is_difference<S: Sub<Output = S>>(a: S, b: S, r: S) -> bool {
    call_ensures(<S as Sub>::sub, (a, b), r)
}

/// Whether `S` admits `a * b`.
pub open spec fn can_multiply<S: Mul<Output = S>>(a: S, b: S) -> bool {
    call_requires(<S as Mul>::mul, (a, b))
}

/// Whether `r` is a result that `S` gives for `a * b`.
pub open spec fn is_product<S: Mul<Output = S>>(a: S, b: S, r: S) -> bool {
    call_ensures(<S as Mul>::mul, (a, b), r)
}

/// Whether `S` admits `a / b`.
pub open spec fn can_divide<S: Div<Output = S>>(a: S, b: S) -> bool {
    call_requires(<S as Div>::div, (a, b))
}

/// Whether `r` is a result that `S` gives for `a / b`.
pub open spec fn is_quotient<S: Div<Output = S>>(a: S, b: S, r: S) -> bool {
    call_ensures(<S as Div>::div, (a, b), r)
}

/// Whether `r` is a scalar that `S` makes of the whole number `n`.
pub open spec fn is_whole<S: From<u32>>(n: u32, r: S) -> bool {
    call_ensures(<S as From<u32>>::from, (n,), r)
}

/// Whether `S::from` and the division of `S` obey the specifications that
/// they state: then a scale factor in `S` is the one value that
/// `Ratio::spec_value` names.
pub open spec fn obeys_ratio_spec<S: From<u32> + Div<Output = S>>() -> bool {
    S::obeys_from_spec() && S::obeys_div_spec()
}

impl Ratio {
    /// This ratio as the specifications of `S` name it: what they give for
    /// the numerator, divided as they say by what they give for the
    /// denominator. In a whole-number scalar that is the truncated quotient.
    #[verifier::inline]
    pub open spec fn spec_value<S: From<u32> + Div<Output = S>>(self) -> S {
        S::from_spec(self.numerator).div_spec(S::from_spec(self.denominator))
    }

    /// Whether `f` is a scalar that `S` gives for this ratio: a quotient of
    /// the scalars that it makes of the numerator and of the denominator.
    pub open spec fn is_value<S: From<u32> + Div<Output = S>>(self, f: S) -> bool {
        exists|n: S, d: S|
            is_whole(self.numerator, n) && is_whole(self.denominator, d) && is_quotient(n, d, f)
    }

    /// Whether `S` can compute this ratio: whether it admits the division of
    /// the numerator by the denominator, whichever scalars it makes of them.
    pub open spec fn value_req<S: From<u32> + Div<Output = S>>(self) -> bool {
        forall|n: S, d: S|
            is_whole(self.numerator, n) && is_whole(self.denominator, d) ==> can_divide(n, d)
    }

    /// Computes this ratio as a scalar: the numerator divided by the denominator, in `S`.
    pub fn value<S: From<u32> + Div<Output = S>>(self) -> (f: S)
        requires
            self.value_req::<S>(),
        ensures
            self.is_value(f),
            obeys_ratio_spec::<S>() ==> f == self.spec_value::<S>(),
    {
        let numerator: S = S::from(self.numerator);
        let denominator: S = S::from(self.denominator);
        assert(is_whole(self.numerator, numerator));
        assert(is_whole(self.denominator, denominator));
        assert(can_divide(numerator, denominator));
        let f = numerator / denominator;
        assert(is_quotient(numerator, denominator, f));
        f
    }

    /// Whether `S` can compute this ratio and divide `a` by it: by every
    /// scalar that it may give for the ratio.
    pub open spec fn divides<S: From<u32> + Div<Output = S>>(self, a: S) -> bool {
        &&& self.value_req::<S>()
        &&& forall|f: S| self.is_value(f) ==> can_divide(a, f)
    }

    /// Whether `r` is a result that `S` gives for `a` divided by this ratio.
    pub open spec fn gives_quotient<S: From<u32> + Div<Output = S>>(self, a: S, r: S) -> bool {
        exists|f: S| self.is_value(f) && is_quotient(a, f, r)
    }

    /// Whether `S` can compute this ratio and multiply `a` by it: by every
    /// scalar that it may give for the ratio.
    pub open spec fn multiplies<S: From<u32> + Div<Output = S> + Mul<Output = S>>(
        self,
        a: S,
    ) -> bool {
        &&& self.value_req::<S>()
        &&& forall|f: S| self.is_value(f) ==> can_multiply(a, f)
    }

    /// Whether `r` is a result that `S` gives for `a` multiplied by this ratio.
    pub open spec fn gives_product<S: From<u32> + Div<Output = S> + Mul<Output = S>>(
        self,
        a: S,
        r: S,
    ) -> bool {
        exists|f: S| self.is_value(f) && is_product(a, f, r)
    }
}

} // verus!

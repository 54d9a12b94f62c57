//! Physical quantities that carry their dimension.
//!
//! A [`Measurement`] is a magnitude together with a [`UnitType`], the vector
//! of exponents that says how the quantity is made of the seven base
//! quantities: time, length, mass, current, temperature, amount and
//! luminosity. Magnitudes are held in canonical units (seconds, meters,
//! kilograms, amperes, kelvin, moles, candela, and what these make), and a
//! [`NamedUnit`] converts at the boundary: on the way in a value is divided by
//! the scale of its unit, on the way out the magnitude is multiplied by it.
//!
//! ```text
//! let speed = Measurement::kilometers(0.032) / Measurement::seconds(2.0);
//! speed.get_meters_per_second()   // 16.0
//! ```
//!
//! Dimensions are checked before the program runs. A sum or a difference asks,
//! as a precondition, that both operands have one dimension, and a reader such
//! as `get_seconds` that the measurement be a time: a caller that adds a
//! length to a time does not verify. A product has the sum of the exponents
//! of its operands and a quotient their difference, so that dimensions which
//! have no name arise from arithmetic alone.
//!
//! The magnitude is a scalar of a type `S` that the caller picks; see
//! [`scalar`] for what is asked of it. Every result is stated twice: as a
//! result that `S` gives for the operands, which holds of every scalar, and as
//! the value that the specifications of its operators name, where `S` obeys
//! them.
//!
//! Scale factors are made with `From<u32>`, so an IEEE number of 64 bits is a
//! scalar as it stands; one of 32 bits, to which std gives no such
//! conversion, is a scalar once the caller wraps it in a type that has one.
//!
//! In a proof about whole-number magnitudes, state the scale of a unit before
//! it is used, so that the solver has it as a number:
//!
//! ```text
//! assert(NamedUnit::Milliseconds.scale().spec_value::<u64>() == 1000);
//! let d = Measurement::<u64>::milliseconds(16000);
//! assert(d.raw_value() == 16);
//! ```
//!
//! A product or a quotient states its dimension as a sequence of exponents;
//! `UnitType::lemma_equal_by_exponents` turns equal sequences into equal
//! dimensions.

pub mod kind;
pub mod laws;
pub mod measurement;
pub mod named;
pub mod scalar;
pub mod unit;
pub mod units;

pub use kind::Kind;
pub use measurement::{add_lengths, Measurement};
pub use named::{NamedUnit, Ratio};
pub use unit::UnitType;

use vstd::prelude::*;

verus! {

/// Adds two counts.
pub fn add(left: usize, right: usize) -> (sum: usize)
    requires
        left + right <= usize::MAX,
    ensures
        sum == left + right,
{
    left + right
}

} // verus!

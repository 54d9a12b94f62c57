//! Makers and readers for each named unit, kind by kind.

pub mod amount;
pub mod area;
pub mod current;
pub mod length;
pub mod luminosity;
pub mod mass;
pub mod speed;
pub mod temperature;
pub mod time;

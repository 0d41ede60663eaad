//! Schotter in motion: a grid of stones that drift out of place and back.
//!
//! Each stone of the grid rests or travels for a random stretch of ticks.
//! How likely it is to travel, how far and how far round is set by three
//! tunable parameters, and grows with the row that the stone lies in. The
//! library holds the grid, the parameters and the rule that advances them by
//! one tick; drawing the stones is left to the caller.
//!
//! All fractional quantities are fixed-point integers, see [`fixed`].

pub mod color;
mod dice;
pub mod draw;
pub mod fixed;
pub mod gravel;
pub mod laws;
pub mod params;
pub mod stone;

pub use crate::color::Rgb;
pub use crate::draw::Draw;
pub use crate::gravel::Gravel;
pub use crate::params::Parameters;
pub use crate::stone::Stone;

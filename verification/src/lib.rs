//! Verified geometry core for an exact-placement UI image widget.
//!
//! A host engine supplies layout boxes, a draw-order stack and asset lookups;
//! this crate computes measured-size hints, final render sizes, alignment
//! offsets and atlas scale corrections, and emits drawable records in
//! back-to-front order. All coordinates are exact rationals, so every
//! formula is stated and proved without rounding.

pub mod extract;
pub mod geometry;
pub mod hints;
pub mod model;
pub mod rat;

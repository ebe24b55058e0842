//! Ingredient weight calculation for mixed drinks.
//!
//! The crate computes the weight in grams to pour of each ingredient in a
//! recipe, from its alcohol-by-volume percentage, its relative share in
//! "parts", and the number of drinks to prepare.  All quantities are held in
//! decimal fixed point so that every arithmetic step has an exact, verified
//! meaning.

pub mod calc;
pub mod cursor_state;
pub mod fixed;
pub mod math;
pub mod text;
pub mod theme;
pub mod types;

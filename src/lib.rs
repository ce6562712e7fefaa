//! A single-value cell whose contents are read by copy and replaced by move.

pub mod cell;

pub use cell::Cell;

//! Rewrites a sequence of face turns on the 3x3x3 cube into a minimum-cost
//! equivalent program that may interleave face turns with whole-cube
//! rotations.

pub mod basic;
pub mod dp;
pub mod fmt;
pub mod rotation;
pub mod semantics;
pub mod solver;
pub mod z4;

pub use basic::{Axis, AxialMove, AxialRotation, Face, Move};
pub use rotation::Rotation;
pub use solver::{solve, MoveOrRot};
pub use z4::Z4;

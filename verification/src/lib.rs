//! A two-dimensional Ising ferromagnet on a torus, advanced by single-spin-flip
//! Metropolis dynamics.
//!
//! The crate is the deterministic core of such a simulation. Everything that
//! is random or real-valued enters as plain integers: a uniform draw is a
//! 32-bit word `w` standing for the real number `w / 2^32` in `[0, 1)`, and an
//! acceptance probability is a count of `2^-32` units. The host owns the random
//! source and the floating-point arithmetic that turns a coupling constant and
//! an external field into acceptance levels.

use crate::spin::Spin;
use vstd::prelude::*;

pub mod bitset;
pub mod error;
pub mod metropolis;
pub mod simulation;
pub mod spin;
pub mod spin_grid;
pub mod utils;

pub use crate::simulation::Simulation;

verus! {

/// Signed weight of a spin given as the bit that stores it.
pub fn to_spin(spin_repr: bool) -> (weight: i32)
    ensures
        weight == Spin::of_bit(spin_repr).weight(),
{
    if spin_repr {
        1
    } else {
        -1
    }
}

} // verus!

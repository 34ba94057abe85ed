//! The two ways in which a request can be refused.

use crate::spin_grid::Position;
use vstd::prelude::*;

verus! {

/// A position that lies outside the grid it was used on.
#[derive(Debug, Clone, Copy, PartialEq, Eq, Structural)]
pub struct BoundsError {
    /// The position that was refused.
    pub position: Position,
}

/// Why a grid could not be built.
#[derive(Debug, Clone, Copy, PartialEq, Eq, Structural)]
pub enum ConstructionError {
    /// The width or the height is zero.
    ZeroExtent,
    /// Width times height does not fit the machine's index range.
    TooLarge,
    /// The number of seed words differs from the number of sites.
    SeedLength,
}

} // verus!

//! The plain values on which one Metropolis trial is decided: the three
//! uniform words of a draw, the acceptance level of each local
//! configuration, and the energy that a flip would cost.
//!
//! A flip that does not raise the energy is always accepted. One that raises
//! it by `dE` is accepted with probability `exp(-dE)`. The host evaluates that
//! probability once for each of the ten local configurations (a spin and the
//! sum of its four neighbours) and hands it over as a level in units of
//! `2^-32`; the trial then compares the level with a uniform word.

use crate::spin::Spin;
use vstd::prelude::*;

verus! {

/// How readily a flip is accepted.
#[derive(Debug, Clone, Copy, PartialEq, Eq, Structural)]
pub enum Acceptance {
    /// The flip does not raise the energy: it is accepted whatever is drawn.
    Always,
    /// The flip raises the energy: it is accepted with probability
    /// `level / 2^32`, that is when the level exceeds the uniform word drawn.
    Chance(u32),
}

impl Acceptance {
    /// Whether a flip at this level is accepted on the uniform word `word`.
    pub open spec fn admits(self, word: u32) -> bool {
        match self {
            Acceptance::Always => true,
            Acceptance::Chance(level) => level > word,
        }
    }

    /// Decides a flip at this level on the uniform word `word`.
    pub fn accepts(self, word: u32) -> (accepted: bool)
        ensures
            accepted == self.admits(word),
    {
        match self {
            Acceptance::Always => true,
            Acceptance::Chance(level) => level > word,
        }
    }
}

/// The acceptance level of every local configuration: of a spin up or down
/// whose four neighbours sum to -4, -2, 0, 2 or 4.
#[derive(Debug, Clone, Copy, PartialEq, Eq)]
pub struct AcceptanceTable {
    up: [Acceptance; 5],
    down: [Acceptance; 5],
}

impl AcceptanceTable {
    /// Whether `neighbor_sum` is a sum that four spins can have.
    pub open spec fn has_level(neighbor_sum: int) -> bool {
        -4 <= neighbor_sum <= 4 && neighbor_sum % 2 == 0
    }

    /// The entry that a neighbour sum selects: -4, -2, 0, 2, 4 select 0 to 4.
    spec fn slot(neighbor_sum: int) -> int {
        (neighbor_sum + 4) / 2
    }

    /// The level at which a flip of `spin` is accepted when its neighbours
    /// sum to `neighbor_sum`.
    pub closed spec fn level(self, spin: Spin, neighbor_sum: int) -> Acceptance {
        if spin == Spin::Up {
            self.up@[Self::slot(neighbor_sum)]
        } else {
            self.down@[Self::slot(neighbor_sum)]
        }
    }

    /// A table with the same level for every configuration.
    pub fn filled(level: Acceptance) -> (table: AcceptanceTable)
        ensures
            forall|spin: Spin, neighbor_sum: int|
                Self::has_level(neighbor_sum) ==> #[trigger] table.level(spin, neighbor_sum)
                    == level,
    {
        AcceptanceTable { up: [level;5], down: [level;5] }
    }

    /// Sets the level for one configuration and leaves the others. A sum that
    /// four spins cannot have is refused: nothing changes and `false` comes
    /// back.
    pub fn assign(&mut self, spin: Spin, neighbor_sum: i32, level: Acceptance) -> (done: bool)
        ensures
            done == Self::has_level(neighbor_sum as int),
            forall|other: Spin, sum: int|
                Self::has_level(sum) ==> #[trigger] final(self).level(other, sum) == if done
                    && other == spin && sum == neighbor_sum {
                    level
                } else {
                    old(self).level(other, sum)
                },
    {
        if neighbor_sum < -4 || neighbor_sum > 4 || (neighbor_sum + 4) % 2 != 0 {
            return false;
        }
        let slot: usize = ((neighbor_sum + 4) / 2) as usize;
        match spin {
            Spin::Up => {
                self.up[slot] = level;
            },
            Spin::Down => {
                self.down[slot] = level;
            },
        }
        true
    }

    /// The level for a spin and the sum of its four neighbours, and `None`
    /// for a sum that four spins cannot have.
    pub fn lookup(&self, spin: Spin, neighbor_sum: i32) -> (found: Option<Acceptance>)
        ensures
            found is Some <==> Self::has_level(neighbor_sum as int),
            found matches Some(level) ==> level == self.level(spin, neighbor_sum as int),
    {
        if neighbor_sum < -4 || neighbor_sum > 4 || (neighbor_sum + 4) % 2 != 0 {
            return None;
        }
        let slot: usize = ((neighbor_sum + 4) / 2) as usize;
        match spin {
            Spin::Up => Some(self.up[slot]),
            Spin::Down => Some(self.down[slot]),
        }
    }
}

/// The uniform words of one trial. Each word `w` stands for the real
/// `w / 2^32` in `[0, 1)`.
#[derive(Debug, Clone, Copy, PartialEq, Eq, Structural)]
pub struct Draw {
    /// Selects the row.
    pub row: u32,
    /// Selects the column.
    pub col: u32,
    /// Decides a flip that raises the energy.
    pub chance: u32,
}

/// The energy that flipping one spin costs, `2 s (J n + h)` for a spin of
/// weight `s` whose neighbours sum to `n`, held as the integer factors of the
/// coupling constant `J` and of the external field `h`.
#[derive(Debug, Clone, Copy, PartialEq, Eq, Structural)]
pub struct EnergyChange {
    /// The factor of `J`: `2 s n`.
    pub coupling_factor: i64,
    /// The factor of `h`: `2 s`.
    pub field_factor: i64,
}

impl EnergyChange {
    /// The cost of flipping `spin` when its neighbours sum to `neighbor_sum`.
    pub fn of_flip(spin: Spin, neighbor_sum: i32) -> (cost: EnergyChange)
        ensures
            cost.coupling_factor == 2 * spin.weight() * neighbor_sum,
            cost.field_factor == 2 * spin.weight(),
    {
        let weight: i64 = spin.as_weight() as i64;
        let sum: i64 = neighbor_sum as i64;
        assert(-0x1_0000_0000 <= 2 * weight * sum <= 0x1_0000_0000) by (nonlinear_arith)
            requires
                -1 <= weight <= 1,
                -0x8000_0000 <= sum < 0x8000_0000,
        ;
        EnergyChange { coupling_factor: 2 * weight * sum, field_factor: 2 * weight }
    }
}

} // verus!

//! The simulation: a grid of spins with the acceptance levels of its
//! coupling and field, advanced by Metropolis trials on draws that the caller
//! supplies.
//!
//! Sites are addressed by row and column; row `r`, column `c` is the grid
//! position with `x = c` and `y = r`.

use crate::error::{BoundsError, ConstructionError};
use crate::metropolis::{Acceptance, AcceptanceTable, Draw, EnergyChange};
use crate::spin::Spin;
use crate::spin_grid::{
    flipped, lemma_index_in_range, neighbor_sum, net_spin, weight_at, Average, Dimensions,
    Position, SpinGrid,
};
use crate::utils::{lemma_scaled_draw_below_bound, random_u32_up_to, scaled_draw};
use crate::bitset::{block_bit, block_count};
use vstd::prelude::*;

verus! {

/// A seed word below this threshold makes a spin down, any other word a spin
/// up. It is 0.3 in units of `2^-32`, rounded up, so a uniform word gives a
/// spin down with probability 0.3.
pub const SPIN_DOWN_THRESHOLD: u32 = 1288490189;

/// The grid position of row `row`, column `col`.
pub open spec fn site(row: u32, col: u32) -> Position {
    Position { x: col, y: row }
}

/// The site that a draw selects: its row and column words, each scaled by the
/// extent and truncated.
pub open spec fn trial_site(dims: Dimensions, draw: Draw) -> Position {
    Position {
        x: scaled_draw(draw.col, dims.width) as u32,
        y: scaled_draw(draw.row, dims.height) as u32,
    }
}

/// Whether the trial on `draw` flips the spin it selects: the level of that
/// spin's configuration admits the draw's chance word.
pub open spec fn trial_accepted(
    table: AcceptanceTable,
    dims: Dimensions,
    cells: Seq<bool>,
    draw: Draw,
) -> bool {
    let pos = trial_site(dims, draw);
    table.level(Spin::of_bit(cells[dims.site_index(pos)]), neighbor_sum(dims, cells, pos)).admits(
        draw.chance,
    )
}

/// The cells after one trial: the selected spin inverted if the trial is
/// accepted, everything as before if not.
pub open spec fn after_trial(
    table: AcceptanceTable,
    dims: Dimensions,
    cells: Seq<bool>,
    draw: Draw,
) -> Seq<bool> {
    if trial_accepted(table, dims, cells, draw) {
        flipped(cells, dims.site_index(trial_site(dims, draw)))
    } else {
        cells
    }
}

/// The cells after one trial for each draw, in order; each trial sees what
/// the trials before it left.
pub open spec fn after_sweep(
    table: AcceptanceTable,
    dims: Dimensions,
    cells: Seq<bool>,
    draws: Seq<Draw>,
) -> Seq<bool>
    decreases draws.len(),
{
    if draws.len() == 0 {
        cells
    } else {
        after_trial(table, dims, after_sweep(table, dims, cells, draws.drop_last()), draws.last())
    }
}

/// The seeded state of a grid: one spin per seed word, down for a word below
/// the threshold.
pub open spec fn seeded(seed: Seq<u32>) -> Seq<bool> {
    Seq::new(seed.len(), |i: int| seed[i] >= SPIN_DOWN_THRESHOLD)
}

/// A grid of spins together with the acceptance levels that stand for its
/// coupling constant and external field.
#[derive(Debug)]
pub struct Simulation {
    grid: SpinGrid,
    acceptance: AcceptanceTable,
}

impl View for Simulation {
    type V = Seq<bool>;

    /// The cells in row-major order; `true` is a spin up.
    closed spec fn view(&self) -> Seq<bool> {
        self.grid@
    }
}

impl Simulation {
    /// The extents of the grid.
    pub closed spec fn dims(&self) -> Dimensions {
        self.grid.dims()
    }

    /// The acceptance levels that the simulation was built with.
    pub closed spec fn table(&self) -> AcceptanceTable {
        self.acceptance
    }

    /// The extents are valid, there is exactly one cell per site, and the
    /// number of sites fits the machine's index range.
    pub open spec fn wf(&self) -> bool {
        &&& self.dims().valid()
        &&& self@.len() == self.dims().sites()
        &&& self.dims().sites() <= usize::MAX
    }

    /// A simulation of `width` by `height` sites with the given acceptance
    /// levels, its spins set from one seed word per site in row-major order.
    pub fn new(width: u32, height: u32, acceptance: AcceptanceTable, seed: &[u32]) -> (made: Result<
        Simulation,
        ConstructionError,
    >)
        ensures
            made is Err <==> width == 0 || height == 0 || seed@.len() != width * height,
            made matches Err(e) ==> e == if width == 0 || height == 0 {
                ConstructionError::ZeroExtent
            } else if width * height > usize::MAX {
                ConstructionError::TooLarge
            } else {
                ConstructionError::SeedLength
            },
            made matches Ok(sim) ==> sim.wf() && sim.dims() == (Dimensions { width, height })
                && sim.table() == acceptance && sim@ == seeded(seed@),
    {
        let dims = Dimensions { width, height };
        let given: usize = seed.len();
        let mut grid = match SpinGrid::new(&dims) {
            Ok(grid) => grid,
            Err(e) => {
                return Err(e);
            },
        };
        let sites: usize = grid.len();
        if given != sites {
            return Err(ConstructionError::SeedLength);
        }
        let mut i: usize = 0;
        while i < sites
            invariant
                i <= sites,
                sites == seed@.len(),
                grid.wf(),
                grid.dims() == dims,
                grid@.len() == sites,
                forall|j: int| 0 <= j < i ==> grid@[j] == (seed@[j] >= SPIN_DOWN_THRESHOLD),
            decreases sites - i,
        {
            grid.store(i, seed[i] >= SPIN_DOWN_THRESHOLD);
            i += 1;
        }
        assert(grid@ =~= seeded(seed@));
        Ok(Simulation { grid, acceptance })
    }

    /// The row-major index of row `row`, column `col`, or a `BoundsError`
    /// when that site is off the grid.
    pub fn index(&self, row: u32, col: u32) -> (found: Result<usize, BoundsError>)
        requires
            self.wf(),
        ensures
            found is Ok <==> row < self.dims().height && col < self.dims().width,
            found matches Ok(index) ==> index == row * self.dims().width + col && index
                < self@.len(),
            found matches Err(e) ==> e.position == site(row, col),
    {
        proof {
            assert(row * self.dims().width == self.dims().width * row) by (nonlinear_arith);
        }
        self.grid.calc_index(Position { x: col, y: row })
    }

    /// The weight of the spin at row `row`, column `col`: `+1` for up, `-1`
    /// for down.
    pub fn spin(&self, row: u32, col: u32) -> (found: Result<i32, BoundsError>)
        requires
            self.wf(),
        ensures
            found is Ok <==> self.dims().holds(site(row, col)),
            found matches Ok(weight) ==> weight == weight_at(
                self@,
                self.dims().site_index(site(row, col)),
            ),
            found matches Err(e) ==> e.position == site(row, col),
    {
        match self.grid.index(Position { x: col, y: row }) {
            Ok(spin) => Ok(spin.as_weight()),
            Err(e) => Err(e),
        }
    }

    /// Inverts the spin at row `row`, column `column`. A site off the grid is
    /// refused and nothing changes.
    pub fn flip_spin(&mut self, row: u32, column: u32) -> (done: Result<(), BoundsError>)
        requires
            old(self).wf(),
        ensures
            final(self).wf(),
            final(self).dims() == old(self).dims(),
            final(self).table() == old(self).table(),
            done is Ok <==> old(self).dims().holds(site(row, column)),
            done is Ok ==> final(self)@ == flipped(
                old(self)@,
                old(self).dims().site_index(site(row, column)),
            ),
            done matches Err(e) ==> e.position == site(row, column) && final(self)@ == old(self)@,
    {
        self.grid.flip(Position { x: column, y: row })
    }

    /// The row and column that two uniform words select; always on the grid.
    pub fn random_position(&self, row_word: u32, col_word: u32) -> (at: (u32, u32))
        requires
            self.wf(),
        ensures
            at.0 == scaled_draw(row_word, self.dims().height),
            at.1 == scaled_draw(col_word, self.dims().width),
            self.dims().holds(site(at.0, at.1)),
    {
        let dims = self.grid.dimensions();
        let rand_row: u32 = random_u32_up_to(dims.height, row_word);
        let rand_col: u32 = random_u32_up_to(dims.width, col_word);
        (rand_row, rand_col)
    }

    /// The sum of the weights of the four neighbours of row `row`, column
    /// `column`, with periodic wrap-around.
    pub fn calc_neighbor_sum(&self, row: u32, column: u32) -> (found: Result<i32, BoundsError>)
        requires
            self.wf(),
        ensures
            found is Ok <==> self.dims().holds(site(row, column)),
            found matches Ok(sum) ==> sum == neighbor_sum(self.dims(), self@, site(row, column)),
            found matches Err(e) ==> e.position == site(row, column),
    {
        self.grid.sum_neighbors(Position { x: column, y: row })
    }

    /// The energy that flipping the spin at row `row`, column `column` costs
    /// when its neighbours sum to `neighbor_sum`: `2 s (J neighbor_sum + h)`
    /// for a spin of weight `s`, as the factors of `J` and of `h`.
    pub fn calc_delta_energy(&self, row: u32, column: u32, neighbor_sum: i32) -> (found: Result<
        EnergyChange,
        BoundsError,
    >)
        requires
            self.wf(),
        ensures
            found is Ok <==> self.dims().holds(site(row, column)),
            found matches Ok(cost) ==> {
                let s = weight_at(self@, self.dims().site_index(site(row, column)));
                cost.coupling_factor == 2 * s * neighbor_sum && cost.field_factor == 2 * s
            },
            found matches Err(e) ==> e.position == site(row, column),
    {
        match self.grid.index(Position { x: column, y: row }) {
            Ok(spin) => Ok(EnergyChange::of_flip(spin, neighbor_sum)),
            Err(e) => Err(e),
        }
    }

    /// One Metropolis trial: selects a site by the draw's row and column
    /// words, and inverts its spin if the level of its configuration admits
    /// the draw's chance word.
    pub fn update_spin(&mut self, draw: Draw)
        requires
            old(self).wf(),
        ensures
            final(self).wf(),
            final(self).dims() == old(self).dims(),
            final(self).table() == old(self).table(),
            final(self)@ == after_trial(old(self).table(), old(self).dims(), old(self)@, draw),
    {
        let (row, column) = self.random_position(draw.row, draw.col);
        let pos = Position { x: column, y: row };
        if let (Ok(spin), Ok(sum)) = (self.grid.index(pos), self.grid.sum_neighbors(pos)) {
            if let Some(level) = self.acceptance.lookup(spin, sum) {
                if level.accepts(draw.chance) {
                    let _ = self.grid.flip(pos);
                }
            }
        }
    }

    /// A sweep: one trial for each draw, in order.
    pub fn update_spins(&mut self, draws: &[Draw])
        requires
            old(self).wf(),
        ensures
            final(self).wf(),
            final(self).dims() == old(self).dims(),
            final(self).table() == old(self).table(),
            final(self)@ == after_sweep(old(self).table(), old(self).dims(), old(self)@, draws@),
    {
        let ghost table = self.table();
        let ghost dims = self.dims();
        let ghost start = self@;
        let mut i: usize = 0;
        while i < draws.len()
            invariant
                i <= draws@.len(),
                self.wf(),
                self.dims() == dims,
                self.table() == table,
                self@ == after_sweep(table, dims, start, draws@.take(i as int)),
            decreases draws@.len() - i,
        {
            assert(draws@.take(i + 1).drop_last() =~= draws@.take(i as int));
            self.update_spin(draws[i]);
            i += 1;
        }
        assert(draws@.take(i as int) =~= draws@);
    }

    /// The packed spins, read-only: 32 sites per word, site `i` in bit
    /// `i % 32` (counted from the least significant bit) of word `i / 32`.
    pub fn spins(&self) -> (words: &[u32])
        ensures
            words@.len() == block_count(self@.len()),
            forall|i: int|
                0 <= i < self@.len() ==> #[trigger] self@[i] == block_bit(
                    words@[i / 32],
                    (i % 32) as u32,
                ),
    {
        self.grid.ptr()
    }

    /// The mean spin over the grid, as the exact fraction of the net spin over
    /// the number of sites.
    pub fn magnetization(&self) -> (mean: Average)
        ensures
            mean.net == net_spin(self@),
            mean.sites == self@.len(),
            self.wf() ==> mean.sites >= 1,
    {
        self.grid.avg()
    }
}

/// The site that a draw selects lies on the grid.
pub proof fn lemma_trial_site_on_grid(dims: Dimensions, draw: Draw)
    requires
        dims.valid(),
    ensures
        dims.holds(trial_site(dims, draw)),
        0 <= dims.site_index(trial_site(dims, draw)) < dims.sites(),
{
    lemma_scaled_draw_below_bound(draw.col, dims.width);
    lemma_scaled_draw_below_bound(draw.row, dims.height);
    lemma_index_in_range(dims, trial_site(dims, draw));
}

/// A trial never changes the number of cells.
pub proof fn lemma_trial_keeps_length(
    table: AcceptanceTable,
    dims: Dimensions,
    cells: Seq<bool>,
    draw: Draw,
)
    requires
        dims.valid(),
        cells.len() == dims.sites(),
    ensures
        after_trial(table, dims, cells, draw).len() == cells.len(),
{
    lemma_trial_site_on_grid(dims, draw);
}

/// A flip that does not raise the energy is made whatever chance word is
/// drawn: where the level of the selected spin's configuration is `Always`,
/// the trial inverts that spin.
pub proof fn lemma_always_is_flipped(
    table: AcceptanceTable,
    dims: Dimensions,
    cells: Seq<bool>,
    draw: Draw,
)
    requires
        table.level(
            Spin::of_bit(cells[dims.site_index(trial_site(dims, draw))]),
            neighbor_sum(dims, cells, trial_site(dims, draw)),
        ) == Acceptance::Always,
    ensures
        after_trial(table, dims, cells, draw) == flipped(
            cells,
            dims.site_index(trial_site(dims, draw)),
        ),
{
}

/// A flip that raises the energy is refused when the chance word drawn is
/// not below its level, and the cells stay as they were.
pub proof fn lemma_refused_is_unchanged(
    table: AcceptanceTable,
    dims: Dimensions,
    cells: Seq<bool>,
    draw: Draw,
    level: u32,
)
    requires
        table.level(
            Spin::of_bit(cells[dims.site_index(trial_site(dims, draw))]),
            neighbor_sum(dims, cells, trial_site(dims, draw)),
        ) == Acceptance::Chance(level),
        draw.chance >= level,
    ensures
        after_trial(table, dims, cells, draw) == cells,
{
}

/// A sweep on no draws changes nothing, and a sweep on one draw is one
/// trial.
pub proof fn lemma_sweep_of_one(
    table: AcceptanceTable,
    dims: Dimensions,
    cells: Seq<bool>,
    draw: Draw,
)
    ensures
        after_sweep(table, dims, cells, Seq::<Draw>::empty()) == cells,
        after_sweep(table, dims, cells, seq![draw]) == after_trial(table, dims, cells, draw),
{
    assert(seq![draw].drop_last() =~= Seq::<Draw>::empty());
    reveal_with_fuel(after_sweep, 2);
}

/// A sweep makes one trial for each draw, neither more nor fewer: a sweep on
/// `first` followed by `second` is the sweep on `first` and then, from what
/// that left, the sweep on `second`.
pub proof fn lemma_sweep_in_parts(
    table: AcceptanceTable,
    dims: Dimensions,
    cells: Seq<bool>,
    first: Seq<Draw>,
    second: Seq<Draw>,
)
    ensures
        after_sweep(table, dims, cells, first + second) == after_sweep(
            table,
            dims,
            after_sweep(table, dims, cells, first),
            second,
        ),
    decreases second.len(),
{
    if second.len() == 0 {
        assert(first + second =~= first);
    } else {
        assert((first + second).drop_last() =~= first + second.drop_last());
        lemma_sweep_in_parts(table, dims, cells, first, second.drop_last());
    }
}

/// A sweep never changes the number of cells.
pub proof fn lemma_sweep_keeps_length(
    table: AcceptanceTable,
    dims: Dimensions,
    cells: Seq<bool>,
    draws: Seq<Draw>,
)
    requires
        dims.valid(),
        cells.len() == dims.sites(),
    ensures
        after_sweep(table, dims, cells, draws).len() == cells.len(),
    decreases draws.len(),
{
    if draws.len() > 0 {
        lemma_sweep_keeps_length(table, dims, cells, draws.drop_last());
        lemma_trial_keeps_length(
            table,
            dims,
            after_sweep(table, dims, cells, draws.drop_last()),
            draws.last(),
        );
    }
}

} // verus!

//! A rectangular grid of spins with periodic boundaries, one bit per site.
//!
//! Sites are stored row by row: the site at column `x` of row `y` has index
//! `width * y + x`. A set bit is a spin up.

use crate::bitset::{
    bit_at, bits_of, block_bit, block_count, count_set, count_true, lemma_count_true_bounded,
    lemma_count_true_uniform, lemma_count_true_update,
};
use crate::error::{BoundsError, ConstructionError};
use crate::spin::Spin;
use crate::to_spin;
use crate::utils::{random_u32_up_to, scaled_draw};
use fixedbitset::FixedBitSet;
use vstd::prelude::*;

verus! {

/// The extents of a grid.
#[derive(Debug, Clone, Copy, PartialEq, Eq, Structural)]
pub struct Dimensions {
    pub width: u32,
    pub height: u32,
}

/// A site of a grid: column `x` of row `y`.
#[derive(Debug, Clone, Copy, PartialEq, Eq, Structural)]
pub struct Position {
    pub x: u32,
    pub y: u32,
}

impl Dimensions {
    /// Both extents are at least one.
    pub open spec fn valid(self) -> bool {
        self.width >= 1 && self.height >= 1
    }

    /// The number of sites.
    pub open spec fn sites(self) -> nat {
        (self.width as nat) * (self.height as nat)
    }

    /// Whether `pos` lies on the grid.
    pub open spec fn holds(self, pos: Position) -> bool {
        pos.x < self.width && pos.y < self.height
    }

    /// The row-major index of `pos`.
    pub open spec fn site_index(self, pos: Position) -> int {
        self.width * pos.y + pos.x
    }

    /// The position whose row-major index is `index`.
    pub open spec fn site_at(self, index: int) -> Position {
        Position { x: (index % (self.width as int)) as u32, y: (index / (self.width as int)) as u32 }
    }

    /// The neighbour one row up; row 0 wraps to the last row.
    pub open spec fn above(self, pos: Position) -> Position {
        Position { x: pos.x, y: ((pos.y + self.height - 1) % (self.height as int)) as u32 }
    }

    /// The neighbour one row down; the last row wraps to row 0.
    pub open spec fn below(self, pos: Position) -> Position {
        Position { x: pos.x, y: ((pos.y + 1) % (self.height as int)) as u32 }
    }

    /// The neighbour one column to the left; column 0 wraps to the last column.
    pub open spec fn left_of(self, pos: Position) -> Position {
        Position { x: ((pos.x + self.width - 1) % (self.width as int)) as u32, y: pos.y }
    }

    /// The neighbour one column to the right; the last column wraps to column 0.
    pub open spec fn right_of(self, pos: Position) -> Position {
        Position { x: ((pos.x + 1) % (self.width as int)) as u32, y: pos.y }
    }
}

impl Position {
    /// The position that two uniform draws select on a grid: each 32-bit word
    /// `w` stands for the real `w / 2^32`, which is scaled by the extent and
    /// truncated.
    pub fn random_within_grid(grid_dims: &Dimensions, x_word: u32, y_word: u32) -> (pos: Position)
        ensures
            pos.x == scaled_draw(x_word, grid_dims.width),
            pos.y == scaled_draw(y_word, grid_dims.height),
            grid_dims.valid() ==> grid_dims.holds(pos),
    {
        Position {
            x: random_u32_up_to(grid_dims.width, x_word),
            y: random_u32_up_to(grid_dims.height, y_word),
        }
    }
}

/// The signed weight of the spin stored at `index`.
pub open spec fn weight_at(cells: Seq<bool>, index: int) -> int {
    Spin::of_bit(cells[index]).weight()
}

/// The sum of the weights of the four sites next to `pos` (above, below, left
/// and right), with periodic wrap-around. Diagonal sites do not count.
pub open spec fn neighbor_sum(dims: Dimensions, cells: Seq<bool>, pos: Position) -> int {
    weight_at(cells, dims.site_index(dims.above(pos))) + weight_at(
        cells,
        dims.site_index(dims.below(pos)),
    ) + weight_at(cells, dims.site_index(dims.left_of(pos))) + weight_at(
        cells,
        dims.site_index(dims.right_of(pos)),
    )
}

/// The cells after the spin at `index` has been inverted.
pub open spec fn flipped(cells: Seq<bool>, index: int) -> Seq<bool> {
    cells.update(index, !cells[index])
}

/// The sum of all spin weights: spins up minus spins down.
pub open spec fn net_spin(cells: Seq<bool>) -> int {
    2 * count_true(cells) - cells.len()
}

/// The mean spin of a grid as an exact fraction, `net / sites`.
#[derive(Debug, Clone, Copy, PartialEq, Eq, Structural)]
pub struct Average {
    /// Spins up minus spins down.
    pub net: i128,
    /// The number of sites; never zero for a grid that was built.
    pub sites: usize,
}

/// The spins of a grid, packed one bit per site, with the grid's extents.
#[derive(Debug)]
pub struct SpinGrid {
    dims: Dimensions,
    spins: FixedBitSet,
}

impl View for SpinGrid {
    type V = Seq<bool>;

    /// The cells in row-major order; `true` is a spin up.
    closed spec fn view(&self) -> Seq<bool> {
        bits_of(self.spins)
    }
}

impl SpinGrid {
    /// The extents that the grid was built with.
    pub closed spec fn dims(&self) -> Dimensions {
        self.dims
    }

    /// The extents are valid, there is exactly one cell per site, and the
    /// number of sites fits the machine's index range.
    pub open spec fn wf(&self) -> bool {
        &&& self.dims().valid()
        &&& self@.len() == self.dims().sites()
        &&& self.dims().sites() <= usize::MAX
    }

    /// A grid of the given extents with every spin down.
    pub fn new(dims: &Dimensions) -> (made: Result<SpinGrid, ConstructionError>)
        ensures
            made is Err <==> !dims.valid() || dims.sites() > usize::MAX,
            made matches Err(e) ==> e == if dims.valid() {
                ConstructionError::TooLarge
            } else {
                ConstructionError::ZeroExtent
            },
            made matches Ok(grid) ==> grid.wf() && grid.dims() == *dims && grid@ == Seq::new(
                dims.sites(),
                |i: int| false,
            ),
    {
        if dims.width == 0 || dims.height == 0 {
            return Err(ConstructionError::ZeroExtent);
        }
        assert(dims.width * dims.height <= 0xffff_ffff * 0xffff_ffff) by (nonlinear_arith)
            requires
                dims.width <= 0xffff_ffff,
                dims.height <= 0xffff_ffff,
        ;
        let sites: u64 = dims.width as u64 * dims.height as u64;
        if sites > usize::MAX as u64 {
            return Err(ConstructionError::TooLarge);
        }
        let spins = FixedBitSet::with_capacity(sites as usize);
        Ok(SpinGrid { dims: *dims, spins })
    }

    /// The extents of the grid.
    pub fn dimensions(&self) -> (dims: &Dimensions)
        ensures
            *dims == self.dims(),
    {
        &self.dims
    }

    /// The number of sites.
    pub fn len(&self) -> (sites: usize)
        ensures
            sites == self@.len(),
    {
        self.spins.len()
    }

    /// Writes the spin of the site stored at `index`; used while a grid is
    /// being filled.
    pub(crate) fn store(&mut self, index: usize, up: bool)
        requires
            old(self).wf(),
            index < old(self)@.len(),
        ensures
            final(self).wf(),
            final(self).dims() == old(self).dims(),
            final(self)@ == old(self)@.update(index as int, up),
    {
        self.spins.set(index, up);
    }

    /// The packed spins, read-only: 32 sites per word, site `i` in bit
    /// `i % 32` (counted from the least significant bit) of word `i / 32`.
    pub fn ptr(&self) -> (words: &[u32])
        ensures
            words@.len() == block_count(self@.len()),
            forall|i: int|
                0 <= i < self@.len() ==> #[trigger] self@[i] == block_bit(
                    words@[i / 32],
                    (i % 32) as u32,
                ),
    {
        self.spins.as_slice()
    }

    /// The storage index of a site that is known to lie on the grid.
    fn site(&self, x: u32, y: u32) -> (index: usize)
        requires
            self.wf(),
            x < self.dims().width,
            y < self.dims().height,
        ensures
            index == self.dims().site_index(Position { x, y }),
            index < self@.len(),
    {
        proof {
            lemma_index_in_range(self.dims, Position { x, y });
        }
        self.dims.width as usize * y as usize + x as usize
    }

    /// The weight of the spin at a site that is known to lie on the grid.
    fn weight(&self, x: u32, y: u32) -> (weight: i32)
        requires
            self.wf(),
            x < self.dims().width,
            y < self.dims().height,
        ensures
            weight == weight_at(self@, self.dims().site_index(Position { x, y })),
    {
        let index = self.site(x, y);
        to_spin(bit_at(&self.spins, index))
    }

    /// The row-major index of `pos`, or a `BoundsError` when `pos` is off the
    /// grid.
    pub fn calc_index(&self, pos: Position) -> (found: Result<usize, BoundsError>)
        requires
            self.wf(),
        ensures
            found is Ok <==> self.dims().holds(pos),
            found matches Ok(index) ==> index == self.dims().site_index(pos) && index
                < self@.len(),
            found matches Err(e) ==> e.position == pos,
    {
        if pos.x >= self.dims.width || pos.y >= self.dims.height {
            Err(BoundsError { position: pos })
        } else {
            Ok(self.site(pos.x, pos.y))
        }
    }

    /// The spin at `pos`, or a `BoundsError` when `pos` is off the grid.
    pub fn index(&self, pos: Position) -> (found: Result<Spin, BoundsError>)
        requires
            self.wf(),
        ensures
            found is Ok <==> self.dims().holds(pos),
            found matches Ok(spin) ==> spin == Spin::of_bit(self@[self.dims().site_index(pos)]),
            found matches Err(e) ==> e.position == pos,
    {
        match self.calc_index(pos) {
            Ok(index) => Ok(Spin::from(bit_at(&self.spins, index))),
            Err(e) => Err(e),
        }
    }

    /// Inverts the spin at `pos` and leaves every other site as it was. A
    /// position off the grid is refused and nothing changes.
    pub fn flip(&mut self, pos: Position) -> (done: Result<(), BoundsError>)
        requires
            old(self).wf(),
        ensures
            final(self).wf(),
            final(self).dims() == old(self).dims(),
            done is Ok <==> old(self).dims().holds(pos),
            done is Ok ==> final(self)@ == flipped(old(self)@, old(self).dims().site_index(pos)),
            done matches Err(e) ==> e.position == pos && final(self)@ == old(self)@,
    {
        match self.calc_index(pos) {
            Ok(index) => {
                self.spins.toggle(index);
                Ok(())
            },
            Err(e) => Err(e),
        }
    }

    /// The sum of the weights of the four neighbours of `pos`, each `+1` or
    /// `-1`, taken with periodic wrap-around.
    pub fn sum_neighbors(&self, pos: Position) -> (found: Result<i32, BoundsError>)
        requires
            self.wf(),
        ensures
            found is Ok <==> self.dims().holds(pos),
            found matches Ok(sum) ==> sum == neighbor_sum(self.dims(), self@, pos),
            found matches Err(e) ==> e.position == pos,
    {
        let width: u64 = self.dims.width as u64;
        let height: u64 = self.dims.height as u64;
        if pos.x >= self.dims.width || pos.y >= self.dims.height {
            return Err(BoundsError { position: pos });
        }
        let top_row: u32 = ((pos.y as u64 + height - 1) % height) as u32;
        let bottom_row: u32 = ((pos.y as u64 + 1) % height) as u32;
        let left_column: u32 = ((pos.x as u64 + width - 1) % width) as u32;
        let right_column: u32 = ((pos.x as u64 + 1) % width) as u32;
        let sum: i32 = self.weight(pos.x, top_row) + self.weight(pos.x, bottom_row) + self.weight(
            left_column,
            pos.y,
        ) + self.weight(right_column, pos.y);
        Ok(sum)
    }

    /// The mean spin over the grid, as the exact fraction of the net spin over
    /// the number of sites.
    pub fn avg(&self) -> (mean: Average)
        ensures
            mean.net == net_spin(self@),
            mean.sites == self@.len(),
            self.wf() ==> mean.sites >= 1,
    {
        assert(self.wf() ==> self.dims().sites() >= 1) by (nonlinear_arith);
        let num_spin_up: usize = count_set(&self.spins);
        let num_spins: usize = self.spins.len();
        Average { net: 2 * (num_spin_up as i128) - (num_spins as i128), sites: num_spins }
    }
}

/// Every position on the grid has an index below the number of sites.
pub proof fn lemma_index_in_range(dims: Dimensions, pos: Position)
    requires
        dims.holds(pos),
    ensures
        0 <= dims.site_index(pos) < dims.sites(),
{
    assert(dims.width * pos.y + dims.width <= dims.width * dims.height) by (nonlinear_arith)
        requires
            pos.y < dims.height,
    ;
}

/// Two positions on the grid with the same index are the same position.
pub proof fn lemma_index_injective(dims: Dimensions, a: Position, b: Position)
    requires
        dims.holds(a),
        dims.holds(b),
        dims.site_index(a) == dims.site_index(b),
    ensures
        a == b,
{
    assert(a.y == b.y) by (nonlinear_arith)
        requires
            a.x < dims.width,
            b.x < dims.width,
            dims.width * a.y + a.x == dims.width * b.y + b.x,
    ;
}

/// Every index below the number of sites is the index of a position on the
/// grid, namely of `site_at(index)`.
pub proof fn lemma_index_onto(dims: Dimensions, index: int)
    requires
        0 <= index < dims.sites(),
    ensures
        dims.holds(dims.site_at(index)),
        dims.site_index(dims.site_at(index)) == index,
{
    let width = dims.width as int;
    assert(width > 0) by (nonlinear_arith)
        requires
            0 <= index < width * dims.height,
            width >= 0,
    ;
    vstd::arithmetic::div_mod::lemma_fundamental_div_mod(index, width);
    vstd::arithmetic::div_mod::lemma_mod_pos_bound(index, width);
    let row = index / width;
    let column = index % width;
    assert(0 <= row < dims.height) by (nonlinear_arith)
        requires
            0 <= index < width * dims.height,
            index == width * row + column,
            0 <= column < width,
    ;
}

/// Each of the four neighbours of a position on the grid lies on the grid.
pub proof fn lemma_neighbors_on_grid(dims: Dimensions, pos: Position)
    requires
        dims.holds(pos),
    ensures
        dims.holds(dims.above(pos)),
        dims.holds(dims.below(pos)),
        dims.holds(dims.left_of(pos)),
        dims.holds(dims.right_of(pos)),
{
}

/// A neighbour sum is one of -4, -2, 0, 2 and 4.
pub proof fn lemma_neighbor_sum_values(dims: Dimensions, cells: Seq<bool>, pos: Position)
    ensures
        -4 <= neighbor_sum(dims, cells, pos) <= 4,
        neighbor_sum(dims, cells, pos) % 2 == 0,
{
}

/// Flipping the same site twice restores the cells exactly.
pub proof fn lemma_flip_twice_restores(cells: Seq<bool>, index: int)
    requires
        0 <= index < cells.len(),
    ensures
        flipped(flipped(cells, index), index) == cells,
{
    assert(flipped(flipped(cells, index), index) =~= cells);
}

/// A flip moves the net spin by two, against the weight that the spin had.
pub proof fn lemma_flip_moves_net_spin(cells: Seq<bool>, index: int)
    requires
        0 <= index < cells.len(),
    ensures
        net_spin(flipped(cells, index)) == net_spin(cells) - 2 * weight_at(cells, index),
{
    lemma_count_true_update(cells, index, !cells[index]);
}

/// The net spin lies between minus the number of sites and the number of
/// sites, so the mean spin lies in [-1, 1].
pub proof fn lemma_net_spin_bounded(cells: Seq<bool>)
    ensures
        -cells.len() <= net_spin(cells) <= cells.len(),
{
    lemma_count_true_bounded(cells);
}

/// With every spin up the net spin is the number of sites: the mean is 1.
pub proof fn lemma_net_spin_all_up(cells: Seq<bool>)
    requires
        forall|i: int| 0 <= i < cells.len() ==> cells[i],
    ensures
        net_spin(cells) == cells.len(),
{
    lemma_count_true_uniform(cells, true);
}

/// With every spin down the net spin is minus the number of sites: the mean
/// is -1.
pub proof fn lemma_net_spin_all_down(cells: Seq<bool>)
    requires
        forall|i: int| 0 <= i < cells.len() ==> !cells[i],
    ensures
        net_spin(cells) == -cells.len(),
{
    lemma_count_true_uniform(cells, false);
}

/// With exactly half of the spins up the net spin, and so the mean, is 0.
pub proof fn lemma_net_spin_balanced(cells: Seq<bool>)
    requires
        2 * count_true(cells) == cells.len(),
    ensures
        net_spin(cells) == 0,
{
}

} // verus!

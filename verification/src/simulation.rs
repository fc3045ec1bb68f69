//! Two grids that take turns: each generation is read from the current one
//! and written to the other, and the parity of a counter says which is which.

use vstd::prelude::*;
use crate::app::Dispatch;
use crate::bindings::{reads, writes};
use crate::grid::{
    all_dead, is_grid, lemma_column_row, lemma_row_major, lemma_wrap, live_neighbors_spec,
    step_spec, valid_dimension, wrap, Grid,
};
use crate::rule::{lemma_no_neighbors_no_life, DEAD};

verus! {

/// Which of the two grids is the current one after `step` generations:
/// 0 for the first, 1 for the second.
pub open spec fn current_index_spec(step: u32) -> int {
    step as int % 2
}

/// Which of the two grids is the current one after `step` generations.
pub fn current_index(step: u32) -> (index: usize)
    ensures
        index == current_index_spec(step),
        index < 2,
{
    (step % 2) as usize
}

/// Which of the two grids the generation after `step` others is written to.
pub open spec fn alternate_index_spec(step: u32) -> int {
    1 - current_index_spec(step)
}

/// Which of the two grids the generation after `step` others is written to.
pub fn alternate_index(step: u32) -> (index: usize)
    ensures
        index == alternate_index_spec(step),
        index < 2,
        index != current_index_spec(step),
{
    1 - current_index(step)
}

/// The grid that a generation is written to is the current one afterwards,
/// and the one it was read from is then the alternate.
pub proof fn lemma_parity_alternates(step: u32)
    requires
        step < u32::MAX,
    ensures
        current_index_spec((step + 1) as u32) == alternate_index_spec(step),
        alternate_index_spec((step + 1) as u32) == current_index_spec(step),
        current_index_spec((step + 1) as u32) != current_index_spec(step),
{
}

/// The cells after `k` generations, starting from `cells`.
pub open spec fn generations(cells: Seq<u32>, n: int, k: nat) -> Seq<u32>
    decreases k,
{
    if k == 0 {
        cells
    } else {
        step_spec(generations(cells, n, (k - 1) as nat), n)
    }
}

/// A generation of a grid is a grid again.
pub proof fn lemma_step_keeps_grid(cells: Seq<u32>, n: u32)
    requires
        is_grid(cells, n),
    ensures
        is_grid(step_spec(cells, n as int), n),
{
}

/// The next generation depends on the current cells alone: computed twice
/// from the same cells, into whatever grids, it is the same.
pub proof fn lemma_step_deterministic(first: Grid, second: Grid, next_first: Grid, next_second: Grid)
    requires
        first.wf(),
        second.wf(),
        first.dim() == second.dim(),
        first@ == second@,
        next_first@ == step_spec(first@, first.dim() as int),
        next_second@ == step_spec(second@, second.dim() as int),
    ensures
        next_first@ == next_second@,
{
}

/// In a grid without life no cell has a live neighbour.
pub proof fn lemma_dead_neighbors(n: u32, x: int, y: int)
    requires
        valid_dimension(n),
        0 <= x < n,
        0 <= y < n,
    ensures
        live_neighbors_spec(all_dead(n as int), n as int, x, y) == 0,
{
    let m = n as int;
    lemma_wrap(x, m);
    lemma_wrap(y, m);
    let west = wrap(x - 1, m);
    let east = wrap(x + 1, m);
    let north = wrap(y - 1, m);
    let south = wrap(y + 1, m);
    lemma_row_major(m, west, north);
    lemma_row_major(m, x, north);
    lemma_row_major(m, east, north);
    lemma_row_major(m, west, y);
    lemma_row_major(m, east, y);
    lemma_row_major(m, west, south);
    lemma_row_major(m, x, south);
    lemma_row_major(m, east, south);
}

/// Nothing is born in a grid without life: its next generation is without
/// life too.
pub proof fn lemma_dead_stays_dead(n: u32)
    requires
        valid_dimension(n),
    ensures
        step_spec(all_dead(n as int), n as int) == all_dead(n as int),
{
    let m = n as int;
    let dead = all_dead(m);
    let next = step_spec(dead, m);
    assert forall|i: int| 0 <= i < m * m implies next[i] == DEAD by {
        lemma_column_row(m, i);
        lemma_dead_neighbors(n, i % m, i / m);
        lemma_no_neighbors_no_life(dead[i]);
    }
    assert(next =~= dead);
}

/// A grid without life stays without life, however many generations pass.
pub proof fn lemma_dead_forever(n: u32, k: nat)
    requires
        valid_dimension(n),
    ensures
        generations(all_dead(n as int), n as int, k) == all_dead(n as int),
    decreases k,
{
    if k > 0 {
        lemma_dead_forever(n, (k - 1) as nat);
        lemma_dead_stays_dead(n);
    }
}

/// Two grids of one size and the count of the generations computed so far.
pub struct Simulation {
    ping: Grid,
    pong: Grid,
    step: u32,
}

impl Simulation {
    /// The cells of the first grid.
    pub closed spec fn ping(&self) -> Seq<u32> {
        self.ping@
    }

    /// The cells of the second grid.
    pub closed spec fn pong(&self) -> Seq<u32> {
        self.pong@
    }

    /// The side length of both grids.
    pub closed spec fn dim(&self) -> u32 {
        self.ping.dim()
    }

    /// How many generations have been computed.
    pub closed spec fn step_count(&self) -> u32 {
        self.step
    }

    /// Both grids are well formed and of one size.
    pub closed spec fn wf(&self) -> bool {
        &&& self.ping.wf()
        &&& self.pong.wf()
        &&& self.ping.dim() == self.pong.dim()
    }

    /// The cells of the grid with the given index.
    pub open spec fn grid(&self, index: int) -> Seq<u32> {
        if index == 0 {
            self.ping()
        } else {
            self.pong()
        }
    }

    /// The cells of the current grid: the one that holds the latest
    /// generation.
    pub open spec fn current(&self) -> Seq<u32> {
        self.grid(current_index_spec(self.step_count()))
    }

    /// The cells of the grid that the next generation will be written to.
    pub open spec fn alternate(&self) -> Seq<u32> {
        self.grid(alternate_index_spec(self.step_count()))
    }

    /// Starts from `seed` as the first grid, with a second grid in which
    /// nothing lives, before any generation.
    pub fn new(seed: Grid) -> (sim: Simulation)
        requires
            seed.wf(),
        ensures
            sim.wf(),
            sim.dim() == seed.dim(),
            sim.step_count() == 0,
            sim.ping() == seed@,
            sim.pong() == all_dead(seed.dim() as int),
    {
        let pong = Grid::dead(seed.size());
        Simulation { ping: seed, pong, step: 0 }
    }

    /// How many generations have been computed.
    pub fn step(&self) -> (step: u32)
        ensures
            step == self.step_count(),
    {
        self.step
    }

    /// The grid that holds the latest generation.
    pub fn current_grid(&self) -> (grid: &Grid)
        requires
            self.wf(),
        ensures
            grid.wf(),
            grid.dim() == self.dim(),
            grid@ == self.current(),
    {
        if current_index(self.step) == 0 {
            &self.ping
        } else {
            &self.pong
        }
    }

    /// The grid that the next generation will be written to; after a
    /// generation it still holds the cells that the generation was read
    /// from.
    pub fn alternate_grid(&self) -> (grid: &Grid)
        requires
            self.wf(),
        ensures
            grid.wf(),
            grid.dim() == self.dim(),
            grid@ == self.alternate(),
    {
        if current_index(self.step) == 0 {
            &self.pong
        } else {
            &self.ping
        }
    }

    /// Computes one generation from the current grid into the other one and
    /// makes that one current. The grid that was read keeps its cells.
    pub fn advance(&mut self)
        requires
            old(self).wf(),
            old(self).step_count() < u32::MAX,
        ensures
            final(self).wf(),
            final(self).dim() == old(self).dim(),
            final(self).step_count() == old(self).step_count() + 1,
            final(self).current() == step_spec(old(self).current(), old(self).dim() as int),
            final(self).alternate() == old(self).current(),
    {
        if current_index(self.step) == 0 {
            self.ping.step_into(&mut self.pong);
        } else {
            self.pong.step_into(&mut self.ping);
        }
        self.step = self.step + 1;
    }

    /// Carries out `dispatch` on the two grids as the compute shader does on
    /// its two buffers: the generation is read from the grid that the
    /// dispatch's bind group reads and written to the grid that it writes,
    /// which is the current one afterwards. The dispatch must be the one for
    /// the counter's parity, as the frame loop hands it out.
    pub fn apply(&mut self, dispatch: &Dispatch)
        requires
            old(self).wf(),
            old(self).step_count() < u32::MAX,
            dispatch.bind_group == current_index_spec(old(self).step_count()),
        ensures
            final(self).wf(),
            final(self).dim() == old(self).dim(),
            final(self).step_count() == old(self).step_count() + 1,
            final(self).grid(writes(dispatch.bind_group as int)) == step_spec(
                old(self).grid(reads(dispatch.bind_group as int)),
                old(self).dim() as int,
            ),
            final(self).grid(reads(dispatch.bind_group as int)) == old(self).grid(
                reads(dispatch.bind_group as int),
            ),
            final(self).current() == final(self).grid(writes(dispatch.bind_group as int)),
            final(self).current() == step_spec(old(self).current(), old(self).dim() as int),
    {
        if dispatch.bind_group == 0 {
            self.ping.step_into(&mut self.pong);
        } else {
            self.pong.step_into(&mut self.ping);
        }
        self.step = self.step + 1;
    }

    /// Computes `count` generations, one after the other.
    pub fn run(&mut self, count: u32)
        requires
            old(self).wf(),
            old(self).step_count() + count <= u32::MAX,
        ensures
            final(self).wf(),
            final(self).dim() == old(self).dim(),
            final(self).step_count() == old(self).step_count() + count,
            final(self).current() == generations(
                old(self).current(),
                old(self).dim() as int,
                count as nat,
            ),
            count > 0 ==> final(self).alternate() == generations(
                old(self).current(),
                old(self).dim() as int,
                (count - 1) as nat,
            ),
            count == 0 ==> final(self).alternate() == old(self).alternate(),
    {
        let mut done: u32 = 0;
        while done < count
            invariant
                done <= count,
                self.wf(),
                self.dim() == old(self).dim(),
                self.step_count() == old(self).step_count() + done,
                old(self).step_count() + count <= u32::MAX,
                self.current() == generations(
                    old(self).current(),
                    old(self).dim() as int,
                    done as nat,
                ),
                done > 0 ==> self.alternate() == generations(
                    old(self).current(),
                    old(self).dim() as int,
                    (done - 1) as nat,
                ),
                done == 0 ==> self.alternate() == old(self).alternate(),
            decreases count - done,
        {
            self.advance();
            done = done + 1;
        }
    }
}

} // verus!

//! The automaton's rule for one cell.

use vstd::prelude::*;

verus! {

/// The state of a dead cell.
pub const DEAD: u32 = 0;

/// The state of a live cell.
pub const ALIVE: u32 = 1;

/// A live cell stays alive with this many live neighbours, or with one more.
pub const SURVIVE_MIN: u32 = 2;

/// A dead cell comes alive with exactly this many live neighbours; a live
/// cell with this many stays alive.
pub const BIRTH: u32 = 3;

/// The state of a cell in the next generation: a live cell with two or three
/// live neighbours survives, a dead cell with exactly three is born, every
/// other cell is dead.
pub open spec fn next_state_spec(current: u32, neighbors: nat) -> u32 {
    if current == ALIVE {
        if SURVIVE_MIN <= neighbors <= BIRTH {
            ALIVE
        } else {
            DEAD
        }
    } else if neighbors == BIRTH {
        ALIVE
    } else {
        DEAD
    }
}

/// Applies the rule to one cell, given how many of its neighbours are alive.
pub fn next_state(current: u32, neighbors: u32) -> (next: u32)
    ensures
        next == next_state_spec(current, neighbors as nat),
        next == DEAD || next == ALIVE,
{
    if current == ALIVE {
        if SURVIVE_MIN <= neighbors && neighbors <= BIRTH {
            ALIVE
        } else {
            DEAD
        }
    } else if neighbors == BIRTH {
        ALIVE
    } else {
        DEAD
    }
}

/// Without live neighbours no cell is alive in the next generation, whatever
/// its state.
pub proof fn lemma_no_neighbors_no_life(current: u32)
    ensures
        next_state_spec(current, 0) == DEAD,
{
}

} // verus!

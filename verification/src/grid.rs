//! A square grid of cells on a torus, and one generation of the automaton.

use vstd::prelude::*;
use vstd::arithmetic::div_mod::{lemma_fundamental_div_mod, lemma_fundamental_div_mod_converse};
use crate::rule::{next_state, next_state_spec, ALIVE, DEAD};

verus! {

/// The side length of the grid that the program simulates.
pub const GRID_SIZE: u32 = 2048;

/// A side length is usable when it is positive and the number of cells fits
/// in a `u32`, the type in which a draw counts its instances.
pub open spec fn valid_dimension(n: u32) -> bool {
    0 < n && n * n <= u32::MAX
}

/// Tells whether `n` can be the side length of a grid.
pub fn is_valid_dimension(n: u32) -> (ok: bool)
    ensures
        ok == valid_dimension(n),
{
    assert(n <= 65535 ==> n * n <= u32::MAX) by (nonlinear_arith);
    assert(n > 65535 ==> n * n > u32::MAX) by (nonlinear_arith);
    0 < n && n <= 65535
}

/// The number of cells of a grid with side length `n`.
pub open spec fn cell_count_spec(n: u32) -> nat {
    (n * n) as nat
}

/// The number of cells of a grid with side length `n`.
pub fn cell_count(n: u32) -> (count: u32)
    requires
        valid_dimension(n),
    ensures
        count == cell_count_spec(n),
{
    n * n
}

/// `i` reduced to the range `0..n`: the coordinate on the torus.
pub open spec fn wrap(i: int, n: int) -> int {
    i % n
}

/// The state of the cell in column `x` and row `y`, both taken on the torus,
/// of the row-major cells `cells` of a grid with side length `n`.
pub open spec fn cell_at(cells: Seq<u32>, n: int, x: int, y: int) -> u32 {
    cells[wrap(y, n) * n + wrap(x, n)]
}

/// How many of the eight neighbours of the cell at (`x`, `y`) are alive. On a
/// grid narrower than three cells a cell is counted once for each direction
/// in which it is reached.
pub open spec fn live_neighbors_spec(cells: Seq<u32>, n: int, x: int, y: int) -> nat {
    (cell_at(cells, n, x - 1, y - 1) + cell_at(cells, n, x, y - 1) + cell_at(cells, n, x + 1, y - 1)
        + cell_at(cells, n, x - 1, y) + cell_at(cells, n, x + 1, y)
        + cell_at(cells, n, x - 1, y + 1) + cell_at(cells, n, x, y + 1) + cell_at(cells, n, x + 1, y + 1)) as nat
}

/// The next generation of the row-major cells `cells` of a grid with side
/// length `n`: the rule applied to every cell at once.
pub open spec fn step_spec(cells: Seq<u32>, n: int) -> Seq<u32> {
    Seq::new(
        (n * n) as nat,
        |i: int| next_state_spec(cells[i], live_neighbors_spec(cells, n, i % n, i / n)),
    )
}

/// The cells of a grid of side length `n` in which nothing lives.
pub open spec fn all_dead(n: int) -> Seq<u32> {
    Seq::new((n * n) as nat, |i: int| DEAD)
}

/// Whether `cells` are the cells of a grid of side length `n`: one state,
/// dead or alive, for each cell.
pub open spec fn is_grid(cells: Seq<u32>, n: u32) -> bool {
    &&& valid_dimension(n)
    &&& cells.len() == n * n
    &&& forall|i: int| 0 <= i < cells.len() ==> cells[i] == DEAD || cells[i] == ALIVE
}

/// Coordinates inside the grid are their own place on the torus; one step
/// beyond either edge leads to the opposite edge.
pub proof fn lemma_wrap(i: int, n: int)
    requires
        0 <= i < n,
    ensures
        wrap(i, n) == i,
        wrap(i - 1, n) == if i == 0 { n - 1 } else { i - 1 },
        wrap(i + 1, n) == if i == n - 1 { 0 } else { i + 1 },
{
    lemma_fundamental_div_mod_converse(i, n, 0, i);
    if i == 0 {
        lemma_fundamental_div_mod_converse(i - 1, n, -1, n - 1);
    } else {
        lemma_fundamental_div_mod_converse(i - 1, n, 0, i - 1);
    }
    if i == n - 1 {
        lemma_fundamental_div_mod_converse(i + 1, n, 1, 0);
    } else {
        lemma_fundamental_div_mod_converse(i + 1, n, 0, i + 1);
    }
}

/// The cell in column `x` of row `y` is cell number `y * n + x`, and every
/// cell number below `n * n` names one column and one row.
pub proof fn lemma_row_major(n: int, x: int, y: int)
    requires
        0 <= x < n,
        0 <= y < n,
    ensures
        0 <= y * n + x < n * n,
        (y * n + x) % n == x,
        (y * n + x) / n == y,
{
    lemma_fundamental_div_mod_converse(y * n + x, n, y, x);
    assert(0 <= y * n && y * n + n <= n * n) by (nonlinear_arith)
        requires
            0 <= y < n,
    ;
}

/// The column and the row of cell number `i` lie inside the grid.
pub proof fn lemma_column_row(n: int, i: int)
    requires
        0 < n,
        0 <= i < n * n,
    ensures
        0 <= i % n < n,
        0 <= i / n < n,
        (i / n) * n + i % n == i,
{
    lemma_fundamental_div_mod(i, n);
    assert(0 <= i % n < n);
    assert(n * (i / n) == (i / n) * n) by (nonlinear_arith);
    assert(0 <= i / n < n) by (nonlinear_arith)
        requires
            0 < n,
            0 <= i < n * n,
            i == n * (i / n) + i % n,
            0 <= i % n < n,
    ;
}

/// Byte number `k` of `value`, counted from the least significant one.
pub open spec fn byte_of(value: u32, k: int) -> int {
    let v = value as int;
    if k == 0 {
        v % 256
    } else if k == 1 {
        (v / 256) % 256
    } else if k == 2 {
        (v / 65536) % 256
    } else {
        (v / 16777216) % 256
    }
}

/// Byte number `k` of the four bytes that stand for cell number `i`.
pub open spec fn byte_at(bytes: Seq<u8>, i: int, k: int) -> u8 {
    bytes[4 * i + k]
}

/// `bytes` holds each cell as four bytes, least significant byte first.
pub open spec fn encodes_little_endian(cells: Seq<u32>, bytes: Seq<u8>) -> bool {
    &&& bytes.len() == 4 * cells.len()
    &&& forall|i: int, k: int|
        0 <= i < cells.len() && 0 <= k < 4 ==> #[trigger] byte_at(bytes, i, k) == byte_of(
            cells[i],
            k,
        )
}

/// `bytes` holds each cell as four bytes, most significant byte first.
pub open spec fn encodes_big_endian(cells: Seq<u32>, bytes: Seq<u8>) -> bool {
    &&& bytes.len() == 4 * cells.len()
    &&& forall|i: int, k: int|
        0 <= i < cells.len() && 0 <= k < 4 ==> #[trigger] byte_at(bytes, i, k) == byte_of(
            cells[i],
            3 - k,
        )
}

/// `bytes` holds the cells as they lie in memory: four bytes each, in one
/// of the two byte orders, the same for every cell.
pub open spec fn encodes_in_memory(cells: Seq<u32>, bytes: Seq<u8>) -> bool {
    encodes_little_endian(cells, bytes) || encodes_big_endian(cells, bytes)
}

/// The bytes of `cells` as they lie in memory, through
/// `bytemuck::cast_slice` from `u32` to `u8`. That function hands back the
/// same memory as a slice of bytes, four for each `u32`; it fails only for a
/// target type with stricter alignment or a size that does not divide the
/// input, neither of which holds of `u8`. Which byte order the machine uses
/// is not known here, so the contract leaves both open.
#[verifier::external_body]
fn cast_cells(cells: &Vec<u32>) -> (bytes: Vec<u8>)
    ensures
        encodes_in_memory(cells@, bytes@),
{
    bytemuck::cast_slice::<u32, u8>(cells.as_slice()).to_vec()
}

/// One boolean from `rand::random`, which draws it from the thread's
/// generator. Nothing is known of the value.
#[verifier::external_body]
fn coin() -> (heads: bool) {
    rand::random::<bool>()
}

/// The state that a coin gives a cell: alive for heads, dead for tails.
pub open spec fn coin_state(heads: bool) -> u32 {
    if heads {
        ALIVE
    } else {
        DEAD
    }
}

/// The states that a row of coins gives the cells, one coin for each cell.
pub open spec fn coin_states(coins: Seq<bool>) -> Seq<u32> {
    Seq::new(coins.len(), |i: int| coin_state(coins[i]))
}

/// A square grid of cells, stored row by row.
pub struct Grid {
    size: u32,
    cells: Vec<u32>,
}

impl View for Grid {
    type V = Seq<u32>;

    closed spec fn view(&self) -> Seq<u32> {
        self.cells@
    }
}

impl Grid {
    /// The side length.
    pub closed spec fn dim(&self) -> u32 {
        self.size
    }

    /// A grid holds one state, dead or alive, for each of its cells. Every
    /// grid that this module hands out is well formed.
    pub open spec fn wf(&self) -> bool {
        is_grid(self@, self.dim())
    }

    /// A grid of side length `size` in which nothing lives.
    pub fn dead(size: u32) -> (grid: Grid)
        requires
            valid_dimension(size),
        ensures
            grid.wf(),
            grid.dim() == size,
            grid@ == all_dead(size as int),
    {
        let count: u32 = cell_count(size);
        let mut cells: Vec<u32> = Vec::new();
        let mut i: u32 = 0;
        while i < count
            invariant
                i <= count,
                cells@.len() == i,
                forall|k: int| 0 <= k < i ==> cells@[k] == DEAD,
            decreases count - i,
        {
            cells.push(DEAD);
            i = i + 1;
        }
        assert(cells@ =~= all_dead(size as int));
        Grid { size, cells }
    }

    /// The side length.
    pub fn size(&self) -> (n: u32)
        ensures
            n == self.dim(),
    {
        self.size
    }

    /// The grid of side length `size` with the given cells, row by row, or
    /// `None` where they are not the cells of such a grid.
    pub fn from_cells(size: u32, cells: Vec<u32>) -> (grid: Option<Grid>)
        ensures
            grid.is_some() <==> is_grid(cells@, size),
            grid.is_some() ==> grid.unwrap().wf() && grid.unwrap().dim() == size
                && grid.unwrap()@ == cells@,
    {
        if !is_valid_dimension(size) {
            return None;
        }
        if cells.len() != cell_count(size) as usize {
            return None;
        }
        let mut i: usize = 0;
        while i < cells.len()
            invariant
                i <= cells.len(),
                forall|k: int| 0 <= k < i ==> cells@[k] == DEAD || cells@[k] == ALIVE,
            decreases cells.len() - i,
        {
            if cells[i] != DEAD && cells[i] != ALIVE {
                return None;
            }
            i = i + 1;
        }
        Some(Grid { size, cells })
    }

    /// The grid of side length `size` in which cell number `i` is alive where
    /// coin number `i` shows heads, or `None` where `size` is no side length
    /// or there is not one coin for each cell.
    pub fn from_coins(size: u32, coins: &Vec<bool>) -> (grid: Option<Grid>)
        ensures
            grid.is_some() <==> valid_dimension(size) && coins@.len() == cell_count_spec(size),
            grid.is_some() ==> grid.unwrap().wf() && grid.unwrap().dim() == size
                && grid.unwrap()@ == coin_states(coins@),
    {
        if !is_valid_dimension(size) {
            return None;
        }
        if coins.len() != cell_count(size) as usize {
            return None;
        }
        let mut cells: Vec<u32> = Vec::new();
        let mut i: usize = 0;
        while i < coins.len()
            invariant
                i <= coins.len(),
                cells@.len() == i,
                forall|k: int| 0 <= k < i ==> cells@[k] == coin_state(coins@[k]),
            decreases coins.len() - i,
        {
            let state: u32 = if coins[i] { ALIVE } else { DEAD };
            cells.push(state);
            i = i + 1;
        }
        assert(cells@ =~= coin_states(coins@));
        Some(Grid { size, cells })
    }

    /// A grid of side length `size` in which each cell is alive or dead by
    /// the toss of a coin.
    pub fn seeded(size: u32) -> (grid: Grid)
        requires
            valid_dimension(size),
        ensures
            grid.wf(),
            grid.dim() == size,
    {
        let count: u32 = cell_count(size);
        let mut coins: Vec<bool> = Vec::new();
        let mut i: u32 = 0;
        while i < count
            invariant
                i <= count,
                coins@.len() == i,
            decreases count - i,
        {
            coins.push(coin());
            i = i + 1;
        }
        Grid::from_coins(size, &coins).unwrap()
    }

    /// The cells as the bytes of a storage buffer: each cell as the four
    /// bytes of its `u32` in the machine's byte order, row by row.
    pub fn to_bytes(&self) -> (bytes: Vec<u8>)
        ensures
            encodes_in_memory(self@, bytes@),
    {
        cast_cells(&self.cells)
    }

    /// The state of the cell in column `x` and row `y`, or `None` where the
    /// grid has no such cell.
    pub fn get(&self, x: u32, y: u32) -> (state: Option<u32>)
        requires
            self.wf(),
        ensures
            state.is_some() <==> x < self.dim() && y < self.dim(),
            state.is_some() ==> state.unwrap() == cell_at(
                self@,
                self.dim() as int,
                x as int,
                y as int,
            ),
            state.is_some() ==> state.unwrap() == DEAD || state.unwrap() == ALIVE,
    {
        if x < self.size && y < self.size {
            Some(self.at(x, y))
        } else {
            None
        }
    }

    fn at(&self, x: u32, y: u32) -> (state: u32)
        requires
            self.wf(),
            x < self.dim(),
            y < self.dim(),
        ensures
            state == cell_at(self@, self.dim() as int, x as int, y as int),
            state == DEAD || state == ALIVE,
    {
        proof {
            lemma_row_major(self.size as int, x as int, y as int);
            lemma_wrap(x as int, self.size as int);
            lemma_wrap(y as int, self.size as int);
        }
        let index: u32 = y * self.size + x;
        self.cells[index as usize]
    }

    /// How many of the eight neighbours of the cell in column `x` and row
    /// `y` are alive, the grid taken as a torus.
    pub fn live_neighbors(&self, x: u32, y: u32) -> (count: u32)
        requires
            self.wf(),
            x < self.dim(),
            y < self.dim(),
        ensures
            count == live_neighbors_spec(self@, self.dim() as int, x as int, y as int),
            count <= 8,
    {
        proof {
            lemma_wrap(x as int, self.size as int);
            lemma_wrap(y as int, self.size as int);
        }
        let last: u32 = self.size - 1;
        let west: u32 = if x == 0 { last } else { x - 1 };
        let east: u32 = if x == last { 0 } else { x + 1 };
        let north: u32 = if y == 0 { last } else { y - 1 };
        let south: u32 = if y == last { 0 } else { y + 1 };
        proof {
            lemma_wrap(west as int, self.size as int);
            lemma_wrap(east as int, self.size as int);
            lemma_wrap(north as int, self.size as int);
            lemma_wrap(south as int, self.size as int);
        }
        self.at(west, north) + self.at(x, north) + self.at(east, north) + self.at(west, y)
            + self.at(east, y) + self.at(west, south) + self.at(x, south) + self.at(east, south)
    }

    /// Computes one generation: reads this grid and writes every cell of
    /// `next`, whatever `next` held before.
    pub fn step_into(&self, next: &mut Grid)
        requires
            self.wf(),
            old(next).wf(),
            old(next).dim() == self.dim(),
        ensures
            final(next).wf(),
            final(next).dim() == self.dim(),
            final(next)@ == step_spec(self@, self.dim() as int),
    {
        let n: u32 = self.size;
        let count: u32 = cell_count(n);
        let mut i: u32 = 0;
        while i < count
            invariant
                i <= count,
                count == n * n,
                n == self.size,
                next.size == n,
                self.wf(),
                next.wf(),
                forall|k: int|
                    0 <= k < i ==> next.cells@[k] == next_state_spec(
                        self.cells@[k],
                        live_neighbors_spec(self.cells@, n as int, k % (n as int), k / (n as int)),
                    ),
            decreases count - i,
        {
            proof {
                lemma_column_row(n as int, i as int);
            }
            let x: u32 = i % n;
            let y: u32 = i / n;
            let state: u32 = next_state(self.cells[i as usize], self.live_neighbors(x, y));
            next.cells.set(i as usize, state);
            i = i + 1;
        }
        assert(next.cells@ =~= step_spec(self@, self.dim() as int));
    }

    /// The next generation, as a grid of its own.
    pub fn step(&self) -> (next: Grid)
        requires
            self.wf(),
        ensures
            next.wf(),
            next.dim() == self.dim(),
            next@ == step_spec(self@, self.dim() as int),
    {
        let n: u32 = self.size();
        let mut next = Grid::dead(n);
        self.step_into(&mut next);
        next
    }

    /// The cells, row by row.
    pub fn cells(&self) -> (cells: &Vec<u32>)
        ensures
            cells@ == self@,
    {
        &self.cells
    }
}

} // verus!

use gpu_life::grid::{cell_count, is_valid_dimension, Grid, GRID_SIZE};
use gpu_life::rule::{next_state, ALIVE, DEAD};

fn grid_of(size: u32, alive: &[(u32, u32)]) -> Grid {
    let mut cells = vec![DEAD; (size * size) as usize];
    for &(x, y) in alive {
        cells[(y * size + x) as usize] = ALIVE;
    }
    Grid::from_cells(size, cells).unwrap()
}

fn alive_cells(grid: &Grid) -> Vec<(u32, u32)> {
    let size = grid.size();
    let mut alive = Vec::new();
    for y in 0..size {
        for x in 0..size {
            if grid.get(x, y) == Some(ALIVE) {
                alive.push((x, y));
            }
        }
    }
    alive
}

#[test]
fn rule_table_for_a_live_cell() {
    let expected = [DEAD, DEAD, ALIVE, ALIVE, DEAD, DEAD, DEAD, DEAD, DEAD];
    for neighbors in 0..=8u32 {
        assert_eq!(next_state(ALIVE, neighbors), expected[neighbors as usize]);
    }
}

#[test]
fn rule_table_for_a_dead_cell() {
    let expected = [DEAD, DEAD, DEAD, ALIVE, DEAD, DEAD, DEAD, DEAD, DEAD];
    for neighbors in 0..=8u32 {
        assert_eq!(next_state(DEAD, neighbors), expected[neighbors as usize]);
    }
}

#[test]
fn side_lengths_that_fit() {
    assert!(!is_valid_dimension(0));
    assert!(is_valid_dimension(1));
    assert!(is_valid_dimension(GRID_SIZE));
    assert!(is_valid_dimension(65535));
    assert!(!is_valid_dimension(65536));
    assert!(!is_valid_dimension(u32::MAX));
}

#[test]
fn cell_count_is_the_square() {
    assert_eq!(cell_count(1), 1);
    assert_eq!(cell_count(3), 9);
    assert_eq!(cell_count(GRID_SIZE), 4_194_304);
    assert_eq!(cell_count(65535), 4_294_836_225);
}

#[test]
fn dead_grid_has_no_life() {
    let grid = Grid::dead(7);
    assert_eq!(grid.size(), 7);
    assert_eq!(grid.cells().len(), 49);
    assert!(grid.cells().iter().all(|&cell| cell == DEAD));
}

#[test]
fn from_cells_keeps_the_cells_row_by_row() {
    let cells = vec![0, 1, 0, 0, 0, 1, 1, 0, 0];
    let grid = Grid::from_cells(3, cells.clone()).unwrap();
    assert_eq!(grid.size(), 3);
    assert_eq!(grid.cells(), &cells);
    assert_eq!(grid.get(1, 0), Some(ALIVE));
    assert_eq!(grid.get(0, 1), Some(DEAD));
    assert_eq!(grid.get(2, 1), Some(ALIVE));
    assert_eq!(grid.get(0, 2), Some(ALIVE));
    assert_eq!(grid.get(2, 2), Some(DEAD));
}

#[test]
fn from_cells_refuses_what_is_no_grid() {
    assert!(Grid::from_cells(0, vec![]).is_none());
    assert!(Grid::from_cells(2, vec![0, 0, 0]).is_none());
    assert!(Grid::from_cells(2, vec![0, 0, 0, 0, 0]).is_none());
    assert!(Grid::from_cells(2, vec![0, 0, 2, 0]).is_none());
    assert!(Grid::from_cells(2, vec![0, 0, 0, u32::MAX]).is_none());
    assert!(Grid::from_cells(65536, vec![0; 4]).is_none());
    assert!(Grid::from_cells(2, vec![0, 1, 1, 0]).is_some());
}

#[test]
fn get_outside_the_grid_is_none() {
    let grid = Grid::dead(3);
    assert_eq!(grid.get(3, 0), None);
    assert_eq!(grid.get(0, 3), None);
    assert_eq!(grid.get(u32::MAX, u32::MAX), None);
    assert_eq!(grid.get(2, 2), Some(DEAD));
}

#[test]
fn from_coins_follows_the_coins() {
    let coins = vec![true, false, false, true];
    let grid = Grid::from_coins(2, &coins).unwrap();
    assert_eq!(grid.cells(), &vec![ALIVE, DEAD, DEAD, ALIVE]);
    assert!(Grid::from_coins(2, &vec![true; 3]).is_none());
    assert!(Grid::from_coins(0, &vec![]).is_none());
    assert!(Grid::from_coins(65536, &vec![true; 4]).is_none());
}

#[test]
fn seeded_grid_holds_only_dead_and_alive() {
    let grid = Grid::seeded(64);
    assert_eq!(grid.size(), 64);
    assert_eq!(grid.cells().len(), 64 * 64);
    assert!(grid.cells().iter().all(|&cell| cell == DEAD || cell == ALIVE));
}

#[test]
fn seeded_grids_differ() {
    let first = Grid::seeded(64);
    let second = Grid::seeded(64);
    assert_ne!(first.cells(), second.cells());
    assert!(first.cells().iter().any(|&cell| cell == ALIVE));
    assert!(first.cells().iter().any(|&cell| cell == DEAD));
}

#[test]
fn bytes_are_the_cells_in_memory() {
    let grid = grid_of(3, &[(0, 0), (2, 1), (1, 2)]);
    let bytes = grid.to_bytes();
    assert_eq!(bytes.len(), 4 * 9);
    let mut decoded = Vec::new();
    for chunk in bytes.chunks(4) {
        decoded.push(u32::from_ne_bytes([chunk[0], chunk[1], chunk[2], chunk[3]]));
    }
    assert_eq!(&decoded, grid.cells());
    let ones = bytes.iter().filter(|&&byte| byte == 1).count();
    let zeros = bytes.iter().filter(|&&byte| byte == 0).count();
    assert_eq!(ones, 3);
    assert_eq!(zeros, 33);
}

#[test]
fn neighbours_are_counted_in_all_eight_directions() {
    let grid = Grid::from_cells(3, vec![1; 9]).unwrap();
    for y in 0..3 {
        for x in 0..3 {
            assert_eq!(grid.live_neighbors(x, y), 8);
        }
    }
    let one = grid_of(5, &[(2, 2)]);
    assert_eq!(one.live_neighbors(2, 2), 0);
    assert_eq!(one.live_neighbors(1, 1), 1);
    assert_eq!(one.live_neighbors(3, 2), 1);
    assert_eq!(one.live_neighbors(2, 3), 1);
    assert_eq!(one.live_neighbors(0, 0), 0);
    assert_eq!(one.live_neighbors(4, 2), 0);
}

#[test]
fn neighbours_wrap_around_the_edges() {
    let grid = grid_of(4, &[(3, 3)]);
    assert_eq!(grid.live_neighbors(0, 0), 1);
    assert_eq!(grid.live_neighbors(0, 3), 1);
    assert_eq!(grid.live_neighbors(3, 0), 1);
    assert_eq!(grid.live_neighbors(2, 2), 1);
    assert_eq!(grid.live_neighbors(1, 1), 0);
    assert_eq!(grid.live_neighbors(3, 3), 0);
}

#[test]
fn narrow_grids_count_a_cell_once_for_each_direction() {
    let single = Grid::from_cells(1, vec![ALIVE]).unwrap();
    assert_eq!(single.live_neighbors(0, 0), 8);
    let pair = grid_of(2, &[(0, 0)]);
    assert_eq!(pair.live_neighbors(0, 0), 0);
    assert_eq!(pair.live_neighbors(1, 0), 2);
    assert_eq!(pair.live_neighbors(0, 1), 2);
    assert_eq!(pair.live_neighbors(1, 1), 4);
}

#[test]
fn a_lonely_cell_dies() {
    let grid = grid_of(5, &[(2, 2)]);
    assert_eq!(alive_cells(&grid.step()), vec![]);
}

#[test]
fn a_block_stays() {
    let block = [(1, 1), (2, 1), (1, 2), (2, 2)];
    let grid = grid_of(6, &block);
    assert_eq!(alive_cells(&grid.step()), block.to_vec());
}

#[test]
fn a_blinker_turns() {
    let grid = grid_of(5, &[(1, 2), (2, 2), (3, 2)]);
    let turned = grid.step();
    assert_eq!(alive_cells(&turned), vec![(2, 1), (2, 2), (2, 3)]);
    assert_eq!(alive_cells(&turned.step()), vec![(1, 2), (2, 2), (3, 2)]);
}

#[test]
fn a_blinker_turns_across_the_edge() {
    let grid = grid_of(4, &[(3, 1), (0, 1), (1, 1)]);
    assert_eq!(alive_cells(&grid.step()), vec![(0, 0), (0, 1), (0, 2)]);
}

#[test]
fn three_neighbours_give_birth_and_four_kill() {
    let grid = grid_of(5, &[(1, 1), (2, 1), (3, 1), (2, 2), (2, 3)]);
    let next = grid.step();
    assert_eq!(next.get(2, 0), Some(ALIVE));
    assert_eq!(next.get(2, 1), Some(ALIVE));
    assert_eq!(next.get(1, 1), Some(ALIVE));
    assert_eq!(next.get(2, 2), Some(DEAD));
    assert_eq!(next.get(1, 2), Some(DEAD));
    assert_eq!(next.get(2, 3), Some(DEAD));
    let crowded = grid_of(5, &[(2, 2), (1, 2), (3, 2), (2, 1), (2, 3)]);
    assert_eq!(crowded.step().get(2, 2), Some(DEAD));
}

#[test]
fn a_glider_moves_one_cell_in_four_generations() {
    let mut grid = grid_of(8, &[(1, 0), (2, 1), (0, 2), (1, 2), (2, 2)]);
    for _ in 0..4 {
        grid = grid.step();
    }
    assert_eq!(alive_cells(&grid), vec![(2, 1), (3, 2), (1, 3), (2, 3), (3, 3)]);
}

#[test]
fn narrow_grids_step() {
    let single = Grid::from_cells(1, vec![ALIVE]).unwrap();
    assert_eq!(single.step().cells(), &vec![DEAD]);
    let full = Grid::from_cells(2, vec![ALIVE; 4]).unwrap();
    assert_eq!(full.step().cells(), &vec![DEAD; 4]);
    let one = grid_of(2, &[(0, 0)]);
    assert_eq!(one.step().cells(), &vec![DEAD; 4]);
}

#[test]
fn step_into_writes_every_cell() {
    let grid = grid_of(5, &[(1, 2), (2, 2), (3, 2)]);
    let mut target = Grid::from_cells(5, vec![ALIVE; 25]).unwrap();
    grid.step_into(&mut target);
    assert_eq!(alive_cells(&target), vec![(2, 1), (2, 2), (2, 3)]);
    assert_eq!(target.cells(), grid.step().cells());
    assert_eq!(alive_cells(&grid), vec![(1, 2), (2, 2), (3, 2)]);
}

#[test]
fn the_same_cells_give_the_same_generation() {
    let seed = Grid::seeded(32);
    let copy = Grid::from_cells(32, seed.cells().clone()).unwrap();
    let mut first = Grid::dead(32);
    let mut second = Grid::seeded(32);
    seed.step_into(&mut first);
    copy.step_into(&mut second);
    assert_eq!(first.cells(), second.cells());
    assert_eq!(seed.step().cells(), first.cells());
}

#[test]
fn nothing_is_born_in_a_dead_grid() {
    let mut grid = Grid::dead(16);
    for _ in 0..10 {
        grid = grid.step();
        assert!(grid.cells().iter().all(|&cell| cell == DEAD));
    }
}

use gpu_life::app::App;
use gpu_life::grid::Grid;
use gpu_life::rule::{ALIVE, DEAD};
use gpu_life::simulation::{alternate_index, current_index, Simulation};

fn blinker() -> Grid {
    let mut cells = vec![DEAD; 25];
    cells[11] = ALIVE;
    cells[12] = ALIVE;
    cells[13] = ALIVE;
    Grid::from_cells(5, cells).unwrap()
}

#[test]
fn parity_names_the_current_grid() {
    assert_eq!(current_index(0), 0);
    assert_eq!(current_index(1), 1);
    assert_eq!(current_index(2), 0);
    assert_eq!(current_index(u32::MAX), 1);
    assert_eq!(alternate_index(0), 1);
    assert_eq!(alternate_index(1), 0);
    assert_eq!(alternate_index(u32::MAX - 1), 1);
}

#[test]
fn the_alternate_is_never_the_current() {
    for step in 0..100u32 {
        assert_ne!(current_index(step), alternate_index(step));
        assert_eq!(current_index(step + 1), alternate_index(step));
        assert_eq!(current_index(step), (step % 2) as usize);
    }
}

#[test]
fn a_simulation_starts_with_the_seed() {
    let seed = blinker();
    let cells = seed.cells().clone();
    let sim = Simulation::new(seed);
    assert_eq!(sim.step(), 0);
    assert_eq!(sim.current_grid().cells(), &cells);
    assert_eq!(sim.current_grid().size(), 5);
}

#[test]
fn advance_moves_to_the_next_generation() {
    let expected = blinker().step();
    let mut sim = Simulation::new(blinker());
    sim.advance();
    assert_eq!(sim.step(), 1);
    assert_eq!(sim.current_grid().cells(), expected.cells());
    sim.advance();
    assert_eq!(sim.step(), 2);
    assert_eq!(sim.current_grid().cells(), blinker().cells());
}

#[test]
fn run_is_advance_repeated() {
    let mut stepped = Simulation::new(Grid::seeded(16));
    let seed = Grid::from_cells(16, stepped.current_grid().cells().clone()).unwrap();
    let mut run = Simulation::new(seed);
    for _ in 0..7 {
        stepped.advance();
    }
    run.run(7);
    assert_eq!(run.step(), 7);
    assert_eq!(run.current_grid().cells(), stepped.current_grid().cells());
    run.run(0);
    assert_eq!(run.step(), 7);
    assert_eq!(run.current_grid().cells(), stepped.current_grid().cells());
}

#[test]
fn a_dead_grid_stays_dead_however_long_it_runs() {
    let mut sim = Simulation::new(Grid::dead(12));
    for count in [0u32, 1, 2, 5, 20] {
        sim.run(count);
        assert!(sim.current_grid().cells().iter().all(|&cell| cell == DEAD));
    }
    assert_eq!(sim.step(), 28);
}

#[test]
fn the_grid_that_was_read_keeps_its_cells() {
    let mut sim = Simulation::new(blinker());
    assert!(sim.alternate_grid().cells().iter().all(|&cell| cell == DEAD));
    sim.advance();
    assert_eq!(sim.alternate_grid().cells(), blinker().cells());
    assert_eq!(sim.current_grid().cells(), blinker().step().cells());
    sim.advance();
    assert_eq!(sim.alternate_grid().cells(), blinker().step().cells());
    assert_eq!(sim.current_grid().cells(), blinker().cells());
}

#[test]
fn after_a_run_the_alternate_is_one_generation_behind() {
    let seed = Grid::seeded(16);
    let mut behind = Simulation::new(Grid::from_cells(16, seed.cells().clone()).unwrap());
    let mut sim = Simulation::new(seed);
    sim.run(5);
    behind.run(4);
    assert_eq!(sim.alternate_grid().cells(), behind.current_grid().cells());
    assert_eq!(sim.current_grid().cells(), behind.current_grid().step().cells());
    let alternate = sim.alternate_grid().cells().clone();
    sim.run(0);
    assert_eq!(sim.alternate_grid().cells(), &alternate);
}

#[test]
fn the_grids_follow_the_dispatches_of_the_loop() {
    let seed = Grid::seeded(16);
    let mut expected = Grid::from_cells(16, seed.cells().clone()).unwrap();
    let mut sim = Simulation::new(seed);
    let mut app = App::new(16, 0);
    let mut now = 0;
    for _ in 0..6 {
        now += 4_000;
        let before = sim.current_grid().cells().clone();
        match app.update(now) {
            Some(dispatch) => {
                assert_eq!(dispatch.bind_group, current_index(sim.step()));
                sim.apply(&dispatch);
                expected = expected.step();
                assert_eq!(sim.alternate_grid().cells(), &before);
            }
            None => assert_eq!(sim.current_grid().cells(), &before),
        }
        assert_eq!(sim.step(), app.step());
        assert_eq!(sim.current_grid().cells(), expected.cells());
        let draw = app.render(Ok(())).unwrap();
        assert_eq!(draw.bind_group, current_index(sim.step()));
    }
    assert_eq!(app.step(), 2);
}

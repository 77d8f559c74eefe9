use game_of_life::grid::{next_state, Grid};
use game_of_life::simulation::{Settings, Simulation, MAX_DELAY, MIN_DELAY};

fn grid_with(width: usize, height: usize, live: &[(usize, usize)]) -> Grid {
    let mut g = Grid::new(width, height);
    for &(x, y) in live {
        g.set(x, y, true);
    }
    g
}

fn live_cells(g: &Grid) -> Vec<(usize, usize)> {
    let mut out = Vec::new();
    for y in 0..g.height() {
        for x in 0..g.width() {
            if g.get(x, y) {
                out.push((x, y));
            }
        }
    }
    out
}

#[test]
fn new_grid_is_all_dead() {
    let g = Grid::new(4, 3);
    assert_eq!(g.width(), 4);
    assert_eq!(g.height(), 3);
    assert_eq!(g.cells().len(), 12);
    assert!(live_cells(&g).is_empty());
}

#[test]
fn from_cells_checks_length() {
    assert!(Grid::from_cells(2, 2, vec![false; 4]).is_some());
    assert!(Grid::from_cells(2, 2, vec![false; 3]).is_none());
    assert!(Grid::from_cells(2, 2, vec![false; 5]).is_none());
    assert!(Grid::from_cells(0, 2, vec![]).is_none());
    assert!(Grid::from_cells(2, 0, vec![]).is_none());
    let g = Grid::from_cells(2, 2, vec![false, true, false, false]).unwrap();
    assert_eq!(live_cells(&g), vec![(1, 0)]);
}

#[test]
fn index_of_is_row_major() {
    let g = Grid::new(120, 80);
    assert_eq!(g.index_of(0, 0), 0);
    assert_eq!(g.index_of(5, 0), 5);
    assert_eq!(g.index_of(0, 1), 120);
    assert_eq!(g.index_of(7, 3), 367);
    assert_eq!(g.index_of(119, 79), 9599);
}

#[test]
fn coords_of_inverts_index_of() {
    let g = Grid::new(7, 5);
    for y in 0..5 {
        for x in 0..7 {
            assert_eq!(g.coords_of(g.index_of(x, y)), (x, y));
        }
    }
    assert_eq!(g.coords_of(0), (0, 0));
    assert_eq!(g.coords_of(9), (2, 1));
    assert_eq!(g.coords_of(34), (6, 4));
}

#[test]
fn rule_table() {
    for n in 0u8..=8 {
        assert_eq!(next_state(true, n), n == 2 || n == 3);
        assert_eq!(next_state(false, n), n == 3);
    }
}

#[test]
fn interior_rule_on_each_count() {
    // The centre of a 5x5 grid with n live neighbours around it.
    let ring = [(1, 1), (2, 1), (3, 1), (1, 2), (3, 2), (1, 3), (2, 3), (3, 3)];
    for n in 0..=8 {
        for centre in [false, true] {
            let mut g = grid_with(5, 5, &ring[..n]);
            if centre {
                g.set(2, 2, true);
            }
            assert_eq!(g.live_neighbours(2, 2) as usize, n);
            let next = g.step();
            let expected = if centre { n == 2 || n == 3 } else { n == 3 };
            assert_eq!(next.get(2, 2), expected, "centre {} with {} neighbours", centre, n);
        }
    }
}

#[test]
fn corner_has_three_neighbours_at_most() {
    let mut g = Grid::new(4, 4);
    for y in 0..4 {
        for x in 0..4 {
            g.set(x, y, true);
        }
    }
    assert_eq!(g.live_neighbours(0, 0), 3);
    assert_eq!(g.live_neighbours(3, 3), 3);
    assert_eq!(g.live_neighbours(1, 0), 5);
    assert_eq!(g.live_neighbours(1, 1), 8);
}

#[test]
fn lone_corner_cell_dies() {
    let g = grid_with(6, 4, &[(0, 0)]);
    assert_eq!(g.live_neighbours(0, 0), 0);
    assert!(live_cells(&g.step()).is_empty());
}

#[test]
fn edges_do_not_wrap() {
    // Three cells down the left column would give (width-1, 1) three
    // neighbours on a torus.
    let g = grid_with(5, 3, &[(0, 0), (0, 1), (0, 2)]);
    let next = g.step();
    assert!(!next.get(4, 1));
    assert_eq!(live_cells(&next), vec![(0, 1), (1, 1)]);
}

#[test]
fn empty_grid_stays_empty() {
    let g = Grid::new(9, 6);
    let next = g.step();
    assert_eq!(next.width(), 9);
    assert_eq!(next.height(), 6);
    assert!(live_cells(&next).is_empty());
}

#[test]
fn block_is_still() {
    let g = grid_with(6, 6, &[(2, 2), (3, 2), (2, 3), (3, 3)]);
    let next = g.step();
    assert_eq!(live_cells(&next), live_cells(&g));
    assert_eq!(live_cells(&next.step()), live_cells(&g));
}

#[test]
fn blinker_oscillates() {
    let g = grid_with(5, 3, &[(1, 1), (2, 1), (3, 1)]);
    let once = g.step();
    assert_eq!(live_cells(&once), vec![(2, 0), (2, 1), (2, 2)]);
    let twice = once.step();
    assert_eq!(live_cells(&twice), vec![(1, 1), (2, 1), (3, 1)]);
}

#[test]
fn blinker_oscillates_in_larger_grid() {
    let g = grid_with(8, 7, &[(1, 1), (2, 1), (3, 1)]);
    let once = g.step();
    assert_eq!(live_cells(&once), vec![(2, 0), (2, 1), (2, 2)]);
    assert_eq!(live_cells(&once.step()), vec![(1, 1), (2, 1), (3, 1)]);
}

#[test]
fn glider_moves() {
    let g = grid_with(6, 6, &[(1, 0), (2, 1), (0, 2), (1, 2), (2, 2)]);
    let g4 = g.step().step().step().step();
    assert_eq!(live_cells(&g4), vec![(2, 1), (3, 2), (1, 3), (2, 3), (3, 3)]);
}

#[test]
fn step_leaves_its_input_alone() {
    let g = grid_with(5, 3, &[(1, 1), (2, 1), (3, 1)]);
    let _ = g.step();
    assert_eq!(live_cells(&g), vec![(1, 1), (2, 1), (3, 1)]);
}

#[test]
fn clear_kills_everything_and_is_idempotent() {
    let mut g = grid_with(4, 3, &[(0, 0), (3, 2), (1, 1)]);
    g.clear();
    assert!(live_cells(&g).is_empty());
    assert_eq!(g.width(), 4);
    assert_eq!(g.height(), 3);
    let once = g.cells().clone();
    g.clear();
    assert_eq!(g.cells(), &once);
}

#[test]
fn toggle_twice_restores() {
    let mut g = grid_with(4, 3, &[(1, 1)]);
    let before = g.cells().clone();
    g.toggle(2, 1);
    assert!(g.get(2, 1));
    g.toggle(2, 1);
    assert_eq!(g.cells(), &before);
    g.toggle(1, 1);
    assert!(!g.get(1, 1));
    g.toggle(1, 1);
    assert_eq!(g.cells(), &before);
}

#[test]
fn toggle_off_grid_changes_nothing() {
    let mut g = grid_with(4, 3, &[(1, 1)]);
    let before = g.cells().clone();
    g.toggle(4, 0);
    g.toggle(0, 3);
    assert_eq!(g.cells(), &before);
}

#[test]
fn cell_at_maps_pointer_to_cell() {
    // 120 by 80 cells over a 1200 by 800 viewport: 10 units a cell.
    let g = Grid::new(120, 80);
    assert_eq!(g.cell_at(0, 0, 1200, 800), Some((0, 0)));
    assert_eq!(g.cell_at(9, 9, 1200, 800), Some((0, 0)));
    assert_eq!(g.cell_at(10, 19, 1200, 800), Some((1, 1)));
    assert_eq!(g.cell_at(1199, 799, 1200, 800), Some((119, 79)));
    assert_eq!(g.cell_at(1200, 5, 1200, 800), None);
    assert_eq!(g.cell_at(5, 800, 1200, 800), None);
    assert_eq!(g.cell_at(-1, 5, 1200, 800), None);
    assert_eq!(g.cell_at(5, -1, 1200, 800), None);
    assert_eq!(g.cell_at(5, 5, 0, 800), None);
}

#[test]
fn cell_at_with_uneven_cells() {
    // 3 cells over 10 units: cells start at 0, 10/3 and 20/3.
    let g = Grid::new(3, 3);
    assert_eq!(g.cell_at(3, 3, 10, 10), Some((0, 0)));
    assert_eq!(g.cell_at(4, 7, 10, 10), Some((1, 2)));
    assert_eq!(g.cell_at(9, 6, 10, 10), Some((2, 1)));
}

fn settings() -> Settings {
    Settings { width: 5, height: 3, delay: 200 }
}

#[test]
fn simulation_starts_stopped_and_empty() {
    let s = Simulation::new(settings());
    assert!(!s.is_active());
    assert_eq!(s.delay(), 200);
    assert_eq!(s.elapsed(), 0);
    assert!(live_cells(s.field()).is_empty());
}

#[test]
fn delay_is_clamped() {
    let mut s = Simulation::new(Settings { width: 2, height: 2, delay: 5 });
    assert_eq!(s.delay(), MIN_DELAY);
    s.set_delay(5000);
    assert_eq!(s.delay(), MAX_DELAY);
    s.set_delay(750);
    assert_eq!(s.delay(), 750);
    s.set_delay(100);
    assert_eq!(s.delay(), 100);
    s.set_delay(2000);
    assert_eq!(s.delay(), 2000);
}

#[test]
fn paused_simulation_does_not_step() {
    let mut s = Simulation::new(settings());
    s.release_at(15, 15, 50, 30);
    assert!(!s.tick(10_000_000_000));
    assert_eq!(s.elapsed(), 0);
    assert_eq!(live_cells(s.field()), vec![(1, 1)]);
}

#[test]
fn running_simulation_steps_after_delay() {
    let mut s = Simulation::new(settings());
    for (px, py) in [(15, 15), (25, 15), (35, 15)] {
        s.release_at(px, py, 50, 30);
    }
    assert_eq!(live_cells(s.field()), vec![(1, 1), (2, 1), (3, 1)]);
    s.toggle_active();
    assert!(s.is_active());
    assert!(!s.tick(150_000_000));
    assert_eq!(s.elapsed(), 150_000_000);
    // Exactly the delay is not yet past it.
    assert!(!s.tick(50_000_000));
    assert_eq!(s.elapsed(), 200_000_000);
    assert!(s.tick(1));
    assert_eq!(s.elapsed(), 0);
    assert_eq!(live_cells(s.field()), vec![(2, 0), (2, 1), (2, 2)]);
    s.toggle_active();
    assert!(!s.tick(1_000_000_000));
    assert_eq!(live_cells(s.field()), vec![(2, 0), (2, 1), (2, 2)]);
}

#[test]
fn elapsed_time_saturates() {
    let mut s = Simulation::new(settings());
    s.toggle_active();
    assert!(s.tick(u64::MAX));
    assert_eq!(s.elapsed(), 0);
    s.set_delay(2000);
    assert!(!s.tick(1_000));
    assert!(s.tick(u64::MAX));
}

#[test]
fn release_toggles_and_reports_cell() {
    let mut s = Simulation::new(settings());
    assert_eq!(s.release_at(49, 29, 50, 30), Some((4, 2)));
    assert!(s.field().get(4, 2));
    assert_eq!(s.release_at(49, 29, 50, 30), Some((4, 2)));
    assert!(!s.field().get(4, 2));
    assert_eq!(s.release_at(50, 0, 50, 30), None);
    assert_eq!(s.release_at(0, -3, 50, 30), None);
    assert!(live_cells(s.field()).is_empty());
}

#[test]
fn simulation_clear() {
    let mut s = Simulation::new(settings());
    s.release_at(5, 5, 50, 30);
    s.release_at(45, 25, 50, 30);
    s.clear();
    assert!(live_cells(s.field()).is_empty());
    assert_eq!(s.field().width(), 5);
}

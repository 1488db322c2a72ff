use game_of_life::cell::Cell;
use game_of_life::patterns::wrap_coordinate;
use game_of_life::random::{cell_from_draw, cells_from_draws, random_cells, random_draws};
use game_of_life::universe::Universe;

fn empty(width: u32, height: u32) -> Universe {
    let mut u = Universe::new(width, height, 0);
    u.reset_dead();
    u
}

fn alive_positions(u: &Universe) -> Vec<(u32, u32)> {
    let mut v = Vec::new();
    for (i, c) in u.get_cells().iter().enumerate() {
        if *c == Cell::Alive {
            v.push((i as u32 / u.width(), i as u32 % u.width()));
        }
    }
    v
}

#[test]
fn new_scales_dimensions_by_cell_size() {
    let u = Universe::new(64, 32, 3);
    assert_eq!(u.width(), 16);
    assert_eq!(u.height(), 8);
    assert_eq!(u.cells().len(), 128);
    let v = Universe::new(10, 7, 0);
    assert_eq!((v.width(), v.height()), (10, 7));
}

#[test]
fn isolated_cell_dies() {
    let mut u = empty(3, 3);
    u.set_cells(&[(1, 1)]);
    assert_eq!(u.live_neighbor_count(1, 1), 0);
    u.tick();
    assert!(u.get_cells().iter().all(|c| *c == Cell::Dead));
}

#[test]
fn glider_moves_one_diagonal_step_in_four_generations() {
    let mut u = empty(13, 13);
    u.make_glider(5, 5);
    let mut expected = empty(13, 13);
    expected.make_glider(6, 6);
    for _ in 0..4 {
        u.tick();
    }
    assert_eq!(u.get_cells(), expected.get_cells());
    assert_eq!(alive_positions(&u), vec![(5, 6), (6, 7), (7, 5), (7, 6), (7, 7)]);
}

#[test]
fn block_is_still_life() {
    let mut u = empty(6, 6);
    u.set_cells(&[(2, 2), (2, 3), (3, 2), (3, 3)]);
    let start = u.get_cells().to_vec();
    for _ in 0..10 {
        u.tick();
        assert_eq!(u.get_cells(), start.as_slice());
    }
}

#[test]
fn block_across_the_corner_is_still_life() {
    let mut u = empty(5, 5);
    u.set_cells(&[(0, 0), (0, 4), (4, 0), (4, 4)]);
    let start = u.get_cells().to_vec();
    for _ in 0..5 {
        u.tick();
    }
    assert_eq!(u.get_cells(), start.as_slice());
}

#[test]
fn top_row_counts_bottom_row() {
    let mut u = empty(4, 4);
    u.set_cells(&[(3, 1)]);
    assert_eq!(u.live_neighbor_count(0, 1), 1);
    assert_eq!(u.live_neighbor_count(0, 0), 1);
    assert_eq!(u.live_neighbor_count(0, 2), 1);
    assert_eq!(u.live_neighbor_count(0, 3), 0);
    assert_eq!(u.live_neighbor_count(1, 1), 0);
}

#[test]
fn left_column_counts_right_column() {
    let mut u = empty(4, 4);
    u.set_cells(&[(2, 3)]);
    assert_eq!(u.live_neighbor_count(2, 0), 1);
    assert_eq!(u.live_neighbor_count(1, 0), 1);
    assert_eq!(u.live_neighbor_count(3, 0), 1);
    assert_eq!(u.live_neighbor_count(0, 0), 0);
}

#[test]
fn corner_counts_opposite_corner() {
    let mut u = empty(5, 5);
    u.set_cells(&[(4, 4)]);
    assert_eq!(u.live_neighbor_count(0, 0), 1);
}

#[test]
fn neighbor_count_full_ring() {
    let mut u = empty(5, 5);
    u.set_cells(&[(0, 0), (0, 1), (0, 2), (1, 0), (1, 2), (2, 0), (2, 1), (2, 2)]);
    assert_eq!(u.live_neighbor_count(1, 1), 8);
    assert_eq!(u.live_neighbor_count(0, 1), 4);
}

#[test]
fn birth_with_three_neighbors() {
    let mut u = empty(5, 5);
    u.set_cells(&[(1, 1), (1, 2), (1, 3)]);
    assert_eq!(u.live_neighbor_count(2, 2), 3);
    u.tick();
    assert_eq!(alive_positions(&u), vec![(0, 2), (1, 2), (2, 2)]);
}

#[test]
fn survival_with_two_neighbors() {
    let mut u = empty(6, 6);
    u.set_cells(&[(1, 1), (2, 2), (3, 3)]);
    assert_eq!(u.live_neighbor_count(2, 2), 2);
    u.tick();
    assert_eq!(alive_positions(&u), vec![(2, 2)]);
}

#[test]
fn overcrowded_cell_dies() {
    let mut u = empty(5, 5);
    u.set_cells(&[(1, 1), (1, 2), (1, 3), (2, 1), (2, 2)]);
    assert_eq!(u.live_neighbor_count(2, 2), 4);
    u.tick();
    assert_eq!(u.get_cells()[2 * 5 + 2], Cell::Dead);
}

#[test]
fn reset_dead_twice_equals_once() {
    let mut u = Universe::new(8, 6, 0);
    u.reset_dead();
    let once = u.get_cells().to_vec();
    u.reset_dead();
    assert_eq!(u.get_cells(), once.as_slice());
    assert_eq!(once.len(), 48);
    assert!(once.iter().all(|c| *c == Cell::Dead));
}

#[test]
fn toggle_twice_restores_cell() {
    let mut u = Universe::new(7, 5, 0);
    let start = u.get_cells().to_vec();
    u.toggle_cell(3, 6);
    assert_ne!(u.get_cells()[3 * 7 + 6], start[3 * 7 + 6]);
    u.toggle_cell(3, 6);
    assert_eq!(u.get_cells(), start.as_slice());
}

#[test]
fn resize_width_clears_board() {
    let mut u = Universe::new(10, 10, 0);
    u.set_cells(&[(0, 0)]);
    u.set_width(4);
    assert_eq!(u.width(), 4);
    assert_eq!(u.height(), 10);
    assert_eq!(u.cells().len(), 40);
    assert!(u.cells().iter().all(|c| *c == Cell::Dead));
    u.tick();
    assert_eq!(u.cells().len(), 40);
}

#[test]
fn resize_height_clears_board() {
    let mut u = Universe::new(10, 10, 0);
    u.set_height(13);
    assert_eq!(u.height(), 13);
    assert_eq!(u.cells().len(), 130);
    assert!(u.cells().iter().all(|c| *c == Cell::Dead));
    u.set_height(0);
    assert_eq!(u.cells().len(), 0);
    u.tick();
}

#[test]
fn set_cells_keeps_other_cells() {
    let mut u = empty(3, 3);
    u.toggle_cell(0, 0);
    u.set_cells(&[(2, 2), (2, 2), (0, 0)]);
    assert_eq!(alive_positions(&u), vec![(0, 0), (2, 2)]);
}

#[test]
fn glider_wraps_around_edges() {
    let mut u = empty(10, 10);
    u.make_glider(0, 0);
    assert_eq!(alive_positions(&u), vec![(0, 1), (1, 0), (1, 1), (1, 9), (9, 0)]);
}

#[test]
fn glider_far_anchor_wraps_fully() {
    let mut a = empty(8, 8);
    a.make_glider(-30, 45);
    let mut b = empty(8, 8);
    b.make_glider(2, 5);
    assert_eq!(a.get_cells(), b.get_cells());
}

#[test]
fn pulsar_has_forty_eight_cells() {
    let mut u = empty(17, 17);
    u.make_pulsar(8, 8);
    let alive = alive_positions(&u);
    assert_eq!(alive.len(), 48);
    assert!(alive.contains(&(2, 4)));
    assert!(alive.contains(&(14, 12)));
    let start = u.get_cells().to_vec();
    u.tick();
    assert_ne!(u.get_cells(), start.as_slice());
    u.tick();
    u.tick();
    assert_eq!(u.get_cells(), start.as_slice());
    assert_eq!(alive_positions(&u).len(), 48);
}

#[test]
fn patterns_on_empty_board_do_nothing() {
    let mut u = Universe::new(0, 5, 0);
    u.make_glider(1, 1);
    u.make_pulsar(-3, 2);
    assert_eq!(u.cells().len(), 0);
}

#[test]
fn render_shows_glyph_per_cell() {
    let mut u = empty(3, 2);
    u.set_cells(&[(0, 1), (1, 2)]);
    assert_eq!(u.render(), "\u{25FB}\u{25FC}\u{25FB}\n\u{25FB}\u{25FB}\u{25FC}\n");
    let e = empty(0, 0);
    assert_eq!(e.render(), "");
}

#[test]
fn cell_toggle_value_and_name() {
    let mut c = Cell::Dead;
    assert_eq!(c.value(), 0);
    assert_eq!(c.to_string(), "Dead");
    c.toggle();
    assert_eq!(c, Cell::Alive);
    assert_eq!(c.value(), 1);
    assert_eq!(c.to_string(), "Alive");
    c.toggle();
    assert_eq!(c, Cell::Dead);
}

#[test]
fn draw_threshold() {
    assert_eq!(cell_from_draw(1), Cell::Dead);
    assert_eq!(cell_from_draw(50), Cell::Dead);
    assert_eq!(cell_from_draw(51), Cell::Alive);
    assert_eq!(cell_from_draw(99), Cell::Alive);
    assert_eq!(
        cells_from_draws(&[3, 77, 50, 51]),
        vec![Cell::Dead, Cell::Alive, Cell::Dead, Cell::Alive]
    );
}

#[test]
fn random_draws_stay_in_range() {
    let d = random_draws(1000);
    assert_eq!(d.len(), 1000);
    assert!(d.iter().all(|x| (1..100).contains(x)));
    assert!(d.iter().any(|x| *x != d[0]));
    assert_eq!(random_cells(37).len(), 37);
    assert_eq!(Universe::set_random(6, 7).len(), 42);
}

#[test]
fn reset_rand_keeps_size() {
    let mut u = empty(9, 4);
    u.reset_rand();
    assert_eq!(u.get_cells().len(), 36);
    assert_eq!((u.width(), u.height()), (9, 4));
}

#[test]
fn wrap_coordinate_values() {
    assert_eq!(wrap_coordinate(-1, 5), 4);
    assert_eq!(wrap_coordinate(-11, 5), 4);
    assert_eq!(wrap_coordinate(-10, 5), 0);
    assert_eq!(wrap_coordinate(12, 5), 2);
    assert_eq!(wrap_coordinate(3, 5), 3);
    assert_eq!(wrap_coordinate(i64::MIN, 7), 6);
}

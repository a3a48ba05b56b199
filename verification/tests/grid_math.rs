use tile_adventure::grid::{chebyshev, to_grid_coords, to_translation, GridCoords, Position};

#[test]
fn a_position_lies_in_the_cell_that_floor_division_gives() {
    assert_eq!(to_grid_coords(Position::new(0, 0, 0), 32), GridCoords::new(0, 0));
    assert_eq!(to_grid_coords(Position::new(31, 32, 0), 32), GridCoords::new(0, 1));
    assert_eq!(to_grid_coords(Position::new(176, 176, 5), 32), GridCoords::new(5, 5));
}

#[test]
fn a_negative_coordinate_is_floored_not_truncated() {
    assert_eq!(to_grid_coords(Position::new(-1, -32, 0), 32), GridCoords::new(-1, -1));
    assert_eq!(to_grid_coords(Position::new(-33, -64, 0), 32), GridCoords::new(-2, -2));
    assert_eq!(to_grid_coords(Position::new(-64, 63, 0), 64), GridCoords::new(-1, 0));
}

#[test]
fn a_cell_beyond_the_index_range_is_held_to_the_nearest_index() {
    assert_eq!(
        to_grid_coords(Position::new(i64::MAX, i64::MIN, 0), 1),
        GridCoords::new(i32::MAX, i32::MIN)
    );
    assert_eq!(
        to_grid_coords(Position::new(i64::MIN, 1 << 62, 0), 0x8000_0000),
        GridCoords::new(i32::MIN, i32::MAX)
    );
}

#[test]
fn a_cell_is_placed_at_its_centre_and_depth_is_kept() {
    assert_eq!(to_translation(GridCoords::new(6, 5), 32, 7), Position::new(208, 176, 7));
    assert_eq!(to_translation(GridCoords::new(-1, 0), 32, -3), Position::new(-16, 16, -3));
    assert_eq!(to_translation(GridCoords::new(2, 2), 1, 0), Position::new(2, 2, 0));
}

#[test]
fn the_centre_of_a_positions_cell_lies_in_the_same_cell() {
    for &(x, y) in &[(0i64, 0i64), (31, 33), (-1, -100), (1_000_003, -77)] {
        for &c in &[1u32, 2, 7, 32] {
            let cell = to_grid_coords(Position::new(x, y, 9), c);
            let centre = to_translation(cell, c, 4);
            assert_eq!(centre.z, 4);
            assert_eq!(to_grid_coords(centre, c), cell);
        }
    }
}

#[test]
fn chebyshev_distance_is_the_larger_gap() {
    assert_eq!(chebyshev(GridCoords::new(5, 5), GridCoords::new(6, 4)), 1);
    assert_eq!(chebyshev(GridCoords::new(5, 5), GridCoords::new(5, 7)), 2);
    assert_eq!(chebyshev(GridCoords::new(i32::MIN, 0), GridCoords::new(i32::MAX, 0)), u32::MAX);
}

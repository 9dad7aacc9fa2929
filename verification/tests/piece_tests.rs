use retris::colors::{COLOR_CYAN, COLOR_MAGENTA, COLOR_ORANGE, COLOR_SOFTWARE_GREEN, COLOR_WHITE,
    COLOR_YELLOW};
use retris::grid::Grid;
use retris::piece::{PieceInput, TetrisShapeNode};
use retris::shape::{Shape, ShapeDimension, ShapeName};

fn offsets(shape: &Shape) -> Vec<(i32, i32)> {
    shape.get_dimensions().iter().map(|d| (d.x, d.y)).collect()
}

fn idle_input() -> PieceInput {
    PieceInput { left: false, right: false, soft_drop: false, rotate: false }
}

fn piece_with(shape: Shape, x: i32, y: i32) -> TetrisShapeNode {
    TetrisShapeNode::new_with_shape_and_color(1, x, y, 10, 24, shape, COLOR_WHITE)
}

#[test]
fn rotation_round_trip_restores_offsets() {
    for index in [0, 2, 3, 4] {
        let mut shape = Shape::get_shape_by_index(index);
        let original = offsets(&shape);
        shape.rotate_clockwise();
        if index != 1 {
            assert_ne!(offsets(&shape), original);
        }
        shape.rotate_counter_clockwise();
        assert_eq!(offsets(&shape), original);
    }
}

#[test]
fn square_rotation_is_a_no_op() {
    let mut shape = Shape::get_shape_by_index(1);
    assert_eq!(shape.name(), ShapeName::Square);
    let original = offsets(&shape);
    shape.rotate_clockwise();
    assert_eq!(offsets(&shape), original);
    shape.rotate_counter_clockwise();
    assert_eq!(offsets(&shape), original);
}

#[test]
fn letter_shapes_do_not_rotate() {
    let mut shape = Shape::new_letter_r();
    let original = offsets(&shape);
    shape.rotate_clockwise();
    assert_eq!(offsets(&shape), original);
}

#[test]
fn clockwise_rotation_maps_offsets() {
    let mut shape = Shape::get_shape_by_index(0);
    assert_eq!(shape.name(), ShapeName::Straight);
    // vertical line: (0,-1), (0,0), (0,1), (0,2)
    shape.rotate_clockwise();
    // (x, y) -> (y, -x)
    assert_eq!(offsets(&shape), vec![(-1, 0), (0, 0), (1, 0), (2, 0)]);
}

#[test]
fn shape_dimension_rotations() {
    let mut d = ShapeDimension::new(2, 1);
    d.rotate_clockwise();
    assert_eq!((d.x, d.y), (1, -2));
    d.rotate_counter_clockwise();
    assert_eq!((d.x, d.y), (2, 1));
}

#[test]
fn wall_kick_takes_first_validating_offset() {
    // a vertical straight piece flush against the left wall: rotating makes
    // it horizontal, spanning pivot-1 .. pivot+2, so at x = 0 the rotation
    // only fits after the +1 kick (0 and -1 fail first)
    let grid = Grid::new(10, 20);
    let mut piece = piece_with(Shape::get_shape_by_index(0), 0, 10);
    let rotated = piece.rotate_clockwise_with_wall_kick(&grid);
    assert!(rotated);
    assert_eq!(piece.cell_x, 1);
    assert_eq!(offsets(&piece.shape_name), vec![(-1, 0), (0, 0), (1, 0), (2, 0)]);
}

#[test]
fn wall_kick_failure_reverts_geometry_and_pivot() {
    // the whole target row is occupied, so no kick offset can validate
    let mut grid = Grid::new(10, 20);
    let mut row = Vec::new();
    for col in 0..10 {
        row.push((col, 10, COLOR_CYAN));
    }
    grid.mark_cells_occupied(&row);
    let mut piece = piece_with(Shape::get_shape_by_index(0), 4, 10);
    let before = offsets(&piece.shape_name);
    let rotated = piece.rotate_clockwise_with_wall_kick(&grid);
    assert!(!rotated);
    assert_eq!(piece.cell_x, 4);
    assert_eq!(offsets(&piece.shape_name), before);
}

#[test]
fn das_holds_then_repeats_at_fixed_interval() {
    let grid = Grid::new(10, 20);
    let mut piece = piece_with(Shape::get_shape_by_index(1), 2, 10);
    let held_right = PieceInput { left: false, right: true, soft_drop: false, rotate: false };
    // frame 1: fresh press moves immediately
    piece.update(held_right, 16, &grid);
    assert_eq!(piece.cell_x, 3);
    // the delay (133 ms) passes without movement: 16 ms steps
    for _ in 0..8 {
        piece.update(held_right, 16, &grid);
    }
    // 8 × 16 = 128 < 133: still no second move
    assert_eq!(piece.cell_x, 3);
    // crossing the delay activates auto-repeat
    piece.update(held_right, 16, &grid);
    assert!(piece.das_active);
    assert_eq!(piece.cell_x, 3);
    // now one move per 50 ms interval
    piece.update(held_right, 50, &grid);
    assert_eq!(piece.cell_x, 4);
    piece.update(held_right, 50, &grid);
    assert_eq!(piece.cell_x, 5);
    // catch-up: several intervals in one frame emit several moves
    piece.update(held_right, 150, &grid);
    assert_eq!(piece.cell_x, 8);
}

#[test]
fn release_and_repress_moves_immediately_again() {
    let grid = Grid::new(10, 20);
    let mut piece = piece_with(Shape::get_shape_by_index(1), 2, 10);
    let held_right = PieceInput { left: false, right: true, soft_drop: false, rotate: false };
    piece.update(held_right, 16, &grid);
    assert_eq!(piece.cell_x, 3);
    // releasing resets the state machine to idle
    piece.update(idle_input(), 16, &grid);
    assert_eq!(piece.last_direction, 0);
    assert!(!piece.das_active);
    // pressing again moves immediately, before any delay
    piece.update(held_right, 16, &grid);
    assert_eq!(piece.cell_x, 4);
}

#[test]
fn both_directions_held_do_not_move() {
    let grid = Grid::new(10, 20);
    let mut piece = piece_with(Shape::get_shape_by_index(1), 2, 10);
    let both = PieceInput { left: true, right: true, soft_drop: false, rotate: false };
    piece.update(both, 200, &grid);
    assert_eq!(piece.cell_x, 2);
    assert_eq!(piece.last_direction, 0);
}

#[test]
fn blocked_horizontal_move_stops_but_keeps_das_active() {
    let grid = Grid::new(10, 20);
    // square spans pivot..pivot+1, so x = 8 is flush against the right wall
    let mut piece = piece_with(Shape::get_shape_by_index(1), 7, 10);
    let held_right = PieceInput { left: false, right: true, soft_drop: false, rotate: false };
    piece.update(held_right, 16, &grid);
    assert_eq!(piece.cell_x, 8);
    piece.update(held_right, 133, &grid);
    assert!(piece.das_active);
    piece.update(held_right, 500, &grid);
    assert_eq!(piece.cell_x, 8);
    assert!(piece.das_active);
}

#[test]
fn gravity_crosses_one_cell_per_interval_and_stops_at_floor() {
    let grid = Grid::new(10, 20);
    // velocity 1 cell per second: one step per 1000 ms
    let mut piece = piece_with(Shape::get_shape_by_index(1), 4, 10);
    piece.update(idle_input(), 999, &grid);
    assert_eq!(piece.cell_y, 10);
    piece.update(idle_input(), 1, &grid);
    assert_eq!(piece.cell_y, 11);
    // the square spans rows pivot..pivot+1: from row 11 the floor (row 23)
    // is 11 steps away for the lower cell
    for _ in 0..11 {
        piece.update(idle_input(), 1000, &grid);
    }
    assert_eq!(piece.cell_y, 22);
    assert!(!piece.stopped);
    piece.update(idle_input(), 1000, &grid);
    assert!(piece.stopped);
    assert_eq!(piece.cell_y, 22);
}

#[test]
fn soft_drop_multiplies_fall_speed() {
    let grid = Grid::new(10, 20);
    let mut piece = piece_with(Shape::get_shape_by_index(1), 4, 0);
    let soft = PieceInput { left: false, right: false, soft_drop: true, rotate: false };
    // velocity 1 with the ×5 soft drop: one cell per 200 ms
    piece.update(soft, 200, &grid);
    assert_eq!(piece.cell_y, 1);
    piece.update(soft, 400, &grid);
    assert_eq!(piece.cell_y, 3);
}

#[test]
fn successful_rotation_is_reported() {
    let grid = Grid::new(10, 20);
    let mut piece = piece_with(Shape::get_shape_by_index(0), 4, 10);
    let rotate = PieceInput { left: false, right: false, soft_drop: false, rotate: true };
    let rotated = piece.update(rotate, 16, &grid);
    assert!(rotated);
    let rotated_again = piece.update(idle_input(), 16, &grid);
    assert!(!rotated_again);
}

#[test]
fn occupied_cells_are_pivot_plus_offsets() {
    let piece = piece_with(Shape::get_shape_by_index(2), 4, 6);
    // tee: (-1,0), (0,0), (1,0), (0,1)
    assert_eq!(piece.get_occupied_cells(), vec![(3, 6), (4, 6), (5, 6), (4, 7)]);
    let colored = piece.get_occupied_cells_with_color();
    assert_eq!(colored, vec![
        (3, 6, COLOR_WHITE),
        (4, 6, COLOR_WHITE),
        (5, 6, COLOR_WHITE),
        (4, 7, COLOR_WHITE),
    ]);
}

#[test]
fn random_spawn_draws_a_gameplay_shape_with_its_color() {
    for _ in 0..40 {
        let piece = TetrisShapeNode::new(2, 5, 0, 10, 24);
        assert!(!piece.stopped);
        assert_eq!(piece.get_occupied_cells().len(), 4);
        let expected_color = match piece.shape_name.name() {
            ShapeName::Straight => COLOR_CYAN,
            ShapeName::Square => COLOR_YELLOW,
            ShapeName::Tee => COLOR_MAGENTA,
            ShapeName::Ell => COLOR_ORANGE,
            ShapeName::Slew => COLOR_SOFTWARE_GREEN,
            _ => panic!("spawned a display shape"),
        };
        assert_eq!(piece.color, expected_color);
    }
}

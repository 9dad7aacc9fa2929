use retris::colors::COLOR_CYAN;
use retris::grid::{Grid, SPAWN_ROWS};

fn fill_row(grid: &mut Grid, row: i32) {
    let mut cells = Vec::new();
    for col in 0..10 {
        cells.push((col, row, COLOR_CYAN));
    }
    grid.mark_cells_occupied(&cells);
}

#[test]
fn occupancy_marked_cells_stay_occupied() {
    let mut grid = Grid::new(10, 20);
    grid.mark_cells_occupied(&[(3, 7, COLOR_CYAN), (0, 23, COLOR_CYAN)]);
    assert!(grid.is_cell_occupied(3, 7));
    assert!(grid.is_cell_occupied(0, 23));
    // still occupied after further marks elsewhere
    grid.mark_cells_occupied(&[(4, 7, COLOR_CYAN)]);
    assert!(grid.is_cell_occupied(3, 7));
    assert!(!grid.is_cell_occupied(5, 7));
}

#[test]
fn out_of_bounds_counts_as_occupied_and_marks_there_are_dropped() {
    let mut grid = Grid::new(10, 20);
    assert!(grid.is_cell_occupied(-1, 0));
    assert!(grid.is_cell_occupied(10, 0));
    assert!(grid.is_cell_occupied(0, -1));
    assert!(grid.is_cell_occupied(0, 24));
    grid.mark_cells_occupied(&[(-1, 5, COLOR_CYAN), (10, 5, COLOR_CYAN), (5, 24, COLOR_CYAN)]);
    assert_eq!(grid.occupied_cell_list(), vec![]);
}

#[test]
fn grid_dimensions_include_spawn_rows() {
    let grid = Grid::new(10, 20);
    assert_eq!(grid.width_cells(), 10);
    assert_eq!(grid.visible_height_cells(), 20);
    assert_eq!(grid.height_cells(), 20 + SPAWN_ROWS);
}

#[test]
fn single_line_clear_shifts_rows_above() {
    let mut grid = Grid::new(10, 20);
    fill_row(&mut grid, 23);
    grid.mark_cells_occupied(&[(3, 20, COLOR_CYAN), (7, 22, COLOR_CYAN)]);
    let cleared = grid.clear_completed_lines();
    assert_eq!(cleared, 1);
    // the full row is gone; cells above moved one row down, colors kept
    assert!(!grid.is_cell_occupied(3, 20));
    assert!(grid.is_cell_occupied(3, 21));
    assert!(grid.is_cell_occupied(7, 23));
    assert_eq!(grid.occupied_cell_list(), vec![(3, 21, COLOR_CYAN), (7, 23, COLOR_CYAN)]);
}

#[test]
fn tetris_clear_returns_four_and_keeps_order() {
    let mut grid = Grid::new(10, 20);
    fill_row(&mut grid, 20);
    fill_row(&mut grid, 21);
    fill_row(&mut grid, 22);
    fill_row(&mut grid, 23);
    grid.mark_cells_occupied(&[(0, 10, COLOR_CYAN), (5, 12, COLOR_CYAN)]);
    let cleared = grid.clear_completed_lines();
    assert_eq!(cleared, 4);
    // the survivors moved down four rows, in their original order
    assert_eq!(grid.occupied_cell_list(), vec![(0, 14, COLOR_CYAN), (5, 16, COLOR_CYAN)]);
}

#[test]
fn separated_full_rows_both_clear() {
    let mut grid = Grid::new(10, 20);
    fill_row(&mut grid, 20);
    fill_row(&mut grid, 23);
    grid.mark_cells_occupied(&[(4, 21, COLOR_CYAN)]);
    let cleared = grid.clear_completed_lines();
    assert_eq!(cleared, 2);
    // the cell drops past the lower cleared row only: one step for each
    // full row that stood below it
    assert_eq!(grid.occupied_cell_list(), vec![(4, 22, COLOR_CYAN)]);
}

#[test]
fn incomplete_row_does_not_clear() {
    let mut grid = Grid::new(10, 20);
    let mut cells = Vec::new();
    for col in 0..9 {
        cells.push((col, 23, COLOR_CYAN));
    }
    grid.mark_cells_occupied(&cells);
    assert_eq!(grid.clear_completed_lines(), 0);
    assert_eq!(grid.occupied_cell_list().len(), 9);
}

#[test]
fn spawn_buffer_cell_always_allows_moving_down() {
    let mut grid = Grid::new(10, 20);
    // row 0 is fully occupied, directly below a cell still above the grid
    fill_row(&mut grid, 0);
    assert!(grid.can_move_down(&[(3, -1)]));
    assert!(grid.can_move_down(&[(3, -1), (4, -1)]));
    // without a spawn-buffer cell, an occupied row below blocks the move
    fill_row(&mut grid, 1);
    assert!(!grid.can_move_down(&[(3, 0)]));
}

#[test]
fn can_move_down_blocked_by_floor_and_cells() {
    let mut grid = Grid::new(10, 20);
    assert!(!grid.can_move_down(&[(0, 23)]));
    assert!(grid.can_move_down(&[(0, 22)]));
    grid.mark_cells_occupied(&[(0, 23, COLOR_CYAN)]);
    assert!(!grid.can_move_down(&[(0, 22)]));
    assert!(grid.can_move_down(&[(1, 22)]));
}

#[test]
fn cascade_animation_snapshots_and_offsets() {
    let mut grid = Grid::new(10, 20);
    grid.mark_cells_occupied(&[(2, 23, COLOR_CYAN), (7, 23, COLOR_CYAN)]);
    assert!(!grid.cascading());
    grid.start_cascade_animation();
    assert!(grid.cascading());
    // the authoritative map is empty from this instant
    assert_eq!(grid.occupied_cell_list(), vec![]);
    {
        let cells = grid.cascading_cell_list();
        assert_eq!(cells.len(), 2);
        assert_eq!(cells[0].col, 2);
        assert_eq!(cells[0].row, 23);
        assert_eq!(cells[0].color, COLOR_CYAN);
        assert_eq!(cells[0].offset_permille, 0);
        // column 2 falls at 1000 - 150×2 per-mille of the base speed
        assert_eq!(cells[0].velocity_permille, 700);
        // far columns lag so much they go negative
        assert_eq!(cells[1].velocity_permille, -50);
    }
    grid.update_cascade_animation(500);
    {
        let cells = grid.cascading_cell_list();
        assert_eq!(cells[0].offset_permille, 350);
        assert_eq!(cells[1].offset_permille, -25);
    }
    grid.clear_cascade_animation();
    assert!(!grid.cascading());
    assert_eq!(grid.cascading_cell_list().len(), 0);
}

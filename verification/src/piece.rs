//! The active falling piece: pivot position, rotated geometry, wall kicks,
//! and the discrete movement timing (gravity and horizontal auto-repeat).
//!
//! All timing is integer milliseconds; all geometry is integer cells.

use vstd::prelude::*;
use crate::grid::{Grid, MAX_GRID_CELLS};
use crate::shape::{
    Shape, ShapeDimension, ShapeName, dim_bounded, initial_dims, lemma_rotation_round_trip,
    rotated_cw, rotates, shape_color, spec_is_gameplay,
};

verus! {

/// Milliseconds a held direction waits before auto-repeat begins.
pub const DAS_DELAY_MS: u32 = 133;

/// Milliseconds between auto-repeated horizontal moves once the delay has
/// elapsed: an auto-repeat rate of 20 cells per second.
pub const ARR_INTERVAL_MS: u32 = 50;

/// Factor applied to the fall speed while soft drop is held.
pub const SOFT_DROP_FACTOR: u16 = 5;

/// Largest accepted fall velocity, in cells per second, so that even the
/// soft-dropped fall interval lasts at least a millisecond.
pub const MAX_VELOCITY: u16 = 200;

/// Largest accepted frame delta, in milliseconds.
pub const MAX_FRAME_MS: u32 = 10000;

/// How far outside the playfield a piece's pivot can stray.
pub const PIVOT_MARGIN: i32 = 32;

/// The cells a shape's blocks land on when its pivot stands at `(x, y)`.
pub open spec fn cells_of(dims: Seq<ShapeDimension>, x: i32, y: i32) -> Seq<(i32, i32)> {
    dims.map_values(|d: ShapeDimension| (((x + d.x) as i32), ((y + d.y) as i32)))
}

/// The collision query: a placement is legal when every cell lies in a
/// column of the playfield and above its floor, and every cell at a
/// non-negative row is unoccupied.  Cells still in the spawn buffer
/// (negative rows) never block a placement by themselves.
pub open spec fn placement_ok(grid: Grid, cells: Seq<(i32, i32)>) -> bool {
    forall|i: int|
        0 <= i < cells.len() ==> {
            let c = #[trigger] cells[i];
            &&& 0 <= c.0 < grid.spec_width()
            &&& c.1 < grid.spec_height()
            &&& (c.1 >= 0 ==> !grid.spec_has_cell(c.0 as int, c.1 as int))
        }
}

/// The falling piece: its geometry, pivot, color, and movement timing.
pub struct TetrisShapeNode {
    /// Fall speed in cells per second.
    pub velocity: u16,
    /// Pivot column.
    pub cell_x: i32,
    /// Pivot row.
    pub cell_y: i32,
    /// Set when the piece can no longer move down; the game then locks it.
    pub stopped: bool,
    /// The piece's shape and current orientation.
    pub shape_name: Shape,
    /// Color tag of the piece's cells.
    pub color: u32,
    /// Width of the playfield the piece falls in.
    pub grid_width_cells: usize,
    /// Total height of the playfield the piece falls in.
    pub grid_height_cells: usize,
    /// Accumulator for downward movement, in milliseconds.
    pub fall_timer: u32,
    /// Accumulator for auto-repeated horizontal movement, in milliseconds.
    pub horizontal_move_timer: u32,
    /// Accumulator for the delayed-auto-shift delay, in milliseconds.
    pub das_timer: u32,
    /// True once the delay has elapsed and auto-repeat is running.
    pub das_active: bool,
    /// The held horizontal direction of the previous frame: -1, 0 or 1.
    pub last_direction: i32,
}

impl TetrisShapeNode {
    /// Shape invariant: geometry well-formed, the pivot near the playfield,
    /// speeds and timers within their working ranges.
    pub open spec fn wf(&self) -> bool {
        &&& self.shape_name.wf()
        &&& 1 <= self.velocity <= MAX_VELOCITY
        &&& self.grid_width_cells <= MAX_GRID_CELLS
        &&& self.grid_height_cells <= MAX_GRID_CELLS
        &&& -PIVOT_MARGIN <= self.cell_x <= self.grid_width_cells + PIVOT_MARGIN
        &&& -PIVOT_MARGIN <= self.cell_y <= self.grid_height_cells + PIVOT_MARGIN
        &&& self.last_direction == -1 || self.last_direction == 0 || self.last_direction == 1
        &&& self.fall_timer <= 1000
        &&& self.horizontal_move_timer <= ARR_INTERVAL_MS
        &&& self.das_timer <= DAS_DELAY_MS + MAX_FRAME_MS
        &&& (!self.das_active ==> self.das_timer < DAS_DELAY_MS)
    }

    /// True when the piece's stored playfield dimensions are the grid's.
    pub open spec fn matches_grid(&self, grid: Grid) -> bool {
        &&& self.grid_width_cells == grid.spec_width()
        &&& self.grid_height_cells == grid.spec_height()
    }

    /// The cells the piece's blocks land on with the pivot at `(x, y)`.
    pub open spec fn spec_cells_at(&self, x: i32, y: i32) -> Seq<(i32, i32)> {
        cells_of(self.shape_name.dims(), x, y)
    }

    /// The cells the piece occupies now.
    pub open spec fn spec_cells(&self) -> Seq<(i32, i32)> {
        self.spec_cells_at(self.cell_x, self.cell_y)
    }

    /// Create a new falling piece with a uniformly random gameplay shape,
    /// colored by its shape, at the given pivot.
    pub fn new(
        velocity: u16,
        cell_x: i32,
        cell_y: i32,
        grid_width_cells: usize,
        grid_height_cells: usize,
    ) -> (piece: TetrisShapeNode)
        requires
            1 <= velocity <= MAX_VELOCITY,
            grid_width_cells <= MAX_GRID_CELLS,
            grid_height_cells <= MAX_GRID_CELLS,
            -PIVOT_MARGIN <= cell_x <= grid_width_cells + PIVOT_MARGIN,
            -PIVOT_MARGIN <= cell_y <= grid_height_cells + PIVOT_MARGIN,
        ensures
            piece.wf(),
            piece.velocity == velocity,
            piece.cell_x == cell_x,
            piece.cell_y == cell_y,
            piece.grid_width_cells == grid_width_cells,
            piece.grid_height_cells == grid_height_cells,
            !piece.stopped,
            spec_is_gameplay(piece.shape_name.spec_name()),
            piece.shape_name.dims() == initial_dims(piece.shape_name.spec_name()),
            piece.color == shape_color(piece.shape_name.spec_name()),
            piece.fall_timer == 0,
            piece.horizontal_move_timer == 0,
            piece.das_timer == 0,
            !piece.das_active,
            piece.last_direction == 0,
    {
        let shape_index = random_shape_index();
        let random_shape = Shape::get_shape_by_index(shape_index);
        let color = shape_color_of(random_shape.name());
        TetrisShapeNode::new_with_shape_and_color(
            velocity,
            cell_x,
            cell_y,
            grid_width_cells,
            grid_height_cells,
            random_shape,
            color,
        )
    }

    /// Create a falling piece with a specific shape and color, as the title
    /// screen does for its floating display pieces.
    pub fn new_with_shape_and_color(
        velocity: u16,
        cell_x: i32,
        cell_y: i32,
        grid_width_cells: usize,
        grid_height_cells: usize,
        shape_name: Shape,
        color: u32,
    ) -> (piece: TetrisShapeNode)
        requires
            1 <= velocity <= MAX_VELOCITY,
            grid_width_cells <= MAX_GRID_CELLS,
            grid_height_cells <= MAX_GRID_CELLS,
            -PIVOT_MARGIN <= cell_x <= grid_width_cells + PIVOT_MARGIN,
            -PIVOT_MARGIN <= cell_y <= grid_height_cells + PIVOT_MARGIN,
            shape_name.wf(),
        ensures
            piece.wf(),
            piece.velocity == velocity,
            piece.cell_x == cell_x,
            piece.cell_y == cell_y,
            piece.grid_width_cells == grid_width_cells,
            piece.grid_height_cells == grid_height_cells,
            !piece.stopped,
            piece.shape_name == shape_name,
            piece.color == color,
            piece.fall_timer == 0,
            piece.horizontal_move_timer == 0,
            piece.das_timer == 0,
            !piece.das_active,
            piece.last_direction == 0,
    {
        TetrisShapeNode {
            velocity,
            cell_x,
            cell_y,
            stopped: false,
            shape_name,
            color,
            grid_width_cells,
            grid_height_cells,
            fall_timer: 0,
            horizontal_move_timer: 0,
            das_timer: 0,
            das_active: false,
            last_direction: 0,
        }
    }

    /// The cells the piece's blocks would land on with the pivot at
    /// `(cell_x, cell_y)`, for testing rotations and kicks.
    fn get_occupied_cells_at_position(&self, cell_x: i32, cell_y: i32) -> (cells: Vec<(i32, i32)>)
        requires
            self.shape_name.wf(),
            -2000000 <= cell_x <= 2000000,
            -2000000 <= cell_y <= 2000000,
        ensures
            cells@ == self.spec_cells_at(cell_x, cell_y),
    {
        let dimensions = self.shape_name.get_dimensions();
        let mut cells: Vec<(i32, i32)> = Vec::new();
        let n = dimensions.len();
        let mut i: usize = 0;
        while i < n
            invariant
                self.shape_name.wf(),
                -2000000 <= cell_x <= 2000000,
                -2000000 <= cell_y <= 2000000,
                n == dimensions@.len(),
                dimensions@ == self.shape_name.dims(),
                i <= n,
                cells@ == self.spec_cells_at(cell_x, cell_y).subrange(0, i as int),
            decreases n - i,
        {
            let d = dimensions[i];
            cells.push((cell_x + d.x, cell_y + d.y));
            proof {
                assert(cells@ =~= self.spec_cells_at(cell_x, cell_y).subrange(0, i as int + 1));
            }
            i = i + 1;
        }
        proof {
            assert(cells@ =~= self.spec_cells_at(cell_x, cell_y));
        }
        cells
    }

    /// All cells the piece occupies, in grid coordinates.
    pub fn get_occupied_cells(&self) -> (cells: Vec<(i32, i32)>)
        requires
            self.shape_name.wf(),
            -1000000 <= self.cell_x <= 1000000,
            -1000000 <= self.cell_y <= 1000000,
        ensures
            cells@ == self.spec_cells(),
    {
        self.get_occupied_cells_at_position(self.cell_x, self.cell_y)
    }

    /// All cells the piece occupies, each with the piece's color.
    pub fn get_occupied_cells_with_color(&self) -> (cells: Vec<(i32, i32, u32)>)
        requires
            self.shape_name.wf(),
            -1000000 <= self.cell_x <= 1000000,
            -1000000 <= self.cell_y <= 1000000,
        ensures
            cells@ == self.spec_cells().map_values(|c: (i32, i32)| (c.0, c.1, self.color)),
    {
        let plain = self.get_occupied_cells();
        let mut cells: Vec<(i32, i32, u32)> = Vec::new();
        let n = plain.len();
        let mut i: usize = 0;
        while i < n
            invariant
                n == plain@.len(),
                plain@ == self.spec_cells(),
                i <= n,
                cells@ == self.spec_cells().map_values(
                    |c: (i32, i32)| (c.0, c.1, self.color),
                ).subrange(0, i as int),
            decreases n - i,
        {
            let (x, y) = plain[i];
            cells.push((x, y, self.color));
            proof {
                assert(cells@ =~= self.spec_cells().map_values(
                    |c: (i32, i32)| (c.0, c.1, self.color),
                ).subrange(0, i as int + 1));
            }
            i = i + 1;
        }
        proof {
            assert(cells@ =~= self.spec_cells().map_values(
                |c: (i32, i32)| (c.0, c.1, self.color),
            ));
        }
        cells
    }

    /// Whether the piece, with its pivot at `(test_cell_x, test_cell_y)`,
    /// stands on a legal placement of the grid.
    fn is_position_valid(&self, test_cell_x: i32, test_cell_y: i32, grid: &Grid) -> (r: bool)
        requires
            self.shape_name.wf(),
            self.matches_grid(*grid),
            grid.wf(),
            -2000000 <= test_cell_x <= 2000000,
            -2000000 <= test_cell_y <= 2000000,
        ensures
            r == placement_ok(*grid, self.spec_cells_at(test_cell_x, test_cell_y)),
    {
        let cells = self.get_occupied_cells_at_position(test_cell_x, test_cell_y);
        let n = cells.len();
        let mut i: usize = 0;
        while i < n
            invariant
                grid.wf(),
                self.matches_grid(*grid),
                n == cells@.len(),
                cells@ == self.spec_cells_at(test_cell_x, test_cell_y),
                i <= n,
                forall|j: int|
                    0 <= j < i ==> {
                        let c = #[trigger] cells@[j];
                        &&& 0 <= c.0 < grid.spec_width()
                        &&& c.1 < grid.spec_height()
                        &&& (c.1 >= 0 ==> !grid.spec_has_cell(c.0 as int, c.1 as int))
                    },
            decreases n - i,
        {
            let (cell_x, cell_y) = cells[i];
            if cell_x < 0 || cell_x >= self.grid_width_cells as i32 {
                return false;
            }
            if cell_y >= self.grid_height_cells as i32 {
                return false;
            }
            if cell_y >= 0 && grid.is_cell_occupied(cell_x, cell_y) {
                return false;
            }
            i = i + 1;
        }
        true
    }
}

/// The pivot offset the wall-kick protocol accepts for a rotation: the
/// first of `0, -1, +1, -2, +2` at which the rotated geometry stands on a
/// legal placement, or nothing when none does.
pub open spec fn first_kick(grid: Grid, dims: Seq<ShapeDimension>, x: i32, y: i32) -> Option<
    i32,
> {
    if placement_ok(grid, cells_of(dims, x, y)) {
        Some(0i32)
    } else if placement_ok(grid, cells_of(dims, ((x - 1) as i32), y)) {
        Some(-1i32)
    } else if placement_ok(grid, cells_of(dims, ((x + 1) as i32), y)) {
        Some(1i32)
    } else if placement_ok(grid, cells_of(dims, ((x - 2) as i32), y)) {
        Some(-2i32)
    } else if placement_ok(grid, cells_of(dims, ((x + 2) as i32), y)) {
        Some(2i32)
    } else {
        None
    }
}

/// A shape with at least one block whose placement is legal has its pivot
/// in or just beside the playfield.
proof fn lemma_pivot_in_range(grid: Grid, dims: Seq<ShapeDimension>, x: i32, y: i32)
    requires
        dims.len() >= 1,
        forall|i: int| 0 <= i < dims.len() ==> dim_bounded(#[trigger] dims[i]),
        placement_ok(grid, cells_of(dims, x, y)),
        -1000000 <= x <= 1000000,
    ensures
        -PIVOT_MARGIN <= x <= grid.spec_width() + PIVOT_MARGIN,
{
    let c = cells_of(dims, x, y)[0];
    assert(c.0 == ((x + dims[0].x) as i32));
    assert(0 <= c.0 < grid.spec_width());
}

/// The piece's geometry after a clockwise turn: display pieces and the
/// square are unchanged, every other gameplay piece turns.
pub open spec fn rotated_dims(s: Shape) -> Seq<ShapeDimension> {
    if rotates(s.spec_name()) {
        s.dims().map_values(|d: ShapeDimension| rotated_cw(d))
    } else {
        s.dims()
    }
}

impl TetrisShapeNode {
    /// LAW — wall-kick order: rotate the shape clockwise, trying the pivot
    /// offsets `0, -1, +1, -2, +2` in that order and accepting the first
    /// that stands on a legal placement; when none does, geometry and pivot
    /// are left exactly as they were and the call reports failure.  No
    /// offset ever changes the row.
    pub fn rotate_clockwise_with_wall_kick(&mut self, grid: &Grid) -> (rotated: bool)
        requires
            old(self).wf(),
            old(self).matches_grid(*grid),
            grid.wf(),
        ensures
            final(self).wf(),
            final(self).matches_grid(*grid),
            rotated == (first_kick(
                *grid,
                rotated_dims(old(self).shape_name),
                old(self).cell_x,
                old(self).cell_y,
            ) is Some),
            rotated ==> {
                &&& final(self).shape_name.dims() == rotated_dims(old(self).shape_name)
                &&& final(self).cell_x == old(self).cell_x + first_kick(
                    *grid,
                    rotated_dims(old(self).shape_name),
                    old(self).cell_x,
                    old(self).cell_y,
                ).unwrap()
            },
            !rotated ==> final(self).shape_name.dims() == old(self).shape_name.dims()
                && final(self).cell_x == old(self).cell_x,
            final(self).shape_name.spec_name() == old(self).shape_name.spec_name(),
            final(self).cell_y == old(self).cell_y,
            final(self).velocity == old(self).velocity,
            final(self).stopped == old(self).stopped,
            final(self).color == old(self).color,
            final(self).fall_timer == old(self).fall_timer,
            final(self).horizontal_move_timer == old(self).horizontal_move_timer,
            final(self).das_timer == old(self).das_timer,
            final(self).das_active == old(self).das_active,
            final(self).last_direction == old(self).last_direction,
    {
        self.shape_name.rotate_clockwise();
        let ghost rot = rotated_dims(old(self).shape_name);
        proof {
            assert(self.shape_name.dims() == rot);
        }
        if self.is_position_valid(self.cell_x, self.cell_y, grid) {
            return true;
        }
        if self.is_position_valid(self.cell_x - 1, self.cell_y, grid) {
            self.cell_x = self.cell_x - 1;
            proof {
                lemma_pivot_in_range(*grid, rot, self.cell_x, self.cell_y);
            }
            return true;
        }
        if self.is_position_valid(self.cell_x + 1, self.cell_y, grid) {
            self.cell_x = self.cell_x + 1;
            proof {
                lemma_pivot_in_range(*grid, rot, self.cell_x, self.cell_y);
            }
            return true;
        }
        if self.is_position_valid(self.cell_x - 2, self.cell_y, grid) {
            self.cell_x = self.cell_x - 2;
            proof {
                lemma_pivot_in_range(*grid, rot, self.cell_x, self.cell_y);
            }
            return true;
        }
        if self.is_position_valid(self.cell_x + 2, self.cell_y, grid) {
            self.cell_x = self.cell_x + 2;
            proof {
                lemma_pivot_in_range(*grid, rot, self.cell_x, self.cell_y);
            }
            return true;
        }
        // no offset validates: undo the rotation
        self.shape_name.rotate_counter_clockwise();
        proof {
            lemma_rotation_round_trip(old(self).shape_name.dims());
            assert(self.shape_name.dims() == old(self).shape_name.dims());
        }
        false
    }

    /// Whether the piece may move one cell in `direction` (-1 left, +1
    /// right): the shifted placement must be legal.
    fn can_move_horizontal(&self, direction: i32, grid: &Grid) -> (r: bool)
        requires
            self.shape_name.wf(),
            self.matches_grid(*grid),
            grid.wf(),
            direction == -1 || direction == 1,
            -1000000 <= self.cell_x <= 1000000,
            -1000000 <= self.cell_y <= 1000000,
        ensures
            r == placement_ok(
                *grid,
                self.spec_cells_at(((self.cell_x + direction) as i32), self.cell_y),
            ),
    {
        self.is_position_valid(self.cell_x + direction, self.cell_y, grid)
    }
}

/// The inputs a frame hands to the piece: whether each control is active
/// this frame.
#[derive(Clone, Copy, PartialEq, Eq, Structural, Debug)]
pub struct PieceInput {
    /// Move-left is pressed or held.
    pub left: bool,
    /// Move-right is pressed or held.
    pub right: bool,
    /// Soft drop is held.
    pub soft_drop: bool,
    /// Rotate was pressed this frame.
    pub rotate: bool,
}

/// The piece state the frame update acts on, as plain mathematical values.
#[verifier::ext_equal]
pub ghost struct PieceState {
    /// Which piece it is.
    pub name: ShapeName,
    /// Its blocks, as offsets from the pivot.
    pub dims: Seq<ShapeDimension>,
    /// Pivot column.
    pub cell_x: i32,
    /// Pivot row.
    pub cell_y: i32,
    /// Whether the piece has come to rest.
    pub stopped: bool,
    /// Fall speed in cells per second.
    pub velocity: u16,
    /// Gravity accumulator, in milliseconds.
    pub fall_timer: int,
    /// Auto-repeat accumulator, in milliseconds.
    pub horizontal_move_timer: int,
    /// Delayed-auto-shift accumulator, in milliseconds.
    pub das_timer: int,
    /// Whether auto-repeat is running.
    pub das_active: bool,
    /// The held direction of the previous frame.
    pub last_direction: i32,
}

impl TetrisShapeNode {
    /// The piece's state as plain values.
    pub open spec fn state(&self) -> PieceState {
        PieceState {
            name: self.shape_name.spec_name(),
            dims: self.shape_name.dims(),
            cell_x: self.cell_x,
            cell_y: self.cell_y,
            stopped: self.stopped,
            velocity: self.velocity,
            fall_timer: self.fall_timer as int,
            horizontal_move_timer: self.horizontal_move_timer as int,
            das_timer: self.das_timer as int,
            das_active: self.das_active,
            last_direction: self.last_direction,
        }
    }
}

/// A shape's geometry after a clockwise turn: display pieces and the
/// square are unchanged, every other gameplay piece turns.
pub open spec fn rotated_dims_of(name: ShapeName, dims: Seq<ShapeDimension>) -> Seq<
    ShapeDimension,
> {
    if rotates(name) {
        dims.map_values(|d: ShapeDimension| rotated_cw(d))
    } else {
        dims
    }
}

/// What a rotation press does to the piece: the wall-kick protocol accepts
/// the first fitting pivot offset, or leaves the piece exactly as it was.
pub open spec fn spec_rotate_step(st: PieceState, grid: Grid, rotate_pressed: bool) -> PieceState {
    if !rotate_pressed {
        st
    } else {
        let rd = rotated_dims_of(st.name, st.dims);
        match first_kick(grid, rd, st.cell_x, st.cell_y) {
            Some(off) => PieceState { dims: rd, cell_x: ((st.cell_x + off) as i32), ..st },
            None => st,
        }
    }
}

/// The held horizontal direction a frame resolves to: left, right, or none
/// when neither or both are held.
pub open spec fn spec_direction(moving_left: bool, moving_right: bool) -> Option<i32> {
    if moving_left && !moving_right {
        Some(-1i32)
    } else if moving_right && !moving_left {
        Some(1i32)
    } else {
        None
    }
}

/// The auto-repeat catch-up: while the accumulator holds a full interval,
/// one cell is moved per interval; a blocked move stops the run and zeroes
/// the accumulator.  Yields the final pivot column and accumulator.
pub open spec fn arr_run(
    grid: Grid,
    dims: Seq<ShapeDimension>,
    x: i32,
    y: i32,
    dir: i32,
    timer: int,
) -> (i32, int)
    decreases timer,
        when timer >= 0
{
    if timer < ARR_INTERVAL_MS {
        (x, timer)
    } else if placement_ok(grid, cells_of(dims, ((x + dir) as i32), y)) {
        arr_run(grid, dims, ((x + dir) as i32), y, dir, timer - ARR_INTERVAL_MS)
    } else {
        (x, 0)
    }
}

/// What a frame does to the horizontal state: a fresh direction moves once
/// at once and restarts the delay; a held direction first accumulates the
/// delay, then auto-repeats; no direction (or both) resets everything.
pub open spec fn spec_horizontal_step(
    st: PieceState,
    grid: Grid,
    moving_left: bool,
    moving_right: bool,
    delta: int,
) -> PieceState {
    if st.stopped {
        st
    } else {
        match spec_direction(moving_left, moving_right) {
            Some(dir) => {
                if dir != st.last_direction {
                    let moved = placement_ok(
                        grid,
                        cells_of(st.dims, ((st.cell_x + dir) as i32), st.cell_y),
                    );
                    PieceState {
                        last_direction: dir,
                        das_timer: 0,
                        das_active: false,
                        horizontal_move_timer: 0,
                        cell_x: if moved {
                            ((st.cell_x + dir) as i32)
                        } else {
                            st.cell_x
                        },
                        ..st
                    }
                } else if !st.das_active {
                    let t = st.das_timer + delta;
                    if t >= DAS_DELAY_MS {
                        PieceState { das_timer: t, das_active: true, horizontal_move_timer: 0, ..st }
                    } else {
                        PieceState { das_timer: t, ..st }
                    }
                } else {
                    let run = arr_run(
                        grid,
                        st.dims,
                        st.cell_x,
                        st.cell_y,
                        dir,
                        st.horizontal_move_timer + delta,
                    );
                    PieceState { cell_x: run.0, horizontal_move_timer: run.1, ..st }
                }
            },
            None => PieceState {
                last_direction: 0,
                das_timer: 0,
                das_active: false,
                horizontal_move_timer: 0,
                ..st
            },
        }
    }
}

/// The gravity catch-up: while the accumulator holds a full fall interval,
/// the piece either moves one row down or, when it cannot, comes to rest
/// where it stands with the accumulator zeroed.  Yields the final pivot
/// row, accumulator, and whether the piece stopped.
pub open spec fn gravity_run(
    grid: Grid,
    dims: Seq<ShapeDimension>,
    x: i32,
    y: i32,
    timer: int,
    period: int,
) -> (i32, int, bool)
    decreases timer,
        when timer >= 0 && period >= 1
{
    if timer < period {
        (y, timer, false)
    } else if !grid.spec_can_move_down(cells_of(dims, x, y)) {
        (y, 0, true)
    } else {
        gravity_run(grid, dims, x, ((y + 1) as i32), timer - period, period)
    }
}

/// The fall speed a frame uses: soft drop multiplies the piece's own speed.
pub open spec fn spec_effective_velocity(velocity: u16, soft_drop: bool) -> int {
    if soft_drop {
        velocity * SOFT_DROP_FACTOR
    } else {
        velocity as int
    }
}

/// What a frame does to the vertical state: nothing once stopped; else the
/// gravity catch-up at one cell per fall interval.
pub open spec fn spec_gravity_step(
    st: PieceState,
    grid: Grid,
    soft_drop: bool,
    delta: int,
) -> PieceState {
    if st.stopped || st.velocity == 0 {
        st
    } else {
        let period = 1000int / spec_effective_velocity(st.velocity, soft_drop);
        let run = gravity_run(grid, st.dims, st.cell_x, st.cell_y, st.fall_timer + delta, period);
        PieceState { cell_y: run.0, fall_timer: run.1, stopped: run.2, ..st }
    }
}

impl TetrisShapeNode {
    /// Advance the piece by one frame: attempt a rotation if one was
    /// pressed, then run the horizontal delayed-auto-shift state machine,
    /// then gravity.  Returns whether a rotation succeeded, so the caller
    /// can play its sound.
    pub fn update(&mut self, input: PieceInput, delta_ms: u32, grid: &Grid) -> (rotated: bool)
        requires
            old(self).wf(),
            old(self).matches_grid(*grid),
            grid.wf(),
            delta_ms <= MAX_FRAME_MS,
        ensures
            final(self).wf(),
            final(self).matches_grid(*grid),
            final(self).velocity == old(self).velocity,
            final(self).color == old(self).color,
            final(self).state() == spec_gravity_step(
                spec_horizontal_step(
                    spec_rotate_step(old(self).state(), *grid, input.rotate),
                    *grid,
                    input.left,
                    input.right,
                    delta_ms as int,
                ),
                *grid,
                input.soft_drop,
                delta_ms as int,
            ),
            rotated == (input.rotate && first_kick(
                *grid,
                rotated_dims_of(old(self).shape_name.spec_name(), old(self).shape_name.dims()),
                old(self).cell_x,
                old(self).cell_y,
            ) is Some),
    {
        let ghost st0 = old(self).state();
        // rotation with wall kick; even a resting piece may be turned
        let rotated = if input.rotate {
            self.rotate_clockwise_with_wall_kick(grid)
        } else {
            false
        };
        let ghost st1 = spec_rotate_step(st0, *grid, input.rotate);
        proof {
            assert(self.state() =~= st1);
        }
        // horizontal movement with delayed auto shift
        if !self.stopped {
            let moving_left = input.left;
            let moving_right = input.right;
            let direction: Option<i32> = if moving_left && !moving_right {
                Some(-1)
            } else if moving_right && !moving_left {
                Some(1)
            } else {
                None
            };
            if let Some(dir) = direction {
                if dir != self.last_direction {
                    // fresh direction: reset the delay and move at once
                    self.last_direction = dir;
                    self.das_timer = 0;
                    self.das_active = false;
                    self.horizontal_move_timer = 0;
                    if self.can_move_horizontal(dir, grid) {
                        self.cell_x = self.cell_x + dir;
                        proof {
                            lemma_pivot_in_range(
                                *grid,
                                self.shape_name.dims(),
                                self.cell_x,
                                self.cell_y,
                            );
                        }
                    }
                } else if !self.das_active {
                    // same direction, still inside the delay
                    self.das_timer = self.das_timer + delta_ms;
                    if self.das_timer >= DAS_DELAY_MS {
                        self.das_active = true;
                        self.horizontal_move_timer = 0;
                    }
                } else {
                    // auto-repeat: one cell per elapsed interval
                    self.horizontal_move_timer = self.horizontal_move_timer + delta_ms;
                    let ghost run = arr_run(
                        *grid,
                        st1.dims,
                        st1.cell_x,
                        st1.cell_y,
                        dir,
                        st1.horizontal_move_timer + delta_ms,
                    );
                    while self.horizontal_move_timer >= ARR_INTERVAL_MS
                        invariant
                            grid.wf(),
                            self.shape_name.wf(),
                            self.matches_grid(*grid),
                            dir == -1 || dir == 1,
                            self.shape_name.dims() == st1.dims,
                            self.shape_name.spec_name() == st1.name,
                            self.cell_y == st1.cell_y,
                            self.stopped == st1.stopped,
                            self.velocity == st1.velocity,
                            self.fall_timer == st1.fall_timer,
                            self.das_timer == st1.das_timer,
                            self.das_active == st1.das_active,
                            self.last_direction == st1.last_direction,
                            self.color == old(self).color,
                            self.grid_width_cells == old(self).grid_width_cells,
                            self.grid_height_cells == old(self).grid_height_cells,
                            1 <= self.velocity <= MAX_VELOCITY,
                            -PIVOT_MARGIN <= self.cell_x <= self.grid_width_cells + PIVOT_MARGIN,
                            -PIVOT_MARGIN <= self.cell_y <= self.grid_height_cells + PIVOT_MARGIN,
                            self.fall_timer <= 1000,
                            self.horizontal_move_timer <= ARR_INTERVAL_MS + MAX_FRAME_MS,
                            self.das_timer <= DAS_DELAY_MS + MAX_FRAME_MS,
                            arr_run(
                                *grid,
                                st1.dims,
                                self.cell_x,
                                self.cell_y,
                                dir,
                                self.horizontal_move_timer as int,
                            ) == run,
                        decreases self.horizontal_move_timer,
                    {
                        if self.can_move_horizontal(dir, grid) {
                            self.cell_x = self.cell_x + dir;
                            self.horizontal_move_timer = self.horizontal_move_timer
                                - ARR_INTERVAL_MS;
                            proof {
                                lemma_pivot_in_range(
                                    *grid,
                                    self.shape_name.dims(),
                                    self.cell_x,
                                    self.cell_y,
                                );
                            }
                        } else {
                            self.horizontal_move_timer = 0;
                        }
                    }
                }
            } else {
                // released, or both directions held: back to idle
                self.last_direction = 0;
                self.das_timer = 0;
                self.das_active = false;
                self.horizontal_move_timer = 0;
            }
        }
        let ghost st2 = spec_horizontal_step(
            st1,
            *grid,
            input.left,
            input.right,
            delta_ms as int,
        );
        proof {
            assert(self.state() =~= st2);
        }
        // gravity: discrete downward movement at the effective fall speed
        if !self.stopped && self.velocity > 0 {
            let effective_velocity: u16 = if input.soft_drop {
                self.velocity * SOFT_DROP_FACTOR
            } else {
                self.velocity
            };
            proof {
                assert(self.velocity == old(self).velocity);
            }
            let time_per_cell: u32 = 1000 / (effective_velocity as u32);
            proof {
                assert(1 <= time_per_cell <= 1000) by (nonlinear_arith)
                    requires
                        time_per_cell == 1000int / (effective_velocity as int),
                        1 <= effective_velocity <= 1000,
                ;
            }
            self.fall_timer = self.fall_timer + delta_ms;
            let ghost period = 1000int / spec_effective_velocity(st2.velocity, input.soft_drop);
            proof {
                assert(time_per_cell == period);
            }
            let ghost grun = gravity_run(
                *grid,
                st2.dims,
                st2.cell_x,
                st2.cell_y,
                st2.fall_timer + delta_ms,
                period,
            );
            while self.fall_timer >= time_per_cell
                invariant
                    grid.wf(),
                    self.shape_name.wf(),
                    self.matches_grid(*grid),
                    1 <= time_per_cell <= 1000,
                    time_per_cell == period,
                    self.shape_name.dims() == st2.dims,
                    self.shape_name.spec_name() == st2.name,
                    self.cell_x == st2.cell_x,
                    self.velocity == st2.velocity,
                    self.horizontal_move_timer == st2.horizontal_move_timer,
                    self.das_timer == st2.das_timer,
                    self.das_active == st2.das_active,
                    self.last_direction == st2.last_direction,
                    self.color == old(self).color,
                    self.grid_width_cells == old(self).grid_width_cells,
                    self.grid_height_cells == old(self).grid_height_cells,
                    1 <= self.velocity <= MAX_VELOCITY,
                    -PIVOT_MARGIN <= self.cell_x <= self.grid_width_cells + PIVOT_MARGIN,
                    -PIVOT_MARGIN <= self.cell_y <= self.grid_height_cells + PIVOT_MARGIN,
                    (if self.stopped {
                        (self.cell_y, self.fall_timer as int, true)
                    } else {
                        gravity_run(
                            *grid,
                            st2.dims,
                            st2.cell_x,
                            self.cell_y,
                            self.fall_timer as int,
                            period,
                        )
                    }) == grun,
                    self.stopped ==> self.fall_timer == 0,
                decreases self.fall_timer,
            {
                let shape_cells = self.get_occupied_cells();
                proof {
                    assert forall|i: int|
                        0 <= i < shape_cells@.len() implies (#[trigger] shape_cells@[i]).1
                        < i32::MAX by {
                        assert(shape_cells@[i].1 == ((self.cell_y + self.shape_name.dims()[i].y)
                            as i32));
                        assert(dim_bounded(self.shape_name.dims()[i]));
                    }
                }
                if !grid.can_move_down(&shape_cells) {
                    self.stopped = true;
                    self.fall_timer = 0;
                } else {
                    proof {
                        let cells = self.spec_cells();
                        if exists|i: int|
                            0 <= i < cells.len() && (#[trigger] cells[i]).1 < 0 {
                            let i = choose|i: int|
                                0 <= i < cells.len() && (#[trigger] cells[i]).1 < 0;
                            assert(cells[i].1 == ((self.cell_y + self.shape_name.dims()[i].y)
                                as i32));
                            assert(dim_bounded(self.shape_name.dims()[i]));
                        } else {
                            assert(cells[0].1 + 1 < self.grid_height_cells);
                            assert(cells[0].1 == ((self.cell_y + self.shape_name.dims()[0].y)
                                as i32));
                            assert(dim_bounded(self.shape_name.dims()[0]));
                        }
                    }
                    self.cell_y = self.cell_y + 1;
                    self.fall_timer = self.fall_timer - time_per_cell;
                }
            }
        }
        let ghost st3 = spec_gravity_step(st2, *grid, input.soft_drop, delta_ms as int);
        proof {
            assert(self.state() =~= st3);
        }
        rotated
    }
}

/// LAW — immediate move on a fresh press: the frame a direction first
/// becomes active (different from the previous frame's), the piece moves
/// one cell at once when the move is legal, and the delay and repeat
/// accumulators restart from zero — no delay precedes the first move.
pub proof fn lemma_das_fresh_press(
    st: PieceState,
    grid: Grid,
    moving_left: bool,
    moving_right: bool,
    delta: int,
)
    requires
        !st.stopped,
        spec_direction(moving_left, moving_right) is Some,
        spec_direction(moving_left, moving_right).unwrap() != st.last_direction,
    ensures
        ({
            let dir = spec_direction(moving_left, moving_right).unwrap();
            let stepped = spec_horizontal_step(st, grid, moving_left, moving_right, delta);
            &&& stepped.last_direction == dir
            &&& stepped.das_timer == 0
            &&& !stepped.das_active
            &&& stepped.horizontal_move_timer == 0
            &&& placement_ok(grid, cells_of(st.dims, ((st.cell_x + dir) as i32), st.cell_y))
                ==> stepped.cell_x == ((st.cell_x + dir) as i32)
            &&& !placement_ok(grid, cells_of(st.dims, ((st.cell_x + dir) as i32), st.cell_y))
                ==> stepped.cell_x == st.cell_x
        }),
{
}

/// LAW — fixed auto-repeat rate: once the delay has elapsed and no wall or
/// occupied cell blocks the way, the auto-repeat emits exactly one move per
/// elapsed interval — the accumulated time divided by the interval — and
/// keeps the remainder in the accumulator.
pub proof fn lemma_arr_fixed_interval(
    grid: Grid,
    dims: Seq<ShapeDimension>,
    x: i32,
    y: i32,
    dir: i32,
    timer: int,
)
    requires
        0 <= timer <= 100000,
        dir == -1 || dir == 1,
        x + timer / (ARR_INTERVAL_MS as int) <= 500000,
        -500000 <= x - timer / (ARR_INTERVAL_MS as int),
        forall|k: int|
            1 <= k <= timer / (ARR_INTERVAL_MS as int) ==> placement_ok(
                grid,
                #[trigger] cells_of(dims, ((x + k * dir) as i32), y),
            ),
    ensures
        arr_run(grid, dims, x, y, dir, timer).0 == x + (timer / (ARR_INTERVAL_MS as int)) * dir,
        arr_run(grid, dims, x, y, dir, timer).1 == timer % (ARR_INTERVAL_MS as int),
    decreases timer,
{
    let a = ARR_INTERVAL_MS as int;
    if timer < a {
        assert(timer / a == 0 && timer % a == timer) by (nonlinear_arith)
            requires
                0 <= timer < a,
                a == 50,
        ;
    } else {
        assert((timer - a) / a == timer / a - 1 && (timer - a) % a == timer % a && timer / a >= 1)
            by (nonlinear_arith)
            requires
                timer >= a,
                a == 50,
        ;
        assert(1 * dir == dir);
        assert(placement_ok(grid, cells_of(dims, ((x + 1 * dir) as i32), y)));
        let x1 = ((x + dir) as i32);
        assert forall|k: int|
            1 <= k <= (timer - a) / a implies placement_ok(
            grid,
            #[trigger] cells_of(dims, ((x1 + k * dir) as i32), y),
        ) by {
            assert(x1 + k * dir == x + (k + 1) * dir) by (nonlinear_arith)
                requires
                    x1 == x + dir,
            ;
            assert(placement_ok(grid, cells_of(dims, ((x + (k + 1) * dir) as i32), y)));
        }
        lemma_arr_fixed_interval(grid, dims, x1, y, dir, timer - a);
        assert(x1 + ((timer - a) / a) * dir == x + (timer / a) * dir) by (nonlinear_arith)
            requires
                x1 == x + dir,
                (timer - a) / a == timer / a - 1,
        ;
    }
}

/// The color of each shape, as executable code.
fn shape_color_of(name: ShapeName) -> (c: u32)
    ensures
        c == shape_color(name),
{
    match name {
        ShapeName::Straight => crate::colors::COLOR_CYAN,
        ShapeName::Square => crate::colors::COLOR_YELLOW,
        ShapeName::Tee => crate::colors::COLOR_MAGENTA,
        ShapeName::Ell => crate::colors::COLOR_ORANGE,
        ShapeName::Slew => crate::colors::COLOR_SOFTWARE_GREEN,
        ShapeName::LetterT | ShapeName::LetterE | ShapeName::LetterR | ShapeName::LetterI
        | ShapeName::LetterS => crate::colors::COLOR_WHITE,
    }
}

/// Relies on `rand::random_range`: a uniform draw from the given range,
/// here the five gameplay shape indices.
#[verifier::external_body]
fn random_shape_index() -> (r: i32)
    ensures
        0 <= r < 5,
{
    rand::random_range(0..5)
}

} // verus!

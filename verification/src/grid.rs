//! The playfield: an occupancy grid with line clearing and the cosmetic
//! cascade animation played during a level transition.
//!
//! The grid is `width × height` cells where `height` counts the hidden spawn
//! rows above the visible playfield.  Row `0` is the top of the spawn area;
//! rows `SPAWN_ROWS..height` are visible.

use vstd::prelude::*;
use crate::table::{
    GameTable, row_full, row_empty, shifted_down, table_triples, lemma_table_triples_bounds,
};

verus! {

/// Number of hidden rows above the visible playfield where pieces spawn.
pub const SPAWN_ROWS: usize = 4;

/// Largest accepted playfield dimension, so that cell coordinates and the
/// cascade arithmetic stay well inside `i32`.
pub const MAX_GRID_CELLS: usize = 10000;

/// Cascade fall factor of column 0, in per-mille of the base fall speed.
pub const CASCADE_BASE_PERMILLE: i32 = 1000;

/// How much slower each further column falls, in per-mille of the base fall
/// speed.
pub const CASCADE_COLUMN_STEP_PERMILLE: i32 = 150;

/// A cell that is falling away during the level-transition animation.
///
/// `velocity_permille` is the cell's fall factor relative to the base fall
/// speed; `offset_permille` is its current vertical draw offset relative to
/// the drop distance.  Renderers scale these by their own pixel sizes.
#[derive(Clone, Copy, PartialEq, Eq, Structural, Debug)]
pub struct CascadingCell {
    /// Column of the cell when the animation started.
    pub col: i32,
    /// Row of the cell when the animation started.
    pub row: i32,
    /// Color tag the cell carried.
    pub color: u32,
    /// Vertical draw offset, in per-mille of the drop distance.
    pub offset_permille: i32,
    /// Fall factor, in per-mille of the base fall speed.
    pub velocity_permille: i32,
}

/// The fall factor a cascading cell in column `col` is assigned: each column
/// further to the right falls a fixed step slower.
pub open spec fn cascade_velocity_permille(col: int) -> int {
    CASCADE_BASE_PERMILLE - CASCADE_COLUMN_STEP_PERMILLE * col
}

/// The draw offset of a cascading cell, in per-mille of the drop distance:
/// the animation progress scaled by the cell's fall factor, rounded toward
/// zero.
pub open spec fn cascade_offset(progress: int, velocity: int) -> int {
    if velocity >= 0 {
        progress * velocity / 1000
    } else {
        -(progress * -velocity / 1000)
    }
}

/// The occupancy grid of the playfield, with the transient state of the
/// level-transition animation.
pub struct Grid {
    width: usize,
    height: usize,
    visible_height: usize,
    occupied_cells: GameTable<u32>,
    cascading_cells: Vec<CascadingCell>,
    is_cascading: bool,
}

impl Grid {
    /// Width of the playfield in cells.
    pub closed spec fn spec_width(&self) -> usize {
        self.width
    }

    /// Total height in cells, spawn rows included.
    pub closed spec fn spec_height(&self) -> usize {
        self.height
    }

    /// Height of the visible playfield in cells.
    pub closed spec fn spec_visible_height(&self) -> usize {
        self.visible_height
    }

    /// The occupancy table itself.
    pub closed spec fn table(&self) -> GameTable<u32> {
        self.occupied_cells
    }

    /// The occupancy table as a sequence of rows.
    pub open spec fn cells(&self) -> Seq<Seq<Option<u32>>> {
        self.table()@
    }

    /// The transient cascade cells.
    pub closed spec fn spec_cascading(&self) -> Seq<CascadingCell> {
        self.cascading_cells@
    }

    /// True while the cascade animation is active.
    pub closed spec fn spec_is_cascading(&self) -> bool {
        self.is_cascading
    }

    /// Shape invariant: the table matches the stored dimensions, the height
    /// counts the spawn rows, and the dimensions are small enough for signed
    /// cell arithmetic.
    pub open spec fn wf(&self) -> bool {
        &&& self.table().wf()
        &&& self.table().spec_columns() == self.spec_width()
        &&& self.table().spec_rows() == self.spec_height()
        &&& self.spec_height() == self.spec_visible_height() + SPAWN_ROWS
        &&& self.spec_width() <= MAX_GRID_CELLS
        &&& self.spec_height() <= MAX_GRID_CELLS
        &&& forall|i: int|
            0 <= i < self.spec_cascading().len() ==> -2000000 <= (
            #[trigger] self.spec_cascading()[i]).velocity_permille <= 2000000
    }

    /// True when `(cell_x, cell_y)` counts as occupied: every position out
    /// of bounds does, acting as an implicit wall and floor.
    pub open spec fn spec_is_cell_occupied(&self, cell_x: int, cell_y: int) -> bool {
        ||| !(0 <= cell_x < self.spec_width() && 0 <= cell_y < self.spec_height())
        ||| self.cells()[cell_y][cell_x] is Some
    }

    /// True when `(cell_x, cell_y)` is in bounds and holds a locked cell.
    pub open spec fn spec_has_cell(&self, cell_x: int, cell_y: int) -> bool {
        self.table().spec_has(cell_x, cell_y)
    }

    /// Create an empty grid of `width_cells × visible_height_cells` visible
    /// cells, with `SPAWN_ROWS` hidden rows above.
    pub fn new(width_cells: usize, visible_height_cells: usize) -> (grid: Grid)
        requires
            width_cells <= MAX_GRID_CELLS,
            visible_height_cells + SPAWN_ROWS <= MAX_GRID_CELLS,
        ensures
            grid.wf(),
            grid.spec_width() == width_cells,
            grid.spec_visible_height() == visible_height_cells,
            grid.spec_height() == visible_height_cells + SPAWN_ROWS,
            forall|r: int| 0 <= r < grid.spec_height() ==> row_empty(#[trigger] grid.cells()[r]),
            !grid.spec_is_cascading(),
            grid.spec_cascading() == Seq::<CascadingCell>::empty(),
    {
        let total_height = visible_height_cells + SPAWN_ROWS;
        Grid {
            width: width_cells,
            height: total_height,
            visible_height: visible_height_cells,
            occupied_cells: GameTable::new(width_cells, total_height),
            cascading_cells: Vec::new(),
            is_cascading: false,
        }
    }

    /// Width of the playfield in cells.
    pub fn width_cells(&self) -> (r: usize)
        ensures
            r == self.spec_width(),
    {
        self.width
    }

    /// Total height in cells, spawn rows included.
    pub fn height_cells(&self) -> (r: usize)
        ensures
            r == self.spec_height(),
    {
        self.height
    }

    /// Height of the visible playfield in cells.
    pub fn visible_height_cells(&self) -> (r: usize)
        ensures
            r == self.spec_visible_height(),
    {
        self.visible_height
    }

    /// Whether `(cell_x, cell_y)` counts as occupied; positions out of
    /// bounds do.
    pub fn is_cell_occupied(&self, cell_x: i32, cell_y: i32) -> (r: bool)
        requires
            self.wf(),
        ensures
            r == self.spec_is_cell_occupied(cell_x as int, cell_y as int),
    {
        if cell_x < 0 || cell_x >= self.width as i32 || cell_y < 0 || cell_y >= self.height as i32 {
            return true;
        }
        self.occupied_cells.has(cell_x, cell_y)
    }

    /// Write `(col, row, color)` triples into the table, in order; triples
    /// out of bounds are dropped.
    pub fn mark_cells_occupied(&mut self, cells: &[(i32, i32, u32)])
        requires
            old(self).wf(),
        ensures
            final(self).wf(),
            final(self).spec_width() == old(self).spec_width(),
            final(self).spec_height() == old(self).spec_height(),
            final(self).spec_visible_height() == old(self).spec_visible_height(),
            final(self).cells() == marked(old(self).cells(), cells@),
            final(self).spec_cascading() == old(self).spec_cascading(),
            final(self).spec_is_cascading() == old(self).spec_is_cascading(),
    {
        let n = cells.len();
        let mut i: usize = 0;
        while i < n
            invariant
                self.wf(),
                n == cells@.len(),
                i <= n,
                self.spec_width() == old(self).spec_width(),
                self.spec_height() == old(self).spec_height(),
                self.spec_visible_height() == old(self).spec_visible_height(),
                self.cells() == marked(old(self).cells(), cells@.subrange(0, i as int)),
                self.spec_cascading() == old(self).spec_cascading(),
                self.spec_is_cascading() == old(self).spec_is_cascading(),
            decreases n - i,
        {
            proof {
                let prefix = cells@.subrange(0, i as int + 1);
                assert(prefix.drop_last() =~= cells@.subrange(0, i as int));
                assert(prefix.last() == cells@[i as int]);
            }
            let (x, y, color) = cells[i];
            self.occupied_cells.set(x, y, color);
            i = i + 1;
        }
        proof {
            assert(cells@.subrange(0, cells@.len() as int) =~= cells@);
        }
    }

    /// Whether a piece whose cells stand at `shape_cells` may move one row
    /// down.  A piece with any cell still above the grid always may, so that
    /// it can never lock while partially unspawned; otherwise every cell's
    /// position one row below must exist and be free.
    pub fn can_move_down(&self, shape_cells: &[(i32, i32)]) -> (r: bool)
        requires
            self.wf(),
            forall|i: int|
                0 <= i < shape_cells@.len() ==> (#[trigger] shape_cells@[i]).1 < i32::MAX,
        ensures
            r == self.spec_can_move_down(shape_cells@),
    {
        let n = shape_cells.len();
        let mut i: usize = 0;
        while i < n
            invariant
                n == shape_cells@.len(),
                i <= n,
                forall|j: int| 0 <= j < i ==> (#[trigger] shape_cells@[j]).1 >= 0,
            decreases n - i,
        {
            if shape_cells[i].1 < 0 {
                return true;
            }
            i = i + 1;
        }
        let mut i: usize = 0;
        while i < n
            invariant
                self.wf(),
                n == shape_cells@.len(),
                i <= n,
                forall|j: int|
                    0 <= j < n ==> (#[trigger] shape_cells@[j]).1 < i32::MAX && shape_cells@[j].1
                        >= 0,
                forall|j: int|
                    0 <= j < i ==> (#[trigger] shape_cells@[j]).1 + 1 < self.spec_height()
                        && !self.spec_has_cell(shape_cells@[j].0 as int, shape_cells@[j].1 + 1),
            decreases n - i,
        {
            let (cell_x, cell_y) = shape_cells[i];
            let new_y = cell_y + 1;
            if new_y >= self.height as i32 {
                return false;
            }
            if self.occupied_cells.has(cell_x, new_y) {
                return false;
            }
            i = i + 1;
        }
        true
    }

    /// What `can_move_down` answers: a cell above the grid grants movement
    /// outright; otherwise each cell must have a free position below it.
    pub open spec fn spec_can_move_down(&self, shape_cells: Seq<(i32, i32)>) -> bool {
        ||| exists|i: int| 0 <= i < shape_cells.len() && (#[trigger] shape_cells[i]).1 < 0
        ||| forall|i: int|
            0 <= i < shape_cells.len() ==> (#[trigger] shape_cells[i]).1 + 1 < self.spec_height()
                && !self.spec_has_cell(shape_cells[i].0 as int, shape_cells[i].1 + 1)
    }

    /// Every locked cell as a `(col, row, color)` triple, rows in order and
    /// columns in order within each row: the iteration the renderer draws.
    pub fn occupied_cell_list(&self) -> (result: Vec<(i32, i32, u32)>)
        requires
            self.wf(),
        ensures
            result@ == table_triples(self.cells()),
    {
        self.occupied_cells.iter()
    }

    /// The transient cascade cells, for rendering during a level transition.
    pub fn cascading_cell_list(&self) -> (result: &Vec<CascadingCell>)
        ensures
            result@ == self.spec_cascading(),
    {
        &self.cascading_cells
    }

    /// True while the cascade animation is active.
    pub fn cascading(&self) -> (r: bool)
        ensures
            r == self.spec_is_cascading(),
    {
        self.is_cascading
    }
}

impl Grid {
    /// Clear every completed visible line and return how many were cleared.
    ///
    /// Rows are scanned bottom to top starting at the lowest row; a full row
    /// is removed, everything above it shifts one step down, and the same
    /// row index is tested again before the scan moves on, because the row
    /// that just shifted in may itself be full.
    pub fn clear_completed_lines(&mut self) -> (count: usize)
        requires
            old(self).wf(),
        ensures
            final(self).wf(),
            final(self).spec_width() == old(self).spec_width(),
            final(self).spec_height() == old(self).spec_height(),
            final(self).spec_visible_height() == old(self).spec_visible_height(),
            final(self).spec_cascading() == old(self).spec_cascading(),
            final(self).spec_is_cascading() == old(self).spec_is_cascading(),
            final(self).cells() == clear_scan(
                old(self).cells(),
                old(self).spec_height() - 1,
                SPAWN_ROWS as int,
                old(self).spec_width() as nat,
            ).0,
            count == clear_scan(
                old(self).cells(),
                old(self).spec_height() - 1,
                SPAWN_ROWS as int,
                old(self).spec_width() as nat,
            ).1,
    {
        let ghost spawn = SPAWN_ROWS as int;
        let ghost w = old(self).spec_width() as nat;
        let ghost orig = clear_scan(old(self).cells(), old(self).spec_height() - 1, spawn, w);
        proof {
            lemma_clear_scan_count_le(old(self).cells(), old(self).spec_height() - 1, spawn, w);
            lemma_count_full_le(old(self).cells(), old(self).spec_height() as nat);
        }
        let mut cleared: usize = 0;
        let mut row_y: i32 = self.height as i32 - 1;
        while row_y >= SPAWN_ROWS as i32
            invariant
                self.wf(),
                self.spec_width() == old(self).spec_width(),
                self.spec_height() == old(self).spec_height(),
                self.spec_visible_height() == old(self).spec_visible_height(),
                self.spec_cascading() == old(self).spec_cascading(),
                self.spec_is_cascading() == old(self).spec_is_cascading(),
                spawn == SPAWN_ROWS as int,
                w == self.spec_width() as nat,
                orig == clear_scan(old(self).cells(), old(self).spec_height() - 1, spawn, w),
                -1 <= row_y < self.spec_height(),
                spawn - 1 <= row_y,
                clear_scan(self.cells(), row_y as int, spawn, w).0 == orig.0,
                cleared + clear_scan(self.cells(), row_y as int, spawn, w).1 == orig.1,
                orig.1 <= old(self).spec_height(),
            decreases count_full_below(self.cells(), (row_y + 1) as nat), row_y + 1,
        {
            let ghost before = self.cells();
            let full = self.occupied_cells.is_row_full(row_y);
            if full {
                self.occupied_cells.remove_row_and_shift_down(row_y);
                proof {
                    lemma_count_full_shift(before, row_y as int, w, (row_y + 1) as nat);
                    assert(clear_scan(before, row_y as int, spawn, w) == (
                        clear_scan(self.cells(), row_y as int, spawn, w).0,
                        clear_scan(self.cells(), row_y as int, spawn, w).1 + 1,
                    ));
                }
                cleared = cleared + 1;
            } else {
                proof {
                    assert(clear_scan(before, row_y as int, spawn, w) == clear_scan(
                        before,
                        row_y as int - 1,
                        spawn,
                        w,
                    ));
                }
                row_y = row_y - 1;
            }
        }
        cleared
    }

    /// Begin the level-transition animation: snapshot every locked cell as a
    /// cascading cell, give each column a fall factor that shrinks a fixed
    /// step per column so the cells sweep away diagonally, and empty the
    /// authoritative table — the grid is logically empty from this moment,
    /// even while cells are still animating.
    pub fn start_cascade_animation(&mut self)
        requires
            old(self).wf(),
        ensures
            final(self).wf(),
            final(self).spec_width() == old(self).spec_width(),
            final(self).spec_height() == old(self).spec_height(),
            final(self).spec_visible_height() == old(self).spec_visible_height(),
            final(self).spec_is_cascading(),
            final(self).spec_cascading() == table_triples(old(self).cells()).map_values(
                |t: (i32, i32, u32)| cascade_cell_of(t),
            ),
            forall|r: int|
                0 <= r < final(self).spec_height() ==> row_empty(#[trigger] final(self).cells()[r]),
    {
        self.is_cascading = true;
        self.cascading_cells.clear();
        let snapshot = self.occupied_cells.iter();
        let ghost triples = table_triples(old(self).cells());
        proof {
            lemma_table_triples_bounds(old(self).cells(), old(self).spec_width() as nat);
            assert(self.cascading_cells@ =~= triples.subrange(0, 0).map_values(
                |t: (i32, i32, u32)| cascade_cell_of(t),
            ));
        }
        let n = snapshot.len();
        let mut i: usize = 0;
        while i < n
            invariant
                n == triples.len(),
                i <= n,
                snapshot@ == triples,
                forall|j: int| 0 <= j < n ==> 0 <= (#[trigger] triples[j]).0 < MAX_GRID_CELLS,
                self.table() == old(self).table(),
                self.spec_width() == old(self).spec_width(),
                self.spec_height() == old(self).spec_height(),
                self.spec_visible_height() == old(self).spec_visible_height(),
                self.spec_is_cascading(),
                self.spec_cascading() == triples.subrange(0, i as int).map_values(
                    |t: (i32, i32, u32)| cascade_cell_of(t),
                ),
            decreases n - i,
        {
            let (col, row, color) = snapshot[i];
            let velocity_permille = CASCADE_BASE_PERMILLE - CASCADE_COLUMN_STEP_PERMILLE * col;
            self.cascading_cells.push(
                CascadingCell { col, row, color, offset_permille: 0, velocity_permille },
            );
            proof {
                assert(self.spec_cascading() =~= triples.subrange(0, i as int + 1).map_values(
                    |t: (i32, i32, u32)| cascade_cell_of(t),
                ));
            }
            i = i + 1;
        }
        self.occupied_cells.clear();
        proof {
            assert(triples.subrange(0, triples.len() as int) =~= triples);
        }
    }

    /// Move the cascade animation to `progress_permille` of its course: each
    /// cell's draw offset becomes the progress scaled by the cell's own fall
    /// factor, in per-mille of the drop distance.  Without an active
    /// animation nothing changes.
    pub fn update_cascade_animation(&mut self, progress_permille: u32)
        requires
            old(self).wf(),
            progress_permille <= 1000,
        ensures
            final(self).wf(),
            final(self).spec_width() == old(self).spec_width(),
            final(self).spec_height() == old(self).spec_height(),
            final(self).spec_visible_height() == old(self).spec_visible_height(),
            final(self).cells() == old(self).cells(),
            final(self).spec_is_cascading() == old(self).spec_is_cascading(),
            !old(self).spec_is_cascading() ==> final(self).spec_cascading() == old(
                self,
            ).spec_cascading(),
            old(self).spec_is_cascading() ==> final(self).spec_cascading() == old(
                self,
            ).spec_cascading().map_values(
                |c: CascadingCell| cascade_cell_at(c, progress_permille as int),
            ),
    {
        if !self.is_cascading {
            return ;
        }
        let n = self.cascading_cells.len();
        let mut i: usize = 0;
        while i < n
            invariant
                n == old(self).spec_cascading().len(),
                i <= n,
                self.table() == old(self).table(),
                self.spec_width() == old(self).spec_width(),
                self.spec_height() == old(self).spec_height(),
                self.spec_visible_height() == old(self).spec_visible_height(),
                self.spec_is_cascading() == old(self).spec_is_cascading(),
                progress_permille <= 1000,
                forall|j: int|
                    0 <= j < n ==> -2000000 <= (#[trigger] old(self).spec_cascading()[j]).velocity_permille
                        <= 2000000,
                self.spec_cascading() == old(self).spec_cascading().map_values(
                    |c: CascadingCell| cascade_cell_at(c, progress_permille as int),
                ).subrange(0, i as int) + old(self).spec_cascading().subrange(i as int, n as int),
            decreases n - i,
        {
            let cell = self.cascading_cells[i];
            proof {
                assert(cell == old(self).spec_cascading()[i as int]);
            }
            let v = cell.velocity_permille as i64;
            let p = progress_permille as i64;
            proof {
                assert(-2000000000 <= p * v <= 2000000000 && -2000000000 <= p * (-v)
                    <= 2000000000) by (nonlinear_arith)
                    requires
                        0 <= p <= 1000,
                        -2000000 <= v <= 2000000,
                ;
            }
            let offset_wide: i64 = if v >= 0 {
                (p * v) / 1000
            } else {
                -((p * -v) / 1000)
            };
            let offset = offset_wide as i32;
            self.cascading_cells[i] = CascadingCell { offset_permille: offset, ..cell };
            proof {
                assert(self.spec_cascading() =~= old(self).spec_cascading().map_values(
                    |c: CascadingCell| cascade_cell_at(c, progress_permille as int),
                ).subrange(0, i as int + 1) + old(self).spec_cascading().subrange(
                    i as int + 1,
                    n as int,
                ));
            }
            i = i + 1;
        }
        proof {
            assert(self.spec_cascading() =~= old(self).spec_cascading().map_values(
                |c: CascadingCell| cascade_cell_at(c, progress_permille as int),
            ));
        }
    }

    /// Discard the transient cascade cells and end the transition.
    pub fn clear_cascade_animation(&mut self)
        requires
            old(self).wf(),
        ensures
            final(self).wf(),
            final(self).spec_width() == old(self).spec_width(),
            final(self).spec_height() == old(self).spec_height(),
            final(self).spec_visible_height() == old(self).spec_visible_height(),
            final(self).cells() == old(self).cells(),
            !final(self).spec_is_cascading(),
            final(self).spec_cascading() == Seq::<CascadingCell>::empty(),
    {
        self.is_cascading = false;
        self.cascading_cells.clear();
        proof {
            assert(self.cascading_cells@ =~= Seq::<CascadingCell>::empty());
        }
    }
}

/// The cascading cell a `(col, row, color)` triple is turned into when the
/// animation starts.
pub open spec fn cascade_cell_of(t: (i32, i32, u32)) -> CascadingCell {
    CascadingCell {
        col: t.0,
        row: t.1,
        color: t.2,
        offset_permille: 0,
        velocity_permille: cascade_velocity_permille(t.0 as int) as i32,
    }
}

/// A cascading cell moved to animation progress `progress` (in per-mille).
pub open spec fn cascade_cell_at(c: CascadingCell, progress: int) -> CascadingCell {
    CascadingCell {
        offset_permille: cascade_offset(progress, c.velocity_permille as int) as i32,
        ..c
    }
}

/// True when row `y` of the table would be cleared by the scan: the table
/// has at least one column, the row exists, and every cell of it is
/// occupied.
pub open spec fn scan_full(t: Seq<Seq<Option<u32>>>, y: int, columns: nat) -> bool {
    columns >= 1 && 0 <= y < t.len() && row_full(t[y])
}

/// How many of the rows with index below `n` are full.
pub open spec fn count_full_below(t: Seq<Seq<Option<u32>>>, n: nat) -> nat
    decreases n,
{
    if n == 0 || n > t.len() {
        0
    } else {
        count_full_below(t, (n - 1) as nat) + if row_full(t[n - 1]) {
            1nat
        } else {
            0nat
        }
    }
}

/// The bottom-to-top clearing scan over the rows of a table, from row `y`
/// up to the first visible row `spawn`: a full row is removed and the same
/// index is examined again on the shifted rows; otherwise the scan moves one
/// row up.  Yields the rows after clearing and the number of rows cleared.
pub open spec fn clear_scan(t: Seq<Seq<Option<u32>>>, y: int, spawn: int, columns: nat) -> (
    Seq<Seq<Option<u32>>>,
    nat,
)
    decreases count_full_below(t, if -1 <= y { (y + 1) as nat } else { 0nat }), y + 1,
        when -1 <= y < t.len() && 0 <= spawn && (forall|r: int|
            0 <= r < t.len() ==> (#[trigger] t[r]).len() == columns)
        via clear_scan_decreases
{
    if y < spawn {
        (t, 0)
    } else if scan_full(t, y, columns) {
        let rest = clear_scan(shifted_down(t, y, columns), y, spawn, columns);
        (rest.0, rest.1 + 1)
    } else {
        clear_scan(t, y - 1, spawn, columns)
    }
}

#[via_fn]
proof fn clear_scan_decreases(t: Seq<Seq<Option<u32>>>, y: int, spawn: int, columns: nat) {
    if -1 <= y < t.len() && 0 <= spawn && (forall|r: int|
        0 <= r < t.len() ==> (#[trigger] t[r]).len() == columns) {
        if y >= spawn && scan_full(t, y, columns) {
            lemma_count_full_shift(t, y, columns, (y + 1) as nat);
        }
    }
}

/// Counting full rows below `n` never exceeds `n`.
pub proof fn lemma_count_full_le(t: Seq<Seq<Option<u32>>>, n: nat)
    ensures
        count_full_below(t, n) <= n,
    decreases n,
{
    if n > 0 && n <= t.len() {
        lemma_count_full_le(t, (n - 1) as nat);
    }
}

/// Removing row `y` and shifting the rows above it down leaves, below any
/// index `n ≤ y + 1`, exactly the full rows that stood below `n - 1`: the
/// fresh top row is never full when the table has at least one column.
proof fn lemma_count_full_shift(t: Seq<Seq<Option<u32>>>, y: int, columns: nat, n: nat)
    requires
        0 <= y < t.len(),
        columns >= 1,
        n <= y + 1,
        forall|r: int| 0 <= r < t.len() ==> (#[trigger] t[r]).len() == columns,
    ensures
        count_full_below(shifted_down(t, y, columns), n) == if n == 0 {
            0nat
        } else {
            count_full_below(t, (n - 1) as nat)
        },
    decreases n,
{
    let s = shifted_down(t, y, columns);
    assert(s.len() == t.len());
    if n > 0 {
        lemma_count_full_shift(t, y, columns, (n - 1) as nat);
        if n - 1 == 0 {
            assert(s[0] == Seq::new(columns, |c: int| None::<u32>));
            assert(s[0][0] is None);
            assert(!row_full(s[0]));
        } else {
            assert(s[n - 1] == t[n - 2]);
        }
    }
}

/// The scan never clears more rows than stood full below its start.
pub proof fn lemma_clear_scan_count_le(t: Seq<Seq<Option<u32>>>, y: int, spawn: int, columns: nat)
    requires
        -1 <= y < t.len(),
        0 <= spawn,
        forall|r: int| 0 <= r < t.len() ==> (#[trigger] t[r]).len() == columns,
    ensures
        clear_scan(t, y, spawn, columns).1 <= count_full_below(t, (y + 1) as nat),
    decreases count_full_below(t, (y + 1) as nat), y + 1,
{
    if y < spawn {
    } else if scan_full(t, y, columns) {
        lemma_count_full_shift(t, y, columns, (y + 1) as nat);
        lemma_clear_scan_count_le(shifted_down(t, y, columns), y, spawn, columns);
    } else {
        lemma_clear_scan_count_le(t, y - 1, spawn, columns);
    }
}

/// The rows of the table that are not full, in their original order.
pub open spec fn not_full_rows(t: Seq<Seq<Option<u32>>>) -> Seq<Seq<Option<u32>>> {
    t.filter(|row: Seq<Option<u32>>| !row_full(row))
}

/// A block of `k` empty rows of `columns` cells.
pub open spec fn empty_rows(k: nat, columns: nat) -> Seq<Seq<Option<u32>>> {
    Seq::new(k, |i: int| Seq::new(columns, |c: int| None::<u32>))
}

/// Counting full rows is unchanged over a span without full rows.
proof fn lemma_count_full_range(t: Seq<Seq<Option<u32>>>, m: nat, n: nat)
    requires
        m <= n,
        n <= t.len(),
        forall|r: int| m <= r < n ==> !row_full(#[trigger] t[r]),
    ensures
        count_full_below(t, n) == count_full_below(t, m),
    decreases n - m,
{
    if n > m {
        lemma_count_full_range(t, m, (n - 1) as nat);
    }
}

/// A table whose rows all fail the fullness test filters to itself.
proof fn lemma_filter_not_full_all(t: Seq<Seq<Option<u32>>>)
    requires
        forall|r: int| 0 <= r < t.len() ==> !row_full(#[trigger] t[r]),
    ensures
        not_full_rows(t) == t,
    decreases t.len(),
{
    reveal(Seq::filter);
    if t.len() > 0 {
        lemma_filter_not_full_all(t.drop_last());
        assert(not_full_rows(t) =~= t);
    }
}

/// Scanning across rows that are not full only moves the scan upward.
proof fn lemma_clear_scan_skip(
    t: Seq<Seq<Option<u32>>>,
    y: int,
    y2: int,
    spawn: int,
    columns: nat,
)
    requires
        0 <= spawn,
        spawn - 1 <= y2 <= y < t.len(),
        forall|r: int| 0 <= r < t.len() ==> (#[trigger] t[r]).len() == columns,
        forall|r: int| y2 < r <= y ==> !row_full(#[trigger] t[r]),
    ensures
        clear_scan(t, y, spawn, columns) == clear_scan(t, y2, spawn, columns),
    decreases y - y2,
{
    if y > y2 {
        assert(!scan_full(t, y, columns));
        lemma_clear_scan_skip(t, y - 1, y2, spawn, columns);
    }
}

/// A scan over a table without any full visible row clears nothing.
proof fn lemma_clear_scan_nofull(t: Seq<Seq<Option<u32>>>, y: int, spawn: int, columns: nat)
    requires
        0 <= spawn,
        -1 <= y < t.len(),
        forall|r: int| 0 <= r < t.len() ==> (#[trigger] t[r]).len() == columns,
        forall|r: int| spawn <= r <= y ==> !row_full(#[trigger] t[r]),
    ensures
        clear_scan(t, y, spawn, columns) == (t, 0nat),
    decreases y + 1,
{
    if y >= spawn {
        assert(!scan_full(t, y, columns));
        lemma_clear_scan_nofull(t, y - 1, spawn, columns);
    }
}

/// LAW — single-line clear: when exactly one row `r` of the table is full,
/// the scan clears exactly that one row; afterwards the top row is empty,
/// every row that stood above `r` is one step lower with its contents
/// intact, and every row below `r` is untouched.
pub proof fn lemma_single_line_clear(t: Seq<Seq<Option<u32>>>, r: int, spawn: int, columns: nat)
    requires
        columns >= 1,
        0 <= spawn <= r < t.len(),
        forall|i: int| 0 <= i < t.len() ==> (#[trigger] t[i]).len() == columns,
        row_full(t[r]),
        forall|i: int| 0 <= i < t.len() && i != r ==> !row_full(#[trigger] t[i]),
    ensures
        clear_scan(t, t.len() - 1, spawn, columns).1 == 1,
        clear_scan(t, t.len() - 1, spawn, columns).0 == shifted_down(t, r, columns),
        row_empty(clear_scan(t, t.len() - 1, spawn, columns).0[0]),
        forall|i: int|
            1 <= i <= r ==> #[trigger] clear_scan(t, t.len() - 1, spawn, columns).0[i] == t[i - 1],
        forall|i: int|
            r < i < t.len() ==> #[trigger] clear_scan(t, t.len() - 1, spawn, columns).0[i] == t[i],
{
    lemma_clear_scan_skip(t, t.len() - 1, r, spawn, columns);
    let s = shifted_down(t, r, columns);
    assert(s.len() == t.len());
    assert(scan_full(t, r, columns));
    assert(s[0] == Seq::new(columns, |c: int| None::<u32>));
    assert(s[0][0] is None);
    assert(!row_full(s[0]));
    assert forall|i: int| 1 <= i <= r implies #[trigger] s[i] == t[i - 1] by {}
    assert forall|i: int| r < i < s.len() implies #[trigger] s[i] == t[i] by {}
    assert forall|i: int| spawn <= i < s.len() implies !row_full(#[trigger] s[i]) by {
        if 1 <= i <= r {
            assert(s[i] == t[i - 1]);
        } else if i > r {
            assert(s[i] == t[i]);
        }
    }
    lemma_clear_scan_nofull(s, r, spawn, columns);
    assert(clear_scan(t, r, spawn, columns) == (s, 1nat));
}

/// LAW — simultaneous clears keep the surviving rows in order: when every
/// full row of the table stands in the visible area at or below the scanned
/// row, the scan clears exactly the full rows, and what remains is a block
/// of fresh empty rows on top of the not-full rows in their original order.
/// Four simultaneously full rows thus clear in one call returning 4.
pub proof fn lemma_clear_scan_closed_form(t: Seq<Seq<Option<u32>>>, y: int, spawn: int, columns: nat)
    requires
        columns >= 1,
        0 <= spawn,
        -1 <= y < t.len(),
        forall|r: int| 0 <= r < t.len() ==> (#[trigger] t[r]).len() == columns,
        forall|r: int| 0 <= r < spawn ==> !row_full(#[trigger] t[r]),
        forall|r: int| y < r < t.len() ==> !row_full(#[trigger] t[r]),
    ensures
        clear_scan(t, y, spawn, columns).1 == count_full_below(t, t.len() as nat),
        clear_scan(t, y, spawn, columns).0 == empty_rows(
            count_full_below(t, t.len() as nat),
            columns,
        ) + not_full_rows(t),
    decreases count_full_below(t, if -1 <= y { (y + 1) as nat } else { 0nat }), y + 1,
{
    let k = count_full_below(t, t.len() as nat);
    if y < spawn {
        assert(forall|r: int| 0 <= r < t.len() ==> !row_full(#[trigger] t[r]));
        lemma_count_full_range(t, 0, t.len() as nat);
        lemma_filter_not_full_all(t);
        assert(empty_rows(0, columns) + not_full_rows(t) =~= t);
    } else if scan_full(t, y, columns) {
        let s = shifted_down(t, y, columns);
        assert(s.len() == t.len());
        assert(s[0] == Seq::new(columns, |c: int| None::<u32>));
        assert(s[0][0] is None);
        assert(!row_full(s[0]));
        assert(forall|i: int| 1 <= i <= y ==> #[trigger] s[i] == t[i - 1]);
        assert(forall|i: int| y < i < s.len() ==> #[trigger] s[i] == t[i]);
        // the shifted table still has uniform rows and no full row outside
        // [spawn, y]
        assert forall|r: int| 0 <= r < s.len() implies (#[trigger] s[r]).len() == columns by {
            if 1 <= r <= y {
                assert(s[r] == t[r - 1]);
            } else if r > y {
                assert(s[r] == t[r]);
            }
        }
        assert forall|r: int| 0 <= r < spawn implies !row_full(#[trigger] s[r]) by {
            if 1 <= r <= y {
                assert(s[r] == t[r - 1]);
            }
        }
        // the measure shrinks: the cleared full row is gone
        lemma_count_full_shift(t, y, columns, (y + 1) as nat);
        lemma_count_full_range(t, (y + 1) as nat, t.len() as nat);
        lemma_count_full_range(s, (y + 1) as nat, s.len() as nat);
        lemma_clear_scan_closed_form(s, y, spawn, columns);
        let ks = count_full_below(s, s.len() as nat);
        assert(ks + 1 == k);
        // the surviving rows of the shifted table are the fresh empty row
        // followed by the surviving rows of the original
        let pred = |row: Seq<Option<u32>>| !row_full(row);
        let e = Seq::new(columns, |c: int| None::<u32>);
        let left = t.subrange(0, y);
        let right = t.subrange(y + 1, t.len() as int);
        assert(s =~= seq![e] + left + right);
        Seq::filter_distributes_over_add(seq![e] + left, right, pred);
        Seq::filter_distributes_over_add(seq![e], left, pred);
        reveal(Seq::filter);
        assert(seq![e].drop_last() =~= Seq::<Seq<Option<u32>>>::empty());
        assert(seq![e].filter(pred) =~= seq![e]);
        assert(t =~= (left + seq![t[y]]) + right);
        Seq::filter_distributes_over_add(left + seq![t[y]], right, pred);
        Seq::filter_distributes_over_add(left, seq![t[y]], pred);
        assert(seq![t[y]].drop_last() =~= Seq::<Seq<Option<u32>>>::empty());
        assert(seq![t[y]].filter(pred) =~= Seq::<Seq<Option<u32>>>::empty());
        assert(not_full_rows(s) =~= seq![e] + not_full_rows(t));
        assert(empty_rows(ks, columns) + not_full_rows(s) =~= empty_rows(k, columns)
            + not_full_rows(t));
    } else {
        assert(count_full_below(t, (y + 1) as nat) == count_full_below(t, y as nat));
        lemma_clear_scan_closed_form(t, y - 1, spawn, columns);
    }
}

/// The table after marking keeps its shape: as many rows, each as wide.
proof fn lemma_marked_shape(t: Seq<Seq<Option<u32>>>, cells: Seq<(i32, i32, u32)>)
    ensures
        marked(t, cells).len() == t.len(),
        forall|r: int|
            0 <= r < t.len() ==> (#[trigger] marked(t, cells)[r]).len() == t[r].len(),
    decreases cells.len(),
{
    if cells.len() > 0 {
        lemma_marked_shape(t, cells.drop_last());
    }
}

/// Marking never empties a cell: a position occupied before the marks is
/// occupied after them.
pub proof fn lemma_marked_preserves_occupied(
    t: Seq<Seq<Option<u32>>>,
    cells: Seq<(i32, i32, u32)>,
    x: int,
    y: int,
)
    requires
        0 <= y < t.len(),
        0 <= x < t[y].len(),
        t[y][x] is Some,
    ensures
        marked(t, cells)[y][x] is Some,
    decreases cells.len(),
{
    if cells.len() > 0 {
        lemma_marked_preserves_occupied(t, cells.drop_last(), x, y);
        lemma_marked_shape(t, cells.drop_last());
    }
}

/// LAW — occupancy: an in-bounds `(col, row, color)` triple handed to the
/// marking pass leaves its cell occupied, whatever the other triples do.
pub proof fn lemma_marked_occupies(
    t: Seq<Seq<Option<u32>>>,
    cells: Seq<(i32, i32, u32)>,
    k: int,
)
    requires
        0 <= k < cells.len(),
        0 <= cells[k].1 < t.len(),
        0 <= cells[k].0 < t[cells[k].1 as int].len(),
    ensures
        marked(t, cells)[cells[k].1 as int][cells[k].0 as int] is Some,
    decreases cells.len(),
{
    let x = cells[k].0 as int;
    let y = cells[k].1 as int;
    lemma_marked_shape(t, cells.drop_last());
    if k == cells.len() - 1 {
        assert(marked(t, cells)[y][x] == Some(cells[k].2));
    } else {
        lemma_marked_occupies(t, cells.drop_last(), k);
        assert(cells.drop_last()[k] == cells[k]);
        lemma_marked_shape(t, cells);
    }
}

/// LAW — spawn-buffer exception: a piece with any cell still above the grid
/// may always move down, whatever lies beneath it.
pub proof fn lemma_spawn_buffer_exception(grid: Grid, shape_cells: Seq<(i32, i32)>, k: int)
    requires
        0 <= k < shape_cells.len(),
        shape_cells[k].1 < 0,
    ensures
        grid.spec_can_move_down(shape_cells),
{
    assert(0 <= k < shape_cells.len() && (#[trigger] shape_cells[k]).1 < 0);
}

/// The table after the `(col, row, color)` triples are written in order:
/// each in-bounds triple overwrites its cell, each one out of bounds is
/// dropped.
pub open spec fn marked(
    t: Seq<Seq<Option<u32>>>,
    cells: Seq<(i32, i32, u32)>,
) -> Seq<Seq<Option<u32>>>
    decreases cells.len(),
{
    if cells.len() == 0 {
        t
    } else {
        let prev = marked(t, cells.drop_last());
        let (x, y, color) = cells.last();
        if 0 <= y < prev.len() && 0 <= x < prev[y as int].len() {
            prev.update(y as int, prev[y as int].update(x as int, Some(color)))
        } else {
            prev
        }
    }
}

} // verus!

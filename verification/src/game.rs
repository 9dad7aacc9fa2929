//! The game loop: the Playing / LevelTransition state machine that spawns
//! pieces, advances them, locks them into the grid, clears lines, scores
//! them and runs the level-transition cascade.
//!
//! One `update` call advances everything by one frame and reports what
//! happened, so the caller can play sounds and draw.

use vstd::prelude::*;
use vstd::arithmetic::power2::{pow2, lemma_pow2_strictly_increases, lemma2_to64};
use crate::grid::{Grid, SPAWN_ROWS, CascadingCell, cascade_cell_of, cascade_cell_at, clear_scan,
    lemma_clear_scan_count_le, lemma_count_full_le, marked};
use crate::table::table_triples;
use crate::piece::{PieceInput, PieceState, TetrisShapeNode, first_kick, rotated_dims_of,
    spec_gravity_step, spec_horizontal_step, spec_rotate_step, MAX_FRAME_MS};
use crate::score::{ScoreManager, BASE_POINTS_PER_ROW, LINES_PER_LEVEL, rows_bonus,
    rows_bonus_stored, spec_points};
use crate::shape::{ShapeName, initial_dims, shape_color, spec_is_gameplay};

verus! {

/// Width of the playfield in cells.
pub const GRID_WIDTH_CELLS: usize = 10;

/// Visible height of the playfield in cells.
pub const GRID_HEIGHT_CELLS: usize = 20;

/// Fall speed of a freshly spawned piece, in cells per second.
pub const SPAWN_VELOCITY: u16 = 2;

/// Row where new pieces spawn: the top row of the spawn area.
pub const SPAWN_ROW: i32 = 0;

/// How long the level-transition cascade runs, in milliseconds.
pub const LEVEL_TRANSITION_DURATION_MS: u32 = 1500;

/// The most lines one lock can clear: every row of the playfield.
pub const MAX_CLEARS_PER_LOCK: u32 = 24;

/// The two top-level modes of a session.
#[derive(Clone, Copy, PartialEq, Eq, Structural, Debug)]
pub enum GameState {
    /// Normal play: a piece falls, locks, and lines clear.
    Playing,
    /// The cascade animation between levels; play resumes when the timer
    /// reaches the duration.
    LevelTransition {
        /// Milliseconds since the transition began.
        timer_ms: u32,
    },
}

/// What one frame reported: which sounds to play and what was scored.
#[derive(Clone, Copy, PartialEq, Eq, Structural, Debug)]
pub struct GameEvents {
    /// A rotation succeeded this frame.
    pub rotated: bool,
    /// The active piece locked into the grid this frame.
    pub locked: bool,
    /// How many lines the lock cleared.
    pub lines_cleared: u32,
    /// The points the clear awarded.
    pub points_awarded: u64,
    /// The clear raised the level; the cascade has begun.
    pub leveled_up: bool,
}

/// A session: the grid, the score, at most one falling piece, and the
/// state machine that drives them.
pub struct Game {
    active_piece: Option<TetrisShapeNode>,
    grid: Grid,
    score_manager: ScoreManager,
    state: GameState,
}

/// The events of a frame in which nothing noteworthy happened.
pub open spec fn quiet_events() -> GameEvents {
    GameEvents { rotated: false, locked: false, lines_cleared: 0, points_awarded: 0, leveled_up: false }
}

/// True when two score states agree on everything observable.
pub open spec fn score_unchanged(a: ScoreManager, b: ScoreManager) -> bool {
    &&& a.spec_score() == b.spec_score()
    &&& a.spec_lines_cleared() == b.spec_lines_cleared()
    &&& a.spec_level() == b.spec_level()
    &&& a.spec_multiplier() == b.spec_multiplier()
    &&& a.spec_combo_count() == b.spec_combo_count()
    &&& a.spec_high_score() == b.spec_high_score()
    &&& a.spec_high_score_needs_sync() == b.spec_high_score_needs_sync()
}

/// Room left in the counters for one more lock, however many lines it
/// clears: the combo shift stays in range, the line counter cannot wrap,
/// and even the largest possible clear's points fit beside the score.
pub open spec fn score_headroom(s: ScoreManager) -> bool {
    &&& s.spec_combo_count() + 1 <= 64
    &&& s.spec_lines_cleared() + MAX_CLEARS_PER_LOCK <= u32::MAX
    &&& s.spec_score() + BASE_POINTS_PER_ROW * (pow2(MAX_CLEARS_PER_LOCK as nat) - 1)
        * s.spec_multiplier() * pow2(s.spec_combo_count() as nat) * 8 <= u64::MAX
}

/// The state a freshly spawned piece of the given shape starts in.
pub open spec fn fresh_piece_state(name: ShapeName, grid: Grid) -> PieceState {
    PieceState {
        name,
        dims: initial_dims(name),
        cell_x: ((grid.spec_width() / 2) as i32),
        cell_y: SPAWN_ROW,
        stopped: false,
        velocity: SPAWN_VELOCITY,
        fall_timer: 0,
        horizontal_move_timer: 0,
        das_timer: 0,
        das_active: false,
        last_direction: 0,
    }
}

/// The piece state after one frame: rotation, then horizontal movement,
/// then gravity.
pub open spec fn advanced_state(
    st0: PieceState,
    grid: Grid,
    input: PieceInput,
    delta: int,
) -> PieceState {
    spec_gravity_step(
        spec_horizontal_step(
            spec_rotate_step(st0, grid, input.rotate),
            grid,
            input.left,
            input.right,
            delta,
        ),
        grid,
        input.soft_drop,
        delta,
    )
}

/// What one Playing frame does, given the state `st0` and color of the
/// piece in play: the piece advances; a piece that stops is locked into
/// the grid, its full lines are cleared and scored, and a level raise
/// begins the cascade; a piece still falling simply remains.
pub open spec fn frame_outcome(
    pre_grid: Grid,
    pre_score: ScoreManager,
    st0: PieceState,
    color: u32,
    input: PieceInput,
    delta: int,
    post: Game,
    ev: GameEvents,
) -> bool {
    let st1 = if st0.stopped {
        st0
    } else {
        advanced_state(st0, pre_grid, input, delta)
    };
    let rotated = !st0.stopped && input.rotate && first_kick(
        pre_grid,
        rotated_dims_of(st0.name, st0.dims),
        st0.cell_x,
        st0.cell_y,
    ) is Some;
    &&& ev.rotated == rotated
    &&& if st1.stopped {
        let colored = crate::piece::cells_of(st1.dims, st1.cell_x, st1.cell_y).map_values(
            |c: (i32, i32)| (c.0, c.1, color),
        );
        let after_mark = marked(pre_grid.cells(), colored);
        let scan = clear_scan(
            after_mark,
            pre_grid.spec_height() - 1,
            SPAWN_ROWS as int,
            pre_grid.spec_width() as nat,
        );
        let lines = scan.1;
        &&& ev.locked
        &&& ev.lines_cleared == lines
        &&& post.spec_active_piece() is None
        &&& if lines == 0 {
            &&& ev.points_awarded == 0
            &&& !ev.leveled_up
            &&& post.spec_state() is Playing
            &&& post.spec_grid().cells() == scan.0
            &&& post.spec_grid().spec_is_cascading() == pre_grid.spec_is_cascading()
            &&& post.spec_score_manager().spec_multiplier() == 1
            &&& post.spec_score_manager().spec_combo_count() == 0
            &&& post.spec_score_manager().spec_score() == pre_score.spec_score()
            &&& post.spec_score_manager().spec_lines_cleared() == pre_score.spec_lines_cleared()
            &&& post.spec_score_manager().spec_level() == pre_score.spec_level()
            &&& post.spec_score_manager().spec_high_score() == pre_score.spec_high_score()
        } else {
            let rows = lines as u32;
            let pts = spec_points(
                rows,
                pre_score.spec_multiplier(),
                ((pre_score.spec_combo_count() + 1) as u32),
                pre_score.spec_level(),
            );
            let new_lines = ((pre_score.spec_lines_cleared() + rows) as u32);
            let new_level = new_lines / LINES_PER_LEVEL;
            &&& ev.points_awarded == pts
            &&& ev.leveled_up == (new_level > pre_score.spec_level())
            &&& post.spec_score_manager().spec_score() == pre_score.spec_score() + pts
            &&& post.spec_score_manager().spec_lines_cleared() == new_lines
            &&& post.spec_score_manager().spec_level() == new_level
            &&& post.spec_score_manager().spec_combo_count() == pre_score.spec_combo_count() + 1
            &&& post.spec_score_manager().spec_multiplier() == rows_bonus_stored(rows)
            &&& post.spec_score_manager().spec_high_score() == if pre_score.spec_score() + pts
                > pre_score.spec_high_score() {
                (pre_score.spec_score() + pts) as u64
            } else {
                pre_score.spec_high_score()
            }
            &&& if new_level > pre_score.spec_level() {
                // level raised: the cascade begins on the cleared grid
                &&& post.spec_state() == (GameState::LevelTransition { timer_ms: 0u32 })
                &&& post.spec_grid().spec_is_cascading()
                &&& post.spec_grid().spec_cascading() == table_triples(scan.0).map_values(
                    |t: (i32, i32, u32)| cascade_cell_of(t),
                )
                &&& forall|r: int|
                    0 <= r < post.spec_grid().cells().len() ==> crate::table::row_empty(
                        #[trigger] post.spec_grid().cells()[r],
                    )
            } else {
                &&& post.spec_state() is Playing
                &&& post.spec_grid().cells() == scan.0
                &&& post.spec_grid().spec_is_cascading() == pre_grid.spec_is_cascading()
            }
        }
    } else {
        &&& !ev.locked
        &&& ev.lines_cleared == 0
        &&& ev.points_awarded == 0
        &&& !ev.leveled_up
        &&& post.spec_state() is Playing
        &&& post.spec_grid().cells() == pre_grid.cells()
        &&& post.spec_grid().spec_is_cascading() == pre_grid.spec_is_cascading()
        &&& score_unchanged(pre_score, post.spec_score_manager())
        &&& post.spec_active_piece() matches Some(p) && p.state() == st1 && p.color == color
    }
}

impl Game {
    /// The playfield.
    pub closed spec fn spec_grid(&self) -> Grid {
        self.grid
    }

    /// The scoring state.
    pub closed spec fn spec_score_manager(&self) -> ScoreManager {
        self.score_manager
    }

    /// The state machine's mode.
    pub closed spec fn spec_state(&self) -> GameState {
        self.state
    }

    /// The falling piece, if one is in play.
    pub closed spec fn spec_active_piece(&self) -> Option<TetrisShapeNode> {
        self.active_piece
    }

    /// Session invariant: the playfield has the fixed dimensions, the
    /// score state is sound with a multiplier no clear can exceed, any
    /// piece in play is well-formed, still falling and bound to this grid,
    /// and the cascade runs exactly during a level transition, which never
    /// keeps a piece.
    pub open spec fn wf(&self) -> bool {
        &&& self.spec_grid().wf()
        &&& self.spec_grid().spec_width() == GRID_WIDTH_CELLS
        &&& self.spec_grid().spec_visible_height() == GRID_HEIGHT_CELLS
        &&& self.spec_score_manager().wf()
        &&& self.spec_score_manager().spec_multiplier() <= 0x1000000
        &&& match self.spec_active_piece() {
            Some(p) => p.wf() && p.matches_grid(self.spec_grid()) && !p.stopped,
            None => true,
        }
        &&& (self.spec_state() is LevelTransition ==> self.spec_active_piece() is None)
        &&& (self.spec_state() matches GameState::LevelTransition { timer_ms } ==> timer_ms
            < LEVEL_TRANSITION_DURATION_MS)
        &&& self.spec_grid().spec_is_cascading() == (self.spec_state() is LevelTransition)
    }

    /// A fresh session: empty playfield, zero score, no piece, playing.
    pub fn new() -> (game: Game)
        ensures
            game.wf(),
            game.spec_state() is Playing,
            game.spec_active_piece() is None,
            game.spec_score_manager().spec_score() == 0,
            game.spec_score_manager().spec_multiplier() == 1,
            game.spec_score_manager().spec_combo_count() == 0,
            game.spec_score_manager().spec_lines_cleared() == 0,
            game.spec_score_manager().spec_high_score() == 0,
            forall|r: int|
                0 <= r < game.spec_grid().cells().len() ==> crate::table::row_empty(
                    #[trigger] game.spec_grid().cells()[r],
                ),
            score_headroom(game.spec_score_manager()),
    {
        let game = Game {
            active_piece: None,
            grid: Grid::new(GRID_WIDTH_CELLS, GRID_HEIGHT_CELLS),
            score_manager: ScoreManager::new(),
            state: GameState::Playing,
        };
        proof {
            lemma2_to64();
        }
        game
    }

    /// The playfield, for rendering.
    pub fn grid(&self) -> (r: &Grid)
        ensures
            r == self.spec_grid(),
    {
        &self.grid
    }

    /// The falling piece, for rendering.
    pub fn active_piece(&self) -> (r: &Option<TetrisShapeNode>)
        ensures
            r == self.spec_active_piece(),
    {
        &self.active_piece
    }

    /// The scoring state, for display.
    pub fn score_manager(&self) -> (r: &ScoreManager)
        ensures
            r == self.spec_score_manager(),
    {
        &self.score_manager
    }

    /// Take a high score from the persistence boundary at session start.
    pub fn set_high_score(&mut self, high_score: u64)
        requires
            old(self).wf(),
        ensures
            final(self).wf(),
            final(self).spec_score_manager().spec_high_score() == high_score,
            final(self).spec_grid() == old(self).spec_grid(),
            final(self).spec_state() == old(self).spec_state(),
            final(self).spec_active_piece() == old(self).spec_active_piece(),
            score_headroom(old(self).spec_score_manager()) ==> score_headroom(
                final(self).spec_score_manager(),
            ),
    {
        self.score_manager.set_high_score(high_score);
    }

    /// Advance the session by one frame.
    ///
    /// During a level transition only the cascade timer and offsets move;
    /// at the duration the cascade ends and play resumes.  During play a
    /// piece is spawned if none is falling, the piece advances, and a
    /// piece that stops is locked, cleared, and scored, with a level raise
    /// starting the cascade.
    ///
    /// The headroom precondition is a machine limit: it keeps every
    /// arithmetic step of the scoring inside 64 bits, whatever this frame
    /// clears.
    #[verifier::rlimit(100)]
    pub fn update(&mut self, input: PieceInput, delta_ms: u32) -> (ev: GameEvents)
        requires
            old(self).wf(),
            delta_ms <= MAX_FRAME_MS,
            score_headroom(old(self).spec_score_manager()),
        ensures
            final(self).wf(),
            final(self).spec_grid().spec_width() == old(self).spec_grid().spec_width(),
            final(self).spec_grid().spec_height() == old(self).spec_grid().spec_height(),
            old(self).spec_state() matches GameState::LevelTransition { timer_ms } ==> {
                &&& ev == quiet_events()
                &&& score_unchanged(
                    old(self).spec_score_manager(),
                    final(self).spec_score_manager(),
                )
                &&& final(self).spec_active_piece() is None
                &&& final(self).spec_grid().cells() == old(self).spec_grid().cells()
                &&& if timer_ms + delta_ms >= LEVEL_TRANSITION_DURATION_MS {
                    &&& final(self).spec_state() is Playing
                    &&& !final(self).spec_grid().spec_is_cascading()
                } else {
                    &&& final(self).spec_state() == (GameState::LevelTransition {
                        timer_ms: ((timer_ms + delta_ms) as u32),
                    })
                    &&& final(self).spec_grid().spec_cascading() == old(
                        self,
                    ).spec_grid().spec_cascading().map_values(
                        |c: CascadingCell| cascade_cell_at(
                            c,
                            (timer_ms + delta_ms) * 1000 / (LEVEL_TRANSITION_DURATION_MS as int),
                        ),
                    )
                }
            },
            old(self).spec_state() is Playing && old(self).spec_active_piece() is Some
                ==> frame_outcome(
                old(self).spec_grid(),
                old(self).spec_score_manager(),
                old(self).spec_active_piece().unwrap().state(),
                old(self).spec_active_piece().unwrap().color,
                input,
                delta_ms as int,
                *final(self),
                ev,
            ),
            old(self).spec_state() is Playing && old(self).spec_active_piece() is None
                ==> exists|name: ShapeName|
                spec_is_gameplay(name) && #[trigger] frame_outcome(
                    old(self).spec_grid(),
                    old(self).spec_score_manager(),
                    fresh_piece_state(name, old(self).spec_grid()),
                    shape_color(name),
                    input,
                    delta_ms as int,
                    *final(self),
                    ev,
                ),
    {
        match self.state {
            GameState::LevelTransition { timer_ms } => {
                let new_timer = timer_ms + delta_ms;
                if new_timer >= LEVEL_TRANSITION_DURATION_MS {
                    // transition complete: resume playing
                    self.state = GameState::Playing;
                    self.grid.clear_cascade_animation();
                } else {
                    // continue the cascade
                    self.state = GameState::LevelTransition { timer_ms: new_timer };
                    let progress_permille = new_timer * 1000 / LEVEL_TRANSITION_DURATION_MS;
                    self.grid.update_cascade_animation(progress_permille);
                }
                GameEvents {
                    rotated: false,
                    locked: false,
                    lines_cleared: 0,
                    points_awarded: 0,
                    leveled_up: false,
                }
            },
            GameState::Playing => {
                let ghost pre_grid = self.grid;
                let ghost pre_score = self.score_manager;
                // spawn a piece first if none is falling
                if self.active_piece.is_none() {
                    self.spawn_new_piece();
                }
                let ghost st0 = self.active_piece.unwrap().state();
                let ghost spawn_name = self.active_piece.unwrap().shape_name.spec_name();
                // advance the piece
                let mut rotated = false;
                if let Some(piece) = self.active_piece.as_mut() {
                    rotated = piece.update(input, delta_ms, &self.grid);
                }
                // a stopped piece locks into the grid
                let piece_opt = self.active_piece.take();
                let mut ev = GameEvents {
                    rotated,
                    locked: false,
                    lines_cleared: 0,
                    points_awarded: 0,
                    leveled_up: false,
                };
                if let Some(piece) = piece_opt {
                    if piece.stopped {
                        ev.locked = true;
                        let cells_with_colors = piece.get_occupied_cells_with_color();
                        self.grid.mark_cells_occupied(cells_with_colors.as_slice());
                        let lines_cleared = self.grid.clear_completed_lines();
                        proof {
                            lemma_clear_scan_count_le(
                                marked(pre_grid.cells(), cells_with_colors@),
                                pre_grid.spec_height() - 1,
                                SPAWN_ROWS as int,
                                pre_grid.spec_width() as nat,
                            );
                            lemma_count_full_le(
                                marked(pre_grid.cells(), cells_with_colors@),
                                pre_grid.spec_height() as nat,
                            );
                        }
                        if lines_cleared > 0 {
                            let old_level = self.score_manager.level();
                            proof {
                                lemma_points_within_headroom(
                                    pre_score,
                                    lines_cleared as u32,
                                );
                            }
                            let points = self.score_manager.on_rows_cleared(lines_cleared as u32);
                            let new_level = self.score_manager.level();
                            ev.lines_cleared = lines_cleared as u32;
                            ev.points_awarded = points;
                            proof {
                                lemma_rows_bonus_bounds(lines_cleared as u32);
                            }
                            if new_level > old_level {
                                ev.leveled_up = true;
                                self.start_level_transition();
                            }
                        } else {
                            // landed without clearing: the combo breaks
                            self.score_manager.on_piece_landed_no_clear();
                        }
                    } else {
                        self.active_piece = Some(piece);
                    }
                }
                proof {
                    if old(self).spec_active_piece() is None {
                        assert(spec_is_gameplay(spawn_name));
                        assert(st0 =~= fresh_piece_state(spawn_name, pre_grid));
                        assert(frame_outcome(
                            pre_grid,
                            pre_score,
                            fresh_piece_state(spawn_name, pre_grid),
                            shape_color(spawn_name),
                            input,
                            delta_ms as int,
                            *self,
                            ev,
                        ));
                    }
                }
                ev
            },
        }
    }

    /// Begin the level transition: the piece leaves play and the cascade
    /// starts from the grid's cells.
    fn start_level_transition(&mut self)
        requires
            old(self).spec_grid().wf(),
        ensures
            final(self).spec_grid().wf(),
            final(self).spec_state() == (GameState::LevelTransition { timer_ms: 0u32 }),
            final(self).spec_active_piece() is None,
            final(self).spec_score_manager() == old(self).spec_score_manager(),
            final(self).spec_grid().spec_width() == old(self).spec_grid().spec_width(),
            final(self).spec_grid().spec_height() == old(self).spec_grid().spec_height(),
            final(self).spec_grid().spec_visible_height() == old(
                self,
            ).spec_grid().spec_visible_height(),
            final(self).spec_grid().spec_is_cascading(),
            final(self).spec_grid().spec_cascading() == table_triples(
                old(self).spec_grid().cells(),
            ).map_values(|t: (i32, i32, u32)| cascade_cell_of(t)),
            forall|r: int|
                0 <= r < final(self).spec_grid().cells().len() ==> crate::table::row_empty(
                    #[trigger] final(self).spec_grid().cells()[r],
                ),
    {
        self.state = GameState::LevelTransition { timer_ms: 0 };
        self.active_piece = None;
        self.grid.start_cascade_animation();
    }

    /// Put a fresh random piece into play at the spawn position.
    fn spawn_new_piece(&mut self)
        requires
            old(self).wf(),
            old(self).spec_state() is Playing,
        ensures
            final(self).wf(),
            final(self).spec_grid() == old(self).spec_grid(),
            final(self).spec_score_manager() == old(self).spec_score_manager(),
            final(self).spec_state() == old(self).spec_state(),
            final(self).spec_active_piece() matches Some(p) && p.state() == fresh_piece_state(
                p.shape_name.spec_name(),
                old(self).spec_grid(),
            ) && spec_is_gameplay(p.shape_name.spec_name()) && p.color == shape_color(
                p.shape_name.spec_name(),
            ),
    {
        let grid_width = self.grid.width_cells();
        let spawn_cell_x = (grid_width / 2) as i32;
        let new_piece = TetrisShapeNode::new(
            SPAWN_VELOCITY,
            spawn_cell_x,
            SPAWN_ROW,
            grid_width,
            self.grid.height_cells(),
        );
        proof {
            assert(new_piece.state() =~= fresh_piece_state(
                new_piece.shape_name.spec_name(),
                old(self).spec_grid(),
            ));
        }
        self.active_piece = Some(new_piece);
    }
}

/// The rows bonus of any possible clear is at least one and fits well
/// under the multiplier cap.
proof fn lemma_rows_bonus_bounds(rows: u32)
    requires
        1 <= rows <= MAX_CLEARS_PER_LOCK,
    ensures
        1 <= rows_bonus(rows) <= pow2(MAX_CLEARS_PER_LOCK as nat) - 1,
        rows_bonus_stored(rows) == rows_bonus(rows),
        rows_bonus_stored(rows) <= 0x1000000,
{
    lemma2_to64();
    if rows >= 5 {
        lemma_pow2_strictly_increases(0, rows as nat);
        if rows < MAX_CLEARS_PER_LOCK {
            lemma_pow2_strictly_increases(rows as nat, MAX_CLEARS_PER_LOCK as nat);
        }
    }
    lemma_pow2_strictly_increases(MAX_CLEARS_PER_LOCK as nat, 32);
}

/// Under the headroom bound, the points of any clear of at most
/// `MAX_CLEARS_PER_LOCK` rows fit beside the score in 64 bits.
proof fn lemma_points_within_headroom(s: ScoreManager, rows: u32)
    requires
        s.wf(),
        score_headroom(s),
        1 <= rows <= MAX_CLEARS_PER_LOCK,
    ensures
        s.spec_score() + spec_points(
            rows,
            s.spec_multiplier(),
            ((s.spec_combo_count() + 1) as u32),
            s.spec_level(),
        ) <= u64::MAX,
{
    lemma_rows_bonus_bounds(rows);
    let b = rows_bonus(rows);
    let cap = pow2(MAX_CLEARS_PER_LOCK as nat) - 1;
    let m = s.spec_multiplier() as int;
    let c = crate::score::combo_multiplier(((s.spec_combo_count() + 1) as u32));
    let l = crate::score::level_multiplier(s.spec_level());
    assert(c == pow2(s.spec_combo_count() as nat));
    vstd::arithmetic::power2::lemma_pow2_pos(s.spec_combo_count() as nat);
    assert(BASE_POINTS_PER_ROW * b * m * c * l <= BASE_POINTS_PER_ROW * cap * m * c * 8)
        by (nonlinear_arith)
        requires
            1 <= b <= cap,
            m >= 1,
            c >= 1,
            1 <= l <= 8,
    ;
}

} // verus!

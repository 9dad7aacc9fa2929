//! The scoring engine: compounding multipliers, combos and level
//! progression.
//!
//! Points for a clear are `base × rowsBonus × previousMultiplier ×
//! comboMultiplier × levelMultiplier`, where the rows bonus of this clear
//! becomes the next clear's previous multiplier, the combo multiplier
//! doubles with each consecutive clearing lock, and the level multiplier
//! buckets the level at clear time.  A lock without a clear is the one
//! path that resets the multiplier and the combo.

use vstd::prelude::*;
use vstd::arithmetic::power2::{pow2, lemma_pow2_strictly_increases, lemma_pow2_pos, lemma2_to64};
use vstd::bits::lemma_u64_shl_is_mul;

verus! {

/// Base points per clear.
pub const BASE_POINTS_PER_ROW: u64 = 137;

/// Lines to clear per level.
pub const LINES_PER_LEVEL: u32 = 10;

/// The exponential bonus for clearing `rows` rows at once: 1, 3, 7, 15,
/// and `2^rows - 1` beyond.
pub open spec fn rows_bonus(rows: u32) -> int {
    if rows == 1 {
        1
    } else if rows == 2 {
        3
    } else if rows == 3 {
        7
    } else if rows == 4 {
        15
    } else {
        pow2(rows as nat) - 1
    }
}

/// The rows bonus as it is stored for the next clear's multiplier: the
/// same value, narrowed to 32 bits (every bonus that does not fit narrows
/// to the all-ones value).
pub open spec fn rows_bonus_stored(rows: u32) -> u32 {
    if rows_bonus(rows) <= u32::MAX {
        rows_bonus(rows) as u32
    } else {
        u32::MAX
    }
}

/// The combo multiplier for the `combo`-th consecutive clearing lock:
/// `2^(combo - 1)`.
pub open spec fn combo_multiplier(combo: u32) -> int
    recommends
        combo >= 1,
{
    pow2((combo - 1) as nat) as int
}

/// The level multiplier, bucketing the level at clear time.
pub open spec fn level_multiplier(level: u32) -> int {
    if level <= 4 {
        1
    } else if level <= 9 {
        2
    } else if level <= 14 {
        3
    } else if level <= 19 {
        5
    } else {
        8
    }
}

/// The points one clear awards, before any overflow concern:
/// `base × rowsBonus × previousMultiplier × comboMultiplier ×
/// levelMultiplier`, with the combo already counting this clear and the
/// level taken before the clear's lines are added.
pub open spec fn spec_points(
    rows: u32,
    previous_multiplier: u32,
    combo_after: u32,
    level_at_clear: u32,
) -> int {
    BASE_POINTS_PER_ROW * rows_bonus(rows) * previous_multiplier * combo_multiplier(combo_after)
        * level_multiplier(level_at_clear)
}

/// LAW — combo reset: a lock that clears nothing sets the multiplier to 1
/// and the combo to 0 (the contract of `on_piece_landed_no_clear`, its only
/// path), so the clear that follows starts from a previous multiplier of 1
/// and a combo of 1, and awards plain `base × rowsBonus × levelMultiplier`
/// points — however large the multiplier stood before the miss.
pub proof fn lemma_combo_reset_points(rows: u32, level: u32)
    ensures
        combo_multiplier(1) == 1,
        spec_points(rows, 1u32, 1u32, level) == BASE_POINTS_PER_ROW * rows_bonus(rows)
            * level_multiplier(level),
{
    lemma2_to64();
    assert(combo_multiplier(1) == pow2(0));
    let b = rows_bonus(rows);
    let l = level_multiplier(level);
    assert(BASE_POINTS_PER_ROW * b * 1 * 1 * l == BASE_POINTS_PER_ROW * b * l)
        by (nonlinear_arith);
}

/// The scoring state of one session.
pub struct ScoreManager {
    score: u64,
    lines_cleared: u32,
    level: u32,
    current_multiplier: u32,
    combo_count: u32,
    high_score: u64,
    high_score_needs_sync: bool,
    base_points_per_row: u64,
    lines_per_level: u32,
}

impl ScoreManager {
    /// The accumulated score.
    pub closed spec fn spec_score(&self) -> u64 {
        self.score
    }

    /// Total lines cleared this session.
    pub closed spec fn spec_lines_cleared(&self) -> u32 {
        self.lines_cleared
    }

    /// The current level.
    pub closed spec fn spec_level(&self) -> u32 {
        self.level
    }

    /// The multiplier the next clear will use as its previous multiplier.
    pub closed spec fn spec_multiplier(&self) -> u32 {
        self.current_multiplier
    }

    /// Consecutive clearing locks without an intervening no-clear lock.
    pub closed spec fn spec_combo_count(&self) -> u32 {
        self.combo_count
    }

    /// The best score seen, this session or loaded from outside.
    pub closed spec fn spec_high_score(&self) -> u64 {
        self.high_score
    }

    /// True while a freshly beaten high score awaits the persistence
    /// boundary.
    pub closed spec fn spec_high_score_needs_sync(&self) -> bool {
        self.high_score_needs_sync
    }

    /// The configured base points per clear.
    pub closed spec fn spec_base_points(&self) -> u64 {
        self.base_points_per_row
    }

    /// The configured lines per level.
    pub closed spec fn spec_lines_per_level(&self) -> u32 {
        self.lines_per_level
    }

    /// Shape invariant: the configuration is the fixed one, the level is
    /// derived from the lines, and the multiplier at least one.
    pub open spec fn wf(&self) -> bool {
        &&& self.spec_multiplier() >= 1
        &&& self.spec_level() == self.spec_lines_cleared() / LINES_PER_LEVEL
        &&& self.spec_base_points() == BASE_POINTS_PER_ROW
        &&& self.spec_lines_per_level() == LINES_PER_LEVEL
    }

    /// A fresh session: everything zero, the multiplier at one.  The high
    /// score starts at zero until the persistence boundary hands one in
    /// through `set_high_score`.
    pub fn new() -> (s: ScoreManager)
        ensures
            s.wf(),
            s.spec_score() == 0,
            s.spec_lines_cleared() == 0,
            s.spec_level() == 0,
            s.spec_multiplier() == 1,
            s.spec_combo_count() == 0,
            s.spec_high_score() == 0,
            !s.spec_high_score_needs_sync(),
    {
        ScoreManager {
            score: 0,
            lines_cleared: 0,
            level: 0,
            current_multiplier: 1,
            combo_count: 0,
            high_score: 0,
            high_score_needs_sync: false,
            base_points_per_row: BASE_POINTS_PER_ROW,
            lines_per_level: LINES_PER_LEVEL,
        }
    }

    /// The current score.
    pub fn score(&self) -> (r: u64)
        ensures
            r == self.spec_score(),
    {
        self.score
    }

    /// The current level.
    pub fn level(&self) -> (r: u32)
        ensures
            r == self.spec_level(),
    {
        self.level
    }

    /// Total lines cleared.
    pub fn lines_cleared(&self) -> (r: u32)
        ensures
            r == self.spec_lines_cleared(),
    {
        self.lines_cleared
    }

    /// The current multiplier.
    pub fn multiplier(&self) -> (r: u32)
        ensures
            r == self.spec_multiplier(),
    {
        self.current_multiplier
    }

    /// The current combo count.
    pub fn combo_count(&self) -> (r: u32)
        ensures
            r == self.spec_combo_count(),
    {
        self.combo_count
    }

    /// The high score.
    pub fn high_score(&self) -> (r: u64)
        ensures
            r == self.spec_high_score(),
    {
        self.high_score
    }

    /// True while a freshly beaten high score awaits the persistence
    /// boundary.
    pub fn high_score_needs_sync(&self) -> (r: bool)
        ensures
            r == self.spec_high_score_needs_sync(),
    {
        self.high_score_needs_sync
    }

    /// Record a clear of `rows_cleared` rows and return the points it
    /// awards.  Clearing nothing changes nothing and awards nothing.
    ///
    /// The numeric preconditions are machine limits: the shift widths must
    /// fit, the line counter must not wrap, and the awarded points must
    /// fit beside the score in 64 bits — the session would otherwise
    /// overflow exactly where unchecked arithmetic overflows.
    pub fn on_rows_cleared(&mut self, rows_cleared: u32) -> (points: u64)
        requires
            old(self).wf(),
            rows_cleared >= 1 ==> rows_cleared <= 63,
            rows_cleared >= 1 ==> old(self).spec_combo_count() + 1 <= 64,
            rows_cleared >= 1 ==> old(self).spec_lines_cleared() + rows_cleared <= u32::MAX,
            rows_cleared >= 1 ==> old(self).spec_score() + spec_points(
                rows_cleared,
                old(self).spec_multiplier(),
                (old(self).spec_combo_count() + 1) as u32,
                old(self).spec_level(),
            ) <= u64::MAX,
        ensures
            final(self).wf(),
            rows_cleared == 0 ==> *final(self) == *old(self) && points == 0,
            rows_cleared >= 1 ==> {
                &&& points == spec_points(
                    rows_cleared,
                    old(self).spec_multiplier(),
                    (old(self).spec_combo_count() + 1) as u32,
                    old(self).spec_level(),
                )
                &&& final(self).spec_score() == old(self).spec_score() + points
                &&& final(self).spec_lines_cleared() == old(self).spec_lines_cleared()
                    + rows_cleared
                &&& final(self).spec_level() == (old(self).spec_lines_cleared() + rows_cleared)
                    as u32 / LINES_PER_LEVEL
                &&& final(self).spec_combo_count() == old(self).spec_combo_count() + 1
                &&& final(self).spec_multiplier() == rows_bonus_stored(rows_cleared)
                &&& final(self).spec_high_score() == if final(self).spec_score() > old(
                    self,
                ).spec_high_score() {
                    final(self).spec_score()
                } else {
                    old(self).spec_high_score()
                }
                &&& final(self).spec_high_score_needs_sync() == (final(self).spec_score() > old(
                    self,
                ).spec_high_score() || old(self).spec_high_score_needs_sync())
            },
    {
        if rows_cleared == 0 {
            return 0;
        }
        // level before the clear, for the level multiplier
        let level_at_clear = self.level;
        self.lines_cleared = self.lines_cleared + rows_cleared;
        self.level = self.lines_cleared / self.lines_per_level;
        self.combo_count = self.combo_count + 1;

        let rows_bonus_multiplier: u64 = match rows_cleared {
            1 => 1,
            2 => 3,
            3 => 7,
            4 => 15,
            _ => {
                proof {
                    lemma_pow2_pos(rows_cleared as nat);
                    lemma2_to64();
                    lemma_pow2_strictly_increases(rows_cleared as nat, 64);
                    lemma_pow2_strictly_increases(0, rows_cleared as nat);
                    lemma_u64_shl_is_mul(1u64, rows_cleared as u64);
                }
                (1u64 << rows_cleared) - 1
            },
        };
        proof {
            assert(rows_bonus_multiplier == rows_bonus(rows_cleared));
        }
        let previous_multiplier = self.current_multiplier as u64;
        proof {
            lemma_pow2_pos((self.combo_count - 1) as nat);
            lemma_pow2_strictly_increases((self.combo_count - 1) as nat, 64);
            lemma2_to64();
            lemma_u64_shl_is_mul(1u64, (self.combo_count - 1) as u64);
        }
        let combo_multiplier_value = 1u64 << (self.combo_count - 1);
        let level_multiplier_value: u64 = if level_at_clear <= 4 {
            1
        } else if level_at_clear <= 9 {
            2
        } else if level_at_clear <= 14 {
            3
        } else if level_at_clear <= 19 {
            5
        } else {
            8
        };
        let ghost total = spec_points(
            rows_cleared,
            old(self).spec_multiplier(),
            (old(self).spec_combo_count() + 1) as u32,
            old(self).spec_level(),
        );
        proof {
            let b = rows_bonus_multiplier as int;
            let p = previous_multiplier as int;
            let c = combo_multiplier_value as int;
            let l = level_multiplier_value as int;
            assert(137 * b <= 137 * b * p && 137 * b * p <= 137 * b * p * c && 137 * b * p * c
                <= 137 * b * p * c * l && total == 137 * b * p * c * l) by (nonlinear_arith)
                requires
                    b >= 1,
                    p >= 1,
                    c >= 1,
                    l >= 1,
                    total == 137 * b * p * c * l,
            ;
        }
        let points = self.base_points_per_row * rows_bonus_multiplier * previous_multiplier
            * combo_multiplier_value * level_multiplier_value;
        self.score = self.score + points;

        if self.score > self.high_score {
            self.high_score = self.score;
            self.high_score_needs_sync = true;
        }
        // this clear's bonus becomes the next clear's previous multiplier,
        // narrowed as the field is
        let stored: u64 = if rows_bonus_multiplier > u32::MAX as u64 {
            u32::MAX as u64
        } else {
            rows_bonus_multiplier
        };
        self.current_multiplier = stored as u32;
        points
    }

    /// Record a lock that cleared nothing: the multiplier returns to one
    /// and the combo breaks.  This is the only reset path.
    pub fn on_piece_landed_no_clear(&mut self)
        requires
            old(self).wf(),
        ensures
            final(self).wf(),
            final(self).spec_multiplier() == 1,
            final(self).spec_combo_count() == 0,
            final(self).spec_score() == old(self).spec_score(),
            final(self).spec_lines_cleared() == old(self).spec_lines_cleared(),
            final(self).spec_level() == old(self).spec_level(),
            final(self).spec_high_score() == old(self).spec_high_score(),
            final(self).spec_high_score_needs_sync() == old(self).spec_high_score_needs_sync(),
    {
        self.current_multiplier = 1;
        self.combo_count = 0;
    }

    /// Take a high score from the persistence boundary; it is then in
    /// sync.
    pub fn set_high_score(&mut self, high_score: u64)
        requires
            old(self).wf(),
        ensures
            final(self).wf(),
            final(self).spec_high_score() == high_score,
            !final(self).spec_high_score_needs_sync(),
            final(self).spec_score() == old(self).spec_score(),
            final(self).spec_lines_cleared() == old(self).spec_lines_cleared(),
            final(self).spec_level() == old(self).spec_level(),
            final(self).spec_multiplier() == old(self).spec_multiplier(),
            final(self).spec_combo_count() == old(self).spec_combo_count(),
    {
        self.high_score = high_score;
        self.high_score_needs_sync = false;
    }
}

} // verus!

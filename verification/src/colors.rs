//! Identifiers for the colors that locked cells and pieces carry.
//!
//! The core never interprets a color: it is a tag stored with each occupied
//! cell and handed back to rendering collaborators, which map it to actual
//! pigments.

use vstd::prelude::*;

verus! {

/// Color of the straight piece.
pub const COLOR_CYAN: u32 = 0;

/// Color of the square piece.
pub const COLOR_YELLOW: u32 = 1;

/// Color of the tee piece.
pub const COLOR_MAGENTA: u32 = 2;

/// Color of the ell piece.
pub const COLOR_ORANGE: u32 = 3;

/// Color of the slew piece.
pub const COLOR_SOFTWARE_GREEN: u32 = 4;

/// Color of the display-only letter pieces.
pub const COLOR_WHITE: u32 = 5;

} // verus!

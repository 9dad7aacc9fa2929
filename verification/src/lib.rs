//! Core of a falling-block puzzle simulation: a bounded occupancy grid with
//! line clearing, an active piece with rotation, wall kicks and discrete
//! movement timing, a compounding score engine, and the frame-stepped game
//! state machine that drives them.

pub mod colors;
pub mod game;
pub mod grid;
pub mod piece;
pub mod score;
pub mod shape;
pub mod table;

//! Gameplay rules of a side-scrolling bird game: which obstacles have left the
//! field, when the score grows, when the round is over, and when the next pair
//! of obstacles is due.

pub mod controls;
pub mod field;
pub mod round;
pub mod score;
pub mod spawn;

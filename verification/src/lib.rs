//! A text console for a memory-mapped character-cell display.
//!
//! The display is a grid of 25 rows of 80 cells. Text always enters at the
//! last row; when that row is full, or on a line feed, every row moves up by
//! one and the last row is blanked.

pub mod color;
pub mod console;
pub mod laws;
pub mod print;
pub mod surface;
pub mod writer;

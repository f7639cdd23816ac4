//! Lines to draw on a display.
pub mod lines;
pub mod patterns;

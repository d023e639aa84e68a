//! Player control for a tile-based 2D platformer, on fixed-point values.
//!
//! Lengths are counted in thousandths of a pixel, speeds in thousandths of a
//! pixel per second and frame times in microseconds. The host engine turns its
//! own values into these before each call and back afterwards.
pub mod units;
pub mod chunk;
pub mod player;
pub mod collision;
pub mod plugin;

//! A minimal falling-block game: a single 1x1 active cell descends a fixed
//! logical grid one row per fall tick, can be nudged left, right or down by
//! held keys on control ticks, and freezes in place when it reaches the floor
//! or lands on top of an already frozen cell, after which a fresh active cell
//! appears at the spawn point. A separate module maps logical grid
//! coordinates to centered screen coordinates, exactly, as rationals.
//!
//! The host loop (windowing, input polling, drawing, timing) lives outside
//! this crate; it feeds key states in and reads positions and transforms out.

pub mod game;
pub mod transform;

//! A verified Advent-of-Code harness: a selection grammar for addressing
//! puzzles by year, day and part, a `Day` contract for daily solutions, the
//! per-year and global dispatch registries, and a wall-clock-budget
//! micro-benchmark engine.

use vstd::prelude::*;

pub mod bench;
pub mod clock;
pub mod day;
pub mod dir;
pub mod geom;
pub mod grid;
pub mod line;
pub mod num;
pub mod numfmt;
pub mod pos;
pub mod output;
pub mod progress;
pub mod misc;
pub mod range;
pub mod report;
pub mod runner;
pub mod selector;
pub mod textutil;
pub mod y2024;
pub mod y2025;
pub mod year;

verus! {

/// The largest day number a year's calendar can register.
pub const MAX_DAY: usize = 25;

} // verus!

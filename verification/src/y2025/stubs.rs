//! The rest of the 2025 calendar: registered day slots whose puzzle
//! algorithms are not part of the harness core.  Each runs as "not
//! implemented" and passes self-verification vacuously.

use vstd::prelude::*;

use crate::day::Day;

verus! {

pub struct Day2;

impl Day for Day2 {
    type Input = String;

    fn day() -> usize {
        2
    }

    fn parse_input(input: &str) -> Self::Input {
        input.to_owned()
    }
}

pub struct Day3;

impl Day for Day3 {
    type Input = String;

    fn day() -> usize {
        3
    }

    fn parse_input(input: &str) -> Self::Input {
        input.to_owned()
    }
}

pub struct Day4;

impl Day for Day4 {
    type Input = String;

    fn day() -> usize {
        4
    }

    fn parse_input(input: &str) -> Self::Input {
        input.to_owned()
    }
}

pub struct Day5;

impl Day for Day5 {
    type Input = String;

    fn day() -> usize {
        5
    }

    fn parse_input(input: &str) -> Self::Input {
        input.to_owned()
    }
}

pub struct Day6;

impl Day for Day6 {
    type Input = String;

    fn day() -> usize {
        6
    }

    fn parse_input(input: &str) -> Self::Input {
        input.to_owned()
    }
}

pub struct Day7;

impl Day for Day7 {
    type Input = String;

    fn day() -> usize {
        7
    }

    fn parse_input(input: &str) -> Self::Input {
        input.to_owned()
    }
}

pub struct Day8;

impl Day for Day8 {
    type Input = String;

    fn day() -> usize {
        8
    }

    fn parse_input(input: &str) -> Self::Input {
        input.to_owned()
    }
}

pub struct Day9;

impl Day for Day9 {
    type Input = String;

    fn day() -> usize {
        9
    }

    fn parse_input(input: &str) -> Self::Input {
        input.to_owned()
    }
}

pub struct Day10;

impl Day for Day10 {
    type Input = String;

    fn day() -> usize {
        10
    }

    fn parse_input(input: &str) -> Self::Input {
        input.to_owned()
    }
}

pub struct Day11;

impl Day for Day11 {
    type Input = String;

    fn day() -> usize {
        11
    }

    fn parse_input(input: &str) -> Self::Input {
        input.to_owned()
    }
}

pub struct Day12;

impl Day for Day12 {
    type Input = String;

    fn day() -> usize {
        12
    }

    fn parse_input(input: &str) -> Self::Input {
        input.to_owned()
    }
}

} // verus!

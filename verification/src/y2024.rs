//! The 2024 calendar: twenty-five registered day slots behind one
//! dispatcher, routing a day number to the matching day unit.

use vstd::prelude::*;

pub mod day_1;
pub mod day_10;
pub mod day_11;
pub mod day_12;
pub mod day_14;
pub mod day_17;
pub mod day_18;
pub mod day_2;
pub mod day_22;
pub mod day_24;
pub mod day_25;
pub mod day_3;
pub mod day_4;
pub mod day_5;
pub mod day_6;
pub mod day_7;
pub mod day_8;
pub mod day_9;
pub mod stubs;

use crate::day::Day;
use crate::year::Year;
use day_1::Day1;
use day_10::Day10;
use day_11::Day11;
use day_12::Day12;
use day_14::Day14;
use day_17::Day17;
use day_18::Day18;
use day_2::Day2;
use day_22::Day22;
use day_24::Day24;
use day_25::Day25;
use day_3::Day3;
use day_4::Day4;
use day_5::Day5;
use day_6::Day6;
use day_7::Day7;
use day_8::Day8;
use day_9::Day9;
use stubs::{Day13, Day15, Day16, Day19, Day20, Day21, Day23};

verus! {

/// The dispatcher over the closed set of 2024 days.
pub struct Year2024;

impl Year for Year2024 {
    open spec fn spec_year() -> usize {
        2024
    }

    open spec fn spec_max_day() -> usize {
        25
    }

    fn year() -> (y: usize)
        ensures
            y == Self::spec_year(),
    {
        2024
    }

    fn solve_day(day: usize, part: usize, input: Option<&str>) -> (r: Option<String>)
        ensures
            !(1 <= day <= Self::spec_max_day()) ==> r is None,
            day == 1 ==> call_ensures(Day1::run_part, (part, input), r),
            day == 2 ==> call_ensures(Day2::run_part, (part, input), r),
            day == 3 ==> call_ensures(Day3::run_part, (part, input), r),
            day == 4 ==> call_ensures(Day4::run_part, (part, input), r),
            day == 5 ==> call_ensures(Day5::run_part, (part, input), r),
            day == 6 ==> call_ensures(Day6::run_part, (part, input), r),
            day == 7 ==> call_ensures(Day7::run_part, (part, input), r),
            day == 8 ==> call_ensures(Day8::run_part, (part, input), r),
            day == 9 ==> call_ensures(Day9::run_part, (part, input), r),
            day == 10 ==> call_ensures(Day10::run_part, (part, input), r),
            day == 11 ==> call_ensures(Day11::run_part, (part, input), r),
            day == 12 ==> call_ensures(Day12::run_part, (part, input), r),
            day == 13 ==> call_ensures(Day13::run_part, (part, input), r),
            day == 14 ==> call_ensures(Day14::run_part, (part, input), r),
            day == 15 ==> call_ensures(Day15::run_part, (part, input), r),
            day == 16 ==> call_ensures(Day16::run_part, (part, input), r),
            day == 17 ==> call_ensures(Day17::run_part, (part, input), r),
            day == 18 ==> call_ensures(Day18::run_part, (part, input), r),
            day == 19 ==> call_ensures(Day19::run_part, (part, input), r),
            day == 20 ==> call_ensures(Day20::run_part, (part, input), r),
            day == 21 ==> call_ensures(Day21::run_part, (part, input), r),
            day == 22 ==> call_ensures(Day22::run_part, (part, input), r),
            day == 23 ==> call_ensures(Day23::run_part, (part, input), r),
            day == 24 ==> call_ensures(Day24::run_part, (part, input), r),
            day == 25 ==> call_ensures(Day25::run_part, (part, input), r),
    {
        match day {
            1 => Day1::run_part(part, input),
            2 => Day2::run_part(part, input),
            3 => Day3::run_part(part, input),
            4 => Day4::run_part(part, input),
            5 => Day5::run_part(part, input),
            6 => Day6::run_part(part, input),
            7 => Day7::run_part(part, input),
            8 => Day8::run_part(part, input),
            9 => Day9::run_part(part, input),
            10 => Day10::run_part(part, input),
            11 => Day11::run_part(part, input),
            12 => Day12::run_part(part, input),
            13 => Day13::run_part(part, input),
            14 => Day14::run_part(part, input),
            15 => Day15::run_part(part, input),
            16 => Day16::run_part(part, input),
            17 => Day17::run_part(part, input),
            18 => Day18::run_part(part, input),
            19 => Day19::run_part(part, input),
            20 => Day20::run_part(part, input),
            21 => Day21::run_part(part, input),
            22 => Day22::run_part(part, input),
            23 => Day23::run_part(part, input),
            24 => Day24::run_part(part, input),
            25 => Day25::run_part(part, input),
            _ => None,
        }
    }

    fn bench_day(day: usize, part: usize, input: Option<&str>) {
        match day {
            1 => Day1::bench_part(part, input),
            2 => Day2::bench_part(part, input),
            3 => Day3::bench_part(part, input),
            4 => Day4::bench_part(part, input),
            5 => Day5::bench_part(part, input),
            6 => Day6::bench_part(part, input),
            7 => Day7::bench_part(part, input),
            8 => Day8::bench_part(part, input),
            9 => Day9::bench_part(part, input),
            10 => Day10::bench_part(part, input),
            11 => Day11::bench_part(part, input),
            12 => Day12::bench_part(part, input),
            13 => Day13::bench_part(part, input),
            14 => Day14::bench_part(part, input),
            15 => Day15::bench_part(part, input),
            16 => Day16::bench_part(part, input),
            17 => Day17::bench_part(part, input),
            18 => Day18::bench_part(part, input),
            19 => Day19::bench_part(part, input),
            20 => Day20::bench_part(part, input),
            21 => Day21::bench_part(part, input),
            22 => Day22::bench_part(part, input),
            23 => Day23::bench_part(part, input),
            24 => Day24::bench_part(part, input),
            25 => Day25::bench_part(part, input),
            _ => (),
        }
    }

    fn solve_day_both_parts(day: usize, extra_indent: &str) {
        match day {
            1 => Day1::run_all_parts(extra_indent),
            2 => Day2::run_all_parts(extra_indent),
            3 => Day3::run_all_parts(extra_indent),
            4 => Day4::run_all_parts(extra_indent),
            5 => Day5::run_all_parts(extra_indent),
            6 => Day6::run_all_parts(extra_indent),
            7 => Day7::run_all_parts(extra_indent),
            8 => Day8::run_all_parts(extra_indent),
            9 => Day9::run_all_parts(extra_indent),
            10 => Day10::run_all_parts(extra_indent),
            11 => Day11::run_all_parts(extra_indent),
            12 => Day12::run_all_parts(extra_indent),
            13 => Day13::run_all_parts(extra_indent),
            14 => Day14::run_all_parts(extra_indent),
            15 => Day15::run_all_parts(extra_indent),
            16 => Day16::run_all_parts(extra_indent),
            17 => Day17::run_all_parts(extra_indent),
            18 => Day18::run_all_parts(extra_indent),
            19 => Day19::run_all_parts(extra_indent),
            20 => Day20::run_all_parts(extra_indent),
            21 => Day21::run_all_parts(extra_indent),
            22 => Day22::run_all_parts(extra_indent),
            23 => Day23::run_all_parts(extra_indent),
            24 => Day24::run_all_parts(extra_indent),
            25 => Day25::run_all_parts(extra_indent),
            _ => (),
        }
    }
}

} // verus!

//! The 2025 calendar: twelve registered day slots behind one dispatcher.

use vstd::prelude::*;

pub mod day_1;
pub mod stubs;

use crate::day::Day;
use crate::year::Year;
use day_1::Day1;
use stubs::{Day2, Day3, Day4, Day5, Day6, Day7, Day8, Day9, Day10, Day11, Day12};

verus! {

/// The dispatcher over the closed set of 2025 days.
pub struct Year2025;

impl Year for Year2025 {
    open spec fn spec_year() -> usize {
        2025
    }

    open spec fn spec_max_day() -> usize {
        12
    }

    fn year() -> (y: usize)
        ensures
            y == Self::spec_year(),
    {
        2025
    }

    fn solve_day(day: usize, part: usize, input: Option<&str>) -> (r: Option<String>)
        ensures
            !(1 <= day <= Self::spec_max_day()) ==> r is None,
            day == 1 ==> call_ensures(Day1::run_part, (part, input), r),
            day == 2 ==> call_ensures(Day2::run_part, (part, input), r),
            day == 3 ==> call_ensures(Day3::run_part, (part, input), r),
            day == 4 ==> call_ensures(Day4::run_part, (part, input), r),
            day == 5 ==> call_ensures(Day5::run_part, (part, input), r),
            day == 6 ==> call_ensures(Day6::run_part, (part, input), r),
            day == 7 ==> call_ensures(Day7::run_part, (part, input), r),
            day == 8 ==> call_ensures(Day8::run_part, (part, input), r),
            day == 9 ==> call_ensures(Day9::run_part, (part, input), r),
            day == 10 ==> call_ensures(Day10::run_part, (part, input), r),
            day == 11 ==> call_ensures(Day11::run_part, (part, input), r),
            day == 12 ==> call_ensures(Day12::run_part, (part, input), r),
    {
        match day {
            1 => Day1::run_part(part, input),
            2 => Day2::run_part(part, input),
            3 => Day3::run_part(part, input),
            4 => Day4::run_part(part, input),
            5 => Day5::run_part(part, input),
            6 => Day6::run_part(part, input),
            7 => Day7::run_part(part, input),
            8 => Day8::run_part(part, input),
            9 => Day9::run_part(part, input),
            10 => Day10::run_part(part, input),
            11 => Day11::run_part(part, input),
            12 => Day12::run_part(part, input),
            _ => None,
        }
    }

    fn bench_day(day: usize, part: usize, input: Option<&str>) {
        match day {
            1 => Day1::bench_part(part, input),
            2 => Day2::bench_part(part, input),
            3 => Day3::bench_part(part, input),
            4 => Day4::bench_part(part, input),
            5 => Day5::bench_part(part, input),
            6 => Day6::bench_part(part, input),
            7 => Day7::bench_part(part, input),
            8 => Day8::bench_part(part, input),
            9 => Day9::bench_part(part, input),
            10 => Day10::bench_part(part, input),
            11 => Day11::bench_part(part, input),
            12 => Day12::bench_part(part, input),
            _ => (),
        }
    }

    fn solve_day_both_parts(day: usize, extra_indent: &str) {
        match day {
            1 => Day1::run_all_parts(extra_indent),
            2 => Day2::run_all_parts(extra_indent),
            3 => Day3::run_all_parts(extra_indent),
            4 => Day4::run_all_parts(extra_indent),
            5 => Day5::run_all_parts(extra_indent),
            6 => Day6::run_all_parts(extra_indent),
            7 => Day7::run_all_parts(extra_indent),
            8 => Day8::run_all_parts(extra_indent),
            9 => Day9::run_all_parts(extra_indent),
            10 => Day10::run_all_parts(extra_indent),
            11 => Day11::run_all_parts(extra_indent),
            12 => Day12::run_all_parts(extra_indent),
            _ => (),
        }
    }
}

} // verus!

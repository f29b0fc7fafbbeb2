//! The contract every daily puzzle solution implements: parse the input,
//! solve part one, solve part two, with example fixtures and expected outputs
//! attached for self-verification.
//!
//! Implementations supply `parse_input` and override whichever parts they
//! have solved; everything else — running, timing, benchmarking, reporting,
//! self-verification — is shared logic provided here.

use vstd::prelude::*;

use crate::bench::bench;
use crate::clock::{elapsed_millis, instant_now};
use crate::output::print_line;
use crate::report::{
    answer_matches, bench_parse_line, bench_part_line, day_header_line, indented_part_line,
    part_report_line,
};

verus! {

/// One day of a year's puzzle calendar.
///
/// A part's solve function returns its answer as text, or `None` while the
/// part is unsolved; an absent answer is reported as not implemented and is
/// skipped, never failed, by self-verification.
pub trait Day {
    type Input: Clone;

    /// The ordinal of this day within its year, in `[1, MAX_DAY]`.
    fn day() -> usize {
        0
    }

    /// The example input for part 1.
    fn example_input_1() -> &'static str {
        ""
    }

    /// The example input for part 2.
    fn example_input_2() -> &'static str {
        ""
    }

    /// The expected answer of part 1 on its example input.
    fn expected_1() -> &'static str {
        ""
    }

    /// The expected answer of part 2 on its example input.
    fn expected_2() -> &'static str {
        ""
    }

    /// Convert raw puzzle text into this day's own representation.
    fn parse_input(input: &str) -> Self::Input;

    /// Solve part 1, or report that it is not implemented yet; a part that
    /// is not overridden reports exactly that.
    fn part_1(input: Self::Input) -> (r: Option<String>)
        default_ensures
            r is None,
    {
        let _ = input;
        None
    }

    /// Solve part 2, or report that it is not implemented yet; a part that
    /// is not overridden reports exactly that.
    fn part_2(input: Self::Input) -> (r: Option<String>)
        default_ensures
            r is None,
    {
        let _ = input;
        None
    }

    /// The stored example text for a part.
    fn get_example_input(part: usize) -> (s: &'static str)
        requires
            1 <= part <= 2,
        ensures
            part == 1 ==> call_ensures(Self::example_input_1, (), s),
            part == 2 ==> call_ensures(Self::example_input_2, (), s),
    {
        if part == 1 {
            Self::example_input_1()
        } else {
            Self::example_input_2()
        }
    }

    /// Run one part against `input`, or against the part's example when no
    /// input is supplied; print a one-line report with the elapsed time, and
    /// hand the answer back.  The answer is what the matching solve function
    /// returned for the parse of the chosen text.
    fn run_part(part: usize, input: Option<&str>) -> (r: Option<String>)
        requires
            1 <= part <= 2,
        ensures
            input matches Some(given) ==> exists|parsed: Self::Input|
                #[trigger] call_ensures(Self::parse_input, (given,), parsed) && (if part == 1 {
                    call_ensures(Self::part_1, (parsed,), r)
                } else {
                    call_ensures(Self::part_2, (parsed,), r)
                }),
            input is None ==> exists|example: &'static str, parsed: Self::Input|
                {
                    &&& (if part == 1 {
                        call_ensures(Self::example_input_1, (), example)
                    } else {
                        call_ensures(Self::example_input_2, (), example)
                    })
                    &&& #[trigger] call_ensures(Self::parse_input, (example,), parsed)
                    &&& (if part == 1 {
                        call_ensures(Self::part_1, (parsed,), r)
                    } else {
                        call_ensures(Self::part_2, (parsed,), r)
                    })
                },
    {
        let text: &str = match input {
            Some(text) => text,
            None => Self::get_example_input(part),
        };
        let timer = instant_now();
        let parsed = Self::parse_input(text);
        let solution = if part == 1 {
            Self::part_1(parsed)
        } else {
            Self::part_2(parsed)
        };
        let ms = elapsed_millis(&timer);
        let line = part_report_line(Self::day(), part, &solution, ms);
        print_line(line.as_str());
        solution
    }

    /// Benchmark one part: sample the parse function over the input, then the
    /// solve function over the parsed input, printing both reports.
    fn bench_part(part: usize, input: Option<&str>)
        requires
            1 <= part <= 2,
    {
        let text: &str = match input {
            Some(text) => text,
            None => Self::get_example_input(part),
        };
        let parse_run = bench(
            || -> Self::Input { Self::parse_input(text) },
        );
        let line = bench_parse_line(Self::day(), parse_run.mean_nanos, parse_run.samples);
        print_line(line.as_str());
        let parsed = parse_run.result;
        let solve_run = if part == 1 {
            bench(|| -> Option<String> { Self::part_1(parsed.clone()) })
        } else {
            bench(|| -> Option<String> { Self::part_2(parsed.clone()) })
        };
        let line = bench_part_line(Self::day(), part, solve_run.mean_nanos, solve_run.samples);
        print_line(line.as_str());
    }

    /// Run both parts against their own example inputs, printing a day header
    /// and one indented line per part.
    fn run_all_parts(extra_indent: &str) {
        let header = day_header_line(extra_indent, Self::day());
        print_line(header.as_str());
        let timer = instant_now();
        let solution = Self::part_1(Self::parse_input(Self::example_input_1()));
        let ms = elapsed_millis(&timer);
        let line = indented_part_line(extra_indent, 1, &solution, ms);
        print_line(line.as_str());
        let timer = instant_now();
        let solution = Self::part_2(Self::parse_input(Self::example_input_2()));
        let ms = elapsed_millis(&timer);
        let line = indented_part_line(extra_indent, 2, &solution, ms);
        print_line(line.as_str());
    }

    /// Run part 1 against its example and check the answer against the
    /// stored expected output.  An absent answer means the part is not
    /// implemented yet: the check is skipped and passes.
    fn assert_part_1() -> (ok: bool)
        ensures
            exists|actual: Option<String>, expected: &'static str|
                #![trigger call_ensures(Self::run_part, (1usize, None::<&str>), actual), call_ensures(Self::expected_1, (), expected)]
                {
                    &&& call_ensures(Self::run_part, (1usize, None::<&str>), actual)
                    &&& call_ensures(Self::expected_1, (), expected)
                    &&& ok == (actual is None || (actual matches Some(a) && a@ == expected@))
                },
    {
        let actual = Self::run_part(1, None);
        answer_matches(&actual, Self::expected_1())
    }

    /// Run part 2 against its example and check the answer against the
    /// stored expected output, skipping an absent answer as for part 1.
    fn assert_part_2() -> (ok: bool)
        ensures
            exists|actual: Option<String>, expected: &'static str|
                #![trigger call_ensures(Self::run_part, (2usize, None::<&str>), actual), call_ensures(Self::expected_2, (), expected)]
                {
                    &&& call_ensures(Self::run_part, (2usize, None::<&str>), actual)
                    &&& call_ensures(Self::expected_2, (), expected)
                    &&& ok == (actual is None || (actual matches Some(a) && a@ == expected@))
                },
    {
        let actual = Self::run_part(2, None);
        answer_matches(&actual, Self::expected_2())
    }
}

} // verus!

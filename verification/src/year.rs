//! The contract of a year's dispatcher: route a day number and part selector
//! to the right day of a fixed, closed calendar.

use vstd::prelude::*;

use crate::output::print_line;
use crate::report::year_header_line;
use crate::selector::{Selection, DP};
use crate::MAX_DAY;

verus! {

/// One year's registry of days.
///
/// `solve_day` quietly yields nothing for a day outside the calendar, while
/// `bench_day` refuses such a day outright: benchmarking a nonexistent
/// target is a usage mistake worth halting on.
pub trait Year {
    /// The calendar year this registry covers.
    spec fn spec_year() -> usize;

    /// How many days this year's calendar registers.
    spec fn spec_max_day() -> usize;

    /// The calendar year this registry covers.
    fn year() -> (y: usize)
        ensures
            y == Self::spec_year(),
    ;

    /// Run one part of one day, handing back its answer; a day outside the
    /// calendar yields nothing.
    fn solve_day(day: usize, part: usize, input: Option<&str>) -> (r: Option<String>)
        requires
            1 <= part <= 2,
        ensures
            !(1 <= day <= Self::spec_max_day()) ==> r is None,
    ;

    /// Benchmark one part of one registered day.
    fn bench_day(day: usize, part: usize, input: Option<&str>)
        requires
            1 <= day <= Self::spec_max_day(),
            1 <= part <= 2,
    ;

    /// Run both parts of one day against its examples; a day outside the
    /// calendar does nothing.
    fn solve_day_both_parts(day: usize, extra_indent: &str);

    /// Run both parts of every day of the calendar, under a year header.
    fn solve_all_days() {
        let header = year_header_line(Self::year());
        print_line(header.as_str());
        let mut day: usize = 1;
        while day <= MAX_DAY
            invariant
                1 <= day <= MAX_DAY + 1,
            decreases MAX_DAY + 1 - day,
        {
            Self::solve_day_both_parts(day, "  ");
            day = day + 1;
        }
    }

    /// The year-level entry point: a day wildcard runs every day, an exact
    /// day with a part wildcard runs both its parts, and an exact day and
    /// part runs exactly that part with the supplied input.
    fn run_dp(input: Option<&str>, dp: DP)
        requires
            dp.day is Single ==> (dp.part matches Selection::Single(p) ==> 1 <= p <= 2),
    {
        match dp.day {
            Selection::All => Self::solve_all_days(),
            Selection::Single(day) => match dp.part {
                Selection::All => Self::solve_day_both_parts(day, ""),
                Selection::Single(part) => {
                    let _ = Self::solve_day(day, part, input);
                },
            },
        }
    }

    /// The year-level benchmark entry point: only a fully exact day and part
    /// is a meaningful benchmark target, and the day must be registered.
    fn bench_dp(input: Option<&str>, dp: DP)
        requires
            dp.day matches Selection::Single(d) && 1 <= d <= Self::spec_max_day(),
            dp.part matches Selection::Single(p) && 1 <= p <= 2,
    {
        match dp.day {
            Selection::Single(day) => match dp.part {
                Selection::Single(part) => Self::bench_day(day, part, input),
                Selection::All => (),
            },
            Selection::All => (),
        }
    }
}

} // verus!

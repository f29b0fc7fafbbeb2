//! The global registry: route a year number to the matching year registry,
//! with wildcard fan-out across every registered year.

use vstd::prelude::*;

use crate::output::print_line;
use crate::report::unknown_year_line;
use crate::selector::{Selection, DP, YDP};
use crate::y2024::Year2024;
use crate::year::Year;

verus! {

/// Whether a day/part selector can be run against any year registry: an
/// exact part must name part 1 or 2 when an exact day is named.
pub open spec fn runnable_dp(dp: DP) -> bool {
    dp.day is Single ==> (dp.part matches Selection::Single(p) ==> 1 <= p <= 2)
}

/// Whether a day/part selector is a valid benchmark target for a registry of
/// `max_day` days: exactly one registered day and one part.
pub open spec fn benchable_dp(dp: DP, max_day: usize) -> bool {
    &&& dp.day matches Selection::Single(d) && 1 <= d <= max_day
    &&& dp.part matches Selection::Single(p) && 1 <= p <= 2
}

/// Run a day/part selection of one year, or print a diagnostic and do
/// nothing for a year outside the registry.
pub fn run_year(year: usize, dp: DP, input: Option<&str>)
    requires
        runnable_dp(dp),
{
    match year {
        2024 => Year2024::run_dp(input, dp),
        _ => {
            let line = unknown_year_line(year);
            print_line(line.as_str());
        },
    }
}

/// Benchmark a day/part selection of one registered year.  A benchmark
/// target outside the registry is a fatal usage mistake, so an unregistered
/// year is excluded here and refused at the command line.
pub fn bench_year(year: usize, dp: DP, input: Option<&str>)
    requires
        year == 2024,
        benchable_dp(dp, Year2024::spec_max_day()),
{
    match year {
        2024 => Year2024::bench_dp(input, dp),
        _ => (),
    }
}

/// Run a day/part selection of every registered year.
pub fn run_all_years(dp: &DP, input: Option<&str>)
    requires
        runnable_dp(*dp),
{
    Year2024::run_dp(input, *dp);
}

/// The `solve`/`run` entry point: fan out over the years a selector names.
pub fn run_ydp(ydp: YDP, input: Option<&str>)
    requires
        runnable_dp(DP { day: ydp.day, part: ydp.part }),
{
    let dp = ydp.to_dp();
    match ydp.year {
        Selection::All => run_all_years(&dp, input),
        Selection::Single(year) => run_year(year, dp, input),
    }
}

/// The `bench` entry point: a benchmark must name exactly one registered
/// year, day and part.
pub fn bench_ydp(ydp: YDP, input: Option<&str>)
    requires
        ydp.year matches Selection::Single(y) && y == 2024 && benchable_dp(
            DP { day: ydp.day, part: ydp.part },
            Year2024::spec_max_day(),
        ),
{
    let dp = ydp.to_dp();
    match ydp.year {
        Selection::Single(year) => bench_year(year, dp, input),
        Selection::All => (),
    }
}

} // verus!

//! The micro-benchmark engine: run a thunk repeatedly under a fixed
//! wall-clock budget, collecting a sample count and a mean duration.
//!
//! The budget is checked only between invocations, never during one, so every
//! benchmark takes at least one sample whatever the clock reads.

use vstd::prelude::*;

use crate::clock::{elapsed_nanos, elapsed_secs, instant_now};
use crate::numfmt::format_usize;
use crate::progress::{
    budget_template_style, progress_new, progress_set_message, progress_set_position,
    progress_set_style, style_progress_chars,
};

verus! {

/// The wall-clock budget of one benchmark run, in seconds.
pub const BENCH_SECS: u64 = 5;

/// What one benchmark run yields: the arithmetic mean of the samples'
/// durations, how many samples were taken, and the first invocation's result,
/// kept for a sanity print.  The recorded durations themselves are kept as a
/// ghost sequence, so the mean can be stated over them.
pub struct BenchResult<R> {
    pub mean_nanos: u128,
    pub samples: usize,
    pub result: R,
    pub durations: Ghost<Seq<u128>>,
}

/// The sum of a run's recorded durations.
pub open spec fn spec_nanos_sum(s: Seq<u128>) -> nat
    decreases s.len(),
{
    if s.len() == 0 {
        0
    } else {
        spec_nanos_sum(s.drop_last()) + s.last() as nat
    }
}

/// A progress bar drawn over the benchmark budget, if the terminal style
/// builds.
fn budget_progress_bar() -> Option<indicatif::ProgressBar> {
    match budget_template_style() {
        None => None,
        Some(style) => {
            let style = style_progress_chars(style);
            let bar = progress_new(BENCH_SECS);
            progress_set_style(&bar, style);
            Some(bar)
        },
    }
}

/// Report on the bar, if there is one, how far into the budget the run is and
/// how many samples it has taken.
fn report_progress(bar: &Option<indicatif::ProgressBar>, samples: usize, secs: u64) {
    match bar {
        None => (),
        Some(bar) => {
            let msg = format_usize(samples).concat(" Runs");
            progress_set_message(bar, msg);
            progress_set_position(bar, secs);
        },
    }
}

/// Invoke `thunk` repeatedly until the wall clock has moved past the budget,
/// timing each invocation.  At least one sample is always taken, the result
/// kept is one the thunk really returned, the sample count is the number of
/// recorded durations, and whenever their sum fits the accumulator (any real
/// run's does), the reported mean is exactly their arithmetic mean.
pub fn bench<R, F: Fn() -> R>(thunk: F) -> (b: BenchResult<R>)
    requires
        call_requires(thunk, ()),
    ensures
        b.samples >= 1,
        call_ensures(thunk, (), b.result),
        b.durations@.len() >= 1,
        b.samples as nat == if b.durations@.len() <= usize::MAX {
            b.durations@.len()
        } else {
            usize::MAX as nat
        },
        spec_nanos_sum(b.durations@) <= u128::MAX ==> b.mean_nanos as nat == spec_nanos_sum(
            b.durations@,
        ) / (b.samples as nat),
{
    let bar = budget_progress_bar();
    let budget_start = instant_now();
    let timer = instant_now();
    let result = thunk();
    let mut total_nanos: u128 = elapsed_nanos(&timer);
    let ghost mut recorded: Seq<u128> = seq![total_nanos];
    let mut samples: usize = 1;
    proof {
        assert(recorded.drop_last() =~= Seq::<u128>::empty());
        assert(spec_nanos_sum(Seq::<u128>::empty()) == 0);
        assert(recorded.last() == total_nanos);
        assert(spec_nanos_sum(recorded) == total_nanos);
    }
    report_progress(&bar, samples, elapsed_secs(&budget_start));
    while samples < usize::MAX && elapsed_secs(&budget_start) <= BENCH_SECS
        invariant
            samples >= 1,
            call_requires(thunk, ()),
            recorded.len() >= 1,
            samples as nat == if recorded.len() <= usize::MAX {
                recorded.len()
            } else {
                usize::MAX as nat
            },
            spec_nanos_sum(recorded) <= u128::MAX ==> total_nanos == spec_nanos_sum(recorded),
        decreases usize::MAX - samples,
    {
        let timer = instant_now();
        let _ = thunk();
        let sample_nanos = elapsed_nanos(&timer);
        proof {
            assert(recorded.push(sample_nanos).drop_last() =~= recorded);
            assert(spec_nanos_sum(recorded.push(sample_nanos)) == spec_nanos_sum(recorded)
                + sample_nanos);
        }
        total_nanos = if total_nanos <= u128::MAX - sample_nanos {
            total_nanos + sample_nanos
        } else {
            u128::MAX
        };
        proof {
            recorded = recorded.push(sample_nanos);
        }
        samples = samples + 1;
        report_progress(&bar, samples, elapsed_secs(&budget_start));
    }
    let mean_nanos = total_nanos / (samples as u128);
    BenchResult { mean_nanos, samples, result, durations: Ghost(recorded) }
}

} // verus!

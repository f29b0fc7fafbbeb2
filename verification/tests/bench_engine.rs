//! The benchmark engine's sample floor: even a thunk slower than the whole
//! budget yields at least one sample.

use std::time::Instant;

use advent::bench::bench;

#[test]
fn test_bench_takes_at_least_one_sample() {
    // One invocation outlasts the whole five-second budget: the budget is
    // only checked between invocations, so exactly this one sample is taken.
    let run = bench(|| {
        let start = Instant::now();
        let mut spin = 0u64;
        while start.elapsed().as_millis() < 6100 {
            spin = spin.wrapping_add(1);
        }
        spin
    });
    assert!(run.samples >= 1);
    assert_eq!(run.samples, 1);
}

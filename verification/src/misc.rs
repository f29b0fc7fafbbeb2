//! Assorted helpers shared by daily solutions: occurrence counting and
//! sequence-shape checks.

use core::ops::Range;
use std::collections::HashMap;

use vstd::prelude::*;

verus! {

/// How a sequence of values relates to a required difference range.
#[derive(Debug, Eq, PartialEq, Clone, Copy, Structural)]
pub enum FollowRangeResult {
    InvalidPair(i64, i64),
    Increasing,
    Decreasing,
    Fluctuates,
    ListTooShort,
}

/// Whether `d` lies in the half-open range `[lo, hi)`.
pub open spec fn in_diff_range(lo: int, hi: int, d: int) -> bool {
    lo <= d < hi
}

/// The scan over consecutive pairs from index `i` on, carrying the ordering
/// seen so far: a pair whose difference leaves the range (or, once a
/// direction is fixed, reverses it) fails, and the ordering that survives
/// the whole scan is the result.
pub open spec fn spec_follow_scan(
    l: Seq<i64>,
    lo: int,
    hi: int,
    enforce_one_way: bool,
    allow_eq: bool,
    i: int,
    ordering: FollowRangeResult,
) -> FollowRangeResult
    decreases l.len() - i,
{
    if i < 0 || i + 1 >= l.len() {
        ordering
    } else {
        let x = l[i];
        let y = l[i + 1];
        let d = y - x;
        if in_diff_range(lo, hi, d) && (allow_eq || d != 0) {
            if ordering is Fluctuates && d != 0 {
                spec_follow_scan(
                    l,
                    lo,
                    hi,
                    enforce_one_way,
                    allow_eq,
                    i + 1,
                    if d < 0 {
                        FollowRangeResult::Decreasing
                    } else {
                        FollowRangeResult::Increasing
                    },
                )
            } else if (enforce_one_way && ordering is Increasing && d < 0) || (
            ordering is Decreasing && d > 0) {
                FollowRangeResult::InvalidPair(x, y)
            } else {
                spec_follow_scan(l, lo, hi, enforce_one_way, allow_eq, i + 1, ordering)
            }
        } else {
            FollowRangeResult::InvalidPair(x, y)
        }
    }
}

/// What `follows_diff_range` reports for a sequence.
pub open spec fn spec_follows_diff_range(
    l: Seq<i64>,
    lo: int,
    hi: int,
    enforce_one_way: bool,
    allow_eq: bool,
) -> FollowRangeResult {
    if l.len() < 2 {
        FollowRangeResult::ListTooShort
    } else if in_diff_range(lo, hi, l[1] - l[0]) {
        spec_follow_scan(l, lo, hi, enforce_one_way, allow_eq, 1, FollowRangeResult::Fluctuates)
    } else {
        FollowRangeResult::InvalidPair(l[0], l[1])
    }
}

/// Classify how `l`'s consecutive differences relate to `diff_range`: too
/// short, consistently increasing or decreasing, fluctuating, or failing at
/// a first invalid pair.
pub fn follows_diff_range(
    l: &Vec<i64>,
    diff_range: Range<i64>,
    enforce_one_way: bool,
    allow_eq: bool,
) -> (r: FollowRangeResult)
    ensures
        r == spec_follows_diff_range(
            l@,
            diff_range.start as int,
            diff_range.end as int,
            enforce_one_way,
            allow_eq,
        ),
{
    let lo = diff_range.start as i128;
    let hi = diff_range.end as i128;
    if l.len() < 2 {
        return FollowRangeResult::ListTooShort;
    }
    let first_diff = l[1] as i128 - l[0] as i128;
    if !(lo <= first_diff && first_diff < hi) {
        return FollowRangeResult::InvalidPair(l[0], l[1]);
    }
    let mut ordering = FollowRangeResult::Fluctuates;
    let mut i: usize = 1;
    while i + 1 < l.len()
        invariant
            1 <= i < l@.len(),
            2 <= l@.len() <= usize::MAX,
            lo == diff_range.start as int,
            hi == diff_range.end as int,
            spec_follows_diff_range(
                l@,
                diff_range.start as int,
                diff_range.end as int,
                enforce_one_way,
                allow_eq,
            ) == spec_follow_scan(
                l@,
                diff_range.start as int,
                diff_range.end as int,
                enforce_one_way,
                allow_eq,
                i as int,
                ordering,
            ),
        decreases l@.len() - i,
    {
        let x = l[i];
        let y = l[i + 1];
        let d = y as i128 - x as i128;
        if lo <= d && d < hi && (allow_eq || d != 0) {
            let fluctuates = match ordering {
                FollowRangeResult::Fluctuates => true,
                _ => false,
            };
            let increasing = match ordering {
                FollowRangeResult::Increasing => true,
                _ => false,
            };
            let decreasing = match ordering {
                FollowRangeResult::Decreasing => true,
                _ => false,
            };
            if fluctuates && d != 0 {
                ordering = if d < 0 {
                    FollowRangeResult::Decreasing
                } else {
                    FollowRangeResult::Increasing
                };
            } else if (enforce_one_way && increasing && d < 0) || (decreasing && d > 0) {
                return FollowRangeResult::InvalidPair(x, y);
            }
        } else {
            return FollowRangeResult::InvalidPair(x, y);
        }
        i = i + 1;
    }
    ordering
}

/// Every way of leaving one element out of `l`, in order of the left-out
/// index.
pub fn all_combos_remove_one<T: Copy>(l: &Vec<T>) -> (r: Vec<Vec<T>>)
    ensures
        r@.len() == l@.len(),
        forall|e: int| 0 <= e < r@.len() ==> (#[trigger] r@[e])@ == l@.remove(e),
{
    let mut r: Vec<Vec<T>> = Vec::new();
    let mut exclude: usize = 0;
    while exclude < l.len()
        invariant
            0 <= exclude <= l@.len(),
            r@.len() == exclude,
            forall|e: int| 0 <= e < exclude ==> (#[trigger] r@[e])@ == l@.remove(e),
        decreases l@.len() - exclude,
    {
        let mut shorter: Vec<T> = Vec::new();
        let mut i: usize = 0;
        while i < l.len()
            invariant
                exclude < l@.len(),
                0 <= i <= l@.len(),
                shorter@ =~= if i <= exclude {
                    l@.subrange(0, i as int)
                } else {
                    l@.subrange(0, exclude as int) + l@.subrange(exclude as int + 1, i as int)
                },
            decreases l@.len() - i,
        {
            if i != exclude {
                shorter.push(l[i]);
            }
            i = i + 1;
        }
        proof {
            assert(shorter@ =~= l@.remove(exclude as int));
        }
        r.push(shorter);
        exclude = exclude + 1;
    }
    r
}

/// Count how often each value occurs in `v`.
pub fn counts<T: Copy + Eq + std::hash::Hash>(v: &Vec<T>) -> (m: HashMap<T, u64>)
    requires
        vstd::std_specs::hash::obeys_key_model::<T>(),
    ensures
        forall|x: T| #[trigger] m@.contains_key(x) <==> v@.contains(x),
        forall|x: T| #[trigger]
            m@.contains_key(x) ==> m@[x] as nat == v@.to_multiset().count(x),
{
    broadcast use vstd::std_specs::hash::group_hash_axioms;
    broadcast use vstd::seq_lib::group_to_multiset_ensures;

    let mut m: HashMap<T, u64> = HashMap::new();
    let mut i: usize = 0;
    while i < v.len()
        invariant
            vstd::std_specs::hash::obeys_key_model::<T>(),
            0 <= i <= v@.len(),
            forall|x: T| #[trigger]
                m@.contains_key(x) <==> v@.subrange(0, i as int).contains(x),
            forall|x: T| #[trigger]
                m@.contains_key(x) ==> m@[x] as nat == v@.subrange(0, i as int).to_multiset().count(
                x),
            forall|x: T| #[trigger] m@.contains_key(x) ==> m@[x] <= i as u64,
        decreases v@.len() - i,
    {
        broadcast use vstd::std_specs::hash::group_hash_axioms;
        broadcast use vstd::seq_lib::group_to_multiset_ensures;

        let ghost prefix = v@.subrange(0, i as int);
        let ghost longer = v@.subrange(0, i as int + 1);
        proof {
            assert(longer =~= prefix.push(v@[i as int]));
            assert(longer.to_multiset() =~= prefix.to_multiset().insert(v@[i as int]));
        }
        let x = v[i];
        let previous: u64 = match m.get(&x) {
            Some(c) => *c,
            None => 0,
        };
        m.insert(x, previous + 1);
        proof {
            let ghost z = v@[i as int];
            assert forall|y: T| #[trigger] longer.contains(y) <==> (prefix.contains(y) || y
                == z) by {
                vstd::seq_lib::lemma_seq_contains_after_push(prefix, z, y);
            }
        }
        i = i + 1;
    }
    proof {
        assert(v@.subrange(0, v@.len() as int) =~= v@);
    }
    m
}

} // verus!

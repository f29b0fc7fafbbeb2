//! Day 1: pair up two columns of location identifiers, sum the distances
//! between the sorted columns, then score similarity by occurrence counts.

use vstd::prelude::*;

use crate::day::Day;
use crate::misc::counts;
use crate::numfmt::format_u128;
use crate::textutil::{parse_i32, split_char, tokens};

verus! {

pub struct Day1;

/// The two columns of location identifiers.
#[derive(Clone)]
pub struct Columns {
    pub left: Vec<i32>,
    pub right: Vec<i32>,
}

/// Whether `s` is ordered from least to greatest.
pub open spec fn sorted_i32(s: Seq<i32>) -> bool {
    forall|i: int, j: int| 0 <= i <= j < s.len() ==> s[i] <= s[j]
}

/// The summed absolute differences of the first `n` pairs of two columns.
pub open spec fn spec_abs_sum(ls: Seq<i32>, rs: Seq<i32>, n: int) -> nat
    decreases n,
{
    if n <= 0 || n > ls.len() || n > rs.len() {
        0
    } else {
        spec_abs_sum(ls, rs, n - 1) + (if ls[n - 1] < rs[n - 1] {
            (rs[n - 1] - ls[n - 1]) as nat
        } else {
            (ls[n - 1] - rs[n - 1]) as nat
        })
    }
}

/// The shorter of the two columns' lengths.
pub open spec fn spec_pair_count(ls: Seq<i32>, rs: Seq<i32>) -> int {
    if ls.len() <= rs.len() {
        ls.len() as int
    } else {
        rs.len() as int
    }
}

/// The similarity score of the first `i` left entries: each non-negative
/// left value weighted by how often it occurs on the right.
pub open spec fn spec_similarity(left: Seq<i32>, right: Seq<i32>, i: int) -> nat
    decreases i,
{
    if i <= 0 || i > left.len() {
        0
    } else {
        spec_similarity(left, right, i - 1) + (if left[i - 1] < 0 {
            0nat
        } else {
            (left[i - 1] as nat) * right.to_multiset().count(left[i - 1])
        })
    }
}

/// Similarity scores of prefixes never shrink.
proof fn lemma_similarity_monotone(left: Seq<i32>, right: Seq<i32>, i: int, j: int)
    requires
        0 <= i <= j <= left.len(),
    ensures
        spec_similarity(left, right, i) <= spec_similarity(left, right, j),
    decreases j - i,
{
    if i < j {
        lemma_similarity_monotone(left, right, i, j - 1);
    }
}

/// Sort by repeatedly extracting a least element.
fn sort_i32(v: Vec<i32>) -> (r: Vec<i32>)
    ensures
        sorted_i32(r@),
        r@.to_multiset() == v@.to_multiset(),
{
    broadcast use vstd::seq_lib::group_to_multiset_ensures;

    let mut src = v;
    let mut out: Vec<i32> = Vec::new();
    let ghost all = v@.to_multiset();
    while src.len() > 0
        invariant
            sorted_i32(out@),
            out@.to_multiset().add(src@.to_multiset()) =~= all,
            forall|i: int, j: int|
                0 <= i < out@.len() && 0 <= j < src@.len() ==> out@[i] <= src@[j],
        decreases src.len(),
    {
        let mut m: usize = 0;
        let mut k: usize = 1;
        while k < src.len()
            invariant
                0 <= m < k <= src.len(),
                forall|j: int| 0 <= j < k ==> src@[m as int] <= src@[j],
            decreases src.len() - k,
        {
            if src[k] < src[m] {
                m = k;
            }
            k = k + 1;
        }
        let ghost src_before = src@;
        let ghost out_before = out@;
        let x = src.remove(m);
        out.push(x);
        proof {
            vstd::seq_lib::to_multiset_contains(src_before, src_before[m as int]);
            vstd::seq_lib::to_multiset_build(out_before, x);
            vstd::seq_lib::to_multiset_remove(src_before, m as int);
            assert(src_before.contains(src_before[m as int]));
            assert(src_before.to_multiset().count(src_before[m as int]) > 0);
            assert(out@ == out_before.push(x));
            assert(out_before.push(x).to_multiset() =~= out_before.to_multiset().insert(x));
            assert(src@ == src_before.remove(m as int));
            assert(src_before.remove(m as int).to_multiset() =~= src_before.to_multiset().remove(
                src_before[m as int],
            ));
            assert(out@.to_multiset().add(src@.to_multiset()) =~= out_before.to_multiset().add(
                src_before.to_multiset(),
            ));
            assert(forall|k: int| 0 <= k < out_before.len() ==> out_before[k] <= x);
        }
    }
    proof {
        assert(out@.to_multiset().add(src@.to_multiset()) =~= out@.to_multiset());
    }
    out
}

impl Day for Day1 {
    type Input = Columns;

    fn day() -> usize {
        1
    }

    fn example_input_1() -> &'static str {
        "3   4\n4   3\n2   5\n1   3\n3   9\n3   3"
    }

    fn example_input_2() -> &'static str {
        "3   4\n4   3\n2   5\n1   3\n3   9\n3   3"
    }

    fn expected_1() -> &'static str {
        "11"
    }

    fn expected_2() -> &'static str {
        "31"
    }

    /// Each line holds a left and a right number; malformed lines are
    /// dropped, as there is no recovery path for bad puzzle input.
    fn parse_input(input: &str) -> Self::Input {
        let lines = split_char(input, '\n');
        let mut left: Vec<i32> = Vec::new();
        let mut right: Vec<i32> = Vec::new();
        let mut i: usize = 0;
        while i < lines.len()
            decreases lines.len() - i,
        {
            let toks = tokens(lines[i]);
            if toks.len() >= 2 {
                match (parse_i32(toks[0]), parse_i32(toks[1])) {
                    (Some(l), Some(r)) => {
                        left.push(l);
                        right.push(r);
                    },
                    _ => (),
                }
            }
            i = i + 1;
        }
        Columns { left, right }
    }

    /// The total distance: the sum of pairwise absolute differences of the
    /// two columns once each is sorted, in decimal.
    fn part_1(input: Self::Input) -> (r: Option<String>)
        ensures
            exists|ls: Seq<i32>, rs: Seq<i32>|
                #![trigger ls.to_multiset(), rs.to_multiset()]
                {
                    &&& sorted_i32(ls)
                    &&& ls.to_multiset() == input.left@.to_multiset()
                    &&& sorted_i32(rs)
                    &&& rs.to_multiset() == input.right@.to_multiset()
                    &&& (r matches Some(a) && a@ == crate::numfmt::dec_digits(
                        spec_abs_sum(ls, rs, spec_pair_count(ls, rs)),
                    ))
                },
    {
        let l = sort_i32(input.left);
        let r = sort_i32(input.right);
        let n = if l.len() < r.len() {
            l.len()
        } else {
            r.len()
        };
        let mut total: u128 = 0;
        let mut i: usize = 0;
        while i < n
            invariant
                n == spec_pair_count(l@, r@),
                n <= l@.len(),
                n <= r@.len(),
                total <= (i as u128) * 0x1_0000_0000,
                i <= n,
                total == spec_abs_sum(l@, r@, i as int),
            decreases n - i,
        {
            let a = l[i] as i64;
            let b = r[i] as i64;
            let d: i64 = if a < b {
                b - a
            } else {
                a - b
            };
            proof {
                assert((i as u128) * 0x1_0000_0000 + 0x1_0000_0000 == ((i + 1) as u128)
                    * 0x1_0000_0000) by (nonlinear_arith);
                assert(((i + 1) as u128) * 0x1_0000_0000 <= (n as u128) * 0x1_0000_0000)
                    by (nonlinear_arith)
                    requires
                        i + 1 <= n,
                ;
                assert((n as u128) * 0x1_0000_0000 < u128::MAX) by (nonlinear_arith)
                    requires
                        n <= usize::MAX,
                ;
            }
            total = total + (d as u128);
            i = i + 1;
        }
        proof {
            assert(total == spec_abs_sum(l@, r@, spec_pair_count(l@, r@)));
        }
        Some(format_u128(total))
    }

    /// The similarity score: each non-negative left number weighted by how
    /// often it appears in the right column.  Whenever that sum fits the
    /// accumulator (any real input's does), the answer is exactly the score
    /// in decimal; past that it saturates.
    fn part_2(input: Self::Input) -> (r: Option<String>)
        ensures
            spec_similarity(input.left@, input.right@, input.left@.len() as int) <= u128::MAX
                ==> (r matches Some(a) && a@ == crate::numfmt::dec_digits(
                spec_similarity(input.left@, input.right@, input.left@.len() as int),
            )),
    {
        let l = input.left;
        let occurrences = counts(&input.right);
        let mut total: u128 = 0;
        let mut i: usize = 0;
        while i < l.len()
            invariant
                l@ == input.left@,
                i <= l@.len(),
                forall|y: i32| #[trigger]
                    occurrences@.contains_key(y) <==> input.right@.contains(y),
                forall|y: i32| #[trigger]
                    occurrences@.contains_key(y) ==> occurrences@[y] as nat
                        == input.right@.to_multiset().count(y),
                spec_similarity(input.left@, input.right@, input.left@.len() as int) <= u128::MAX
                    ==> total == spec_similarity(input.left@, input.right@, i as int),
            decreases l@.len() - i,
        {
            let x = l[i];
            let weight: u64 = if x < 0 {
                0
            } else {
                x as u64
            };
            let count: u64 = match occurrences.get(&x) {
                Some(c) => *c,
                None => 0,
            };
            proof {
                vstd::seq_lib::to_multiset_contains(input.right@, x);
                lemma_similarity_monotone(input.left@, input.right@, i as int + 1, l@.len() as int);
            }
            proof {
                assert((weight as u128) * (count as u128) <= (u64::MAX as u128) * (u64::MAX
                    as u128)) by (nonlinear_arith)
                    requires
                        weight <= u64::MAX,
                        count <= u64::MAX,
                ;
            }
            let add: u128 = (weight as u128) * (count as u128);
            total = if total <= u128::MAX - add {
                total + add
            } else {
                u128::MAX
            };
            i = i + 1;
        }
        Some(format_u128(total))
    }
}

} // verus!

//! Day 2: count "safety reports" — level sequences that move strictly in one
//! direction with steps of one to three — directly, and then with one level
//! allowed to be dropped.

use vstd::prelude::*;

use crate::day::Day;
use crate::numfmt::format_usize;
use crate::textutil::{parse_u64, split_char, tokens};

verus! {

pub struct Day2;

/// One step of a safe report: strictly up or down by at most three.
pub open spec fn step_ok(a: u64, b: u64) -> bool {
    a != b && (a < b ==> b - a <= 3) && (b < a ==> a - b <= 3)
}

/// A safe report: every step is valid and all steps move the same way.
pub open spec fn safe_report(s: Seq<u64>) -> bool {
    &&& forall|i: int| 0 <= i < s.len() - 1 ==> step_ok(#[trigger] s[i], s[i + 1])
    &&& ((forall|i: int| 0 <= i < s.len() - 1 ==> #[trigger] s[i] < s[i + 1]) || (forall|i: int|
        0 <= i < s.len() - 1 ==> #[trigger] s[i] > s[i + 1]))
}

/// Whether a report is safe as given, or can be made safe by dropping one
/// level.
pub open spec fn dampened_safe(row: Seq<u64>) -> bool {
    safe_report(row) || exists|e: int| 0 <= e < row.len() && safe_report(#[trigger] row.remove(e))
}

/// How many of the first `i` reports are safe as given.
pub open spec fn spec_safe_count(rows: Seq<Vec<u64>>, i: int) -> nat
    decreases i,
{
    if i <= 0 || i > rows.len() {
        0
    } else {
        spec_safe_count(rows, i - 1) + (if safe_report(rows[i - 1]@) {
            1nat
        } else {
            0nat
        })
    }
}

/// How many of the first `i` reports are safe with the dampener.
pub open spec fn spec_dampened_count(rows: Seq<Vec<u64>>, i: int) -> nat
    decreases i,
{
    if i <= 0 || i > rows.len() {
        0
    } else {
        spec_dampened_count(rows, i - 1) + (if dampened_safe(rows[i - 1]@) {
            1nat
        } else {
            0nat
        })
    }
}

/// Whether `line` is a safe report.
pub fn line_valid(line: &Vec<u64>) -> (r: bool)
    ensures
        r == safe_report(line@),
{
    let n = line.len();
    if n < 2 {
        return true;
    }
    let increasing = line[0] < line[1];
    let mut i: usize = 0;
    while i + 1 < n
        invariant
            n == line@.len(),
            2 <= n,
            0 <= i <= n - 1,
            increasing == (line@[0] < line@[1]),
            forall|j: int| 0 <= j < i ==> step_ok(#[trigger] line@[j], line@[j + 1]),
            increasing ==> forall|j: int| 0 <= j < i ==> #[trigger] line@[j] < line@[j + 1],
            !increasing ==> forall|j: int| 0 <= j < i ==> #[trigger] line@[j] > line@[j + 1],
        decreases n - i,
    {
        let x = line[i];
        let y = line[i + 1];
        let diff: u64 = if x < y {
            y - x
        } else {
            x - y
        };
        if x == y || diff > 3 {
            return false;
        }
        if increasing && y < x {
            return false;
        }
        if !increasing && x < y {
            return false;
        }
        i = i + 1;
    }
    true
}

/// Whether `line`, with the level at `skip` dropped, is a safe report.
fn line_valid_without(line: &Vec<u64>, skip: usize) -> (r: bool)
    requires
        skip < line@.len(),
    ensures
        r == safe_report(line@.remove(skip as int)),
{
    let mut shorter: Vec<u64> = Vec::new();
    let mut i: usize = 0;
    while i < line.len()
        invariant
            skip < line@.len(),
            0 <= i <= line@.len(),
            shorter@ =~= if i <= skip {
                line@.subrange(0, i as int)
            } else {
                line@.subrange(0, skip as int) + line@.subrange(skip as int + 1, i as int)
            },
        decreases line@.len() - i,
    {
        if i != skip {
            shorter.push(line[i]);
        }
        i = i + 1;
    }
    proof {
        assert(shorter@ =~= line@.remove(skip as int));
    }
    line_valid(&shorter)
}

impl Day for Day2 {
    type Input = Vec<Vec<u64>>;

    fn day() -> usize {
        2
    }

    fn example_input_1() -> &'static str {
        "7 6 4 2 1\n1 2 7 8 9\n9 7 6 2 1\n1 3 2 4 5\n8 6 4 4 1\n1 3 6 7 9"
    }

    fn example_input_2() -> &'static str {
        "7 6 4 2 1\n1 2 7 8 9\n9 7 6 2 1\n1 3 2 4 5\n8 6 4 4 1\n1 3 6 7 9"
    }

    fn expected_1() -> &'static str {
        "2"
    }

    fn expected_2() -> &'static str {
        "4"
    }

    /// One report per line, one level per token; malformed tokens are
    /// dropped, as there is no recovery path for bad puzzle input.
    fn parse_input(input: &str) -> Self::Input {
        let lines = split_char(input, '\n');
        let mut rows: Vec<Vec<u64>> = Vec::new();
        let mut i: usize = 0;
        while i < lines.len()
            decreases lines.len() - i,
        {
            let toks = tokens(lines[i]);
            let mut row: Vec<u64> = Vec::new();
            let mut j: usize = 0;
            while j < toks.len()
                decreases toks.len() - j,
            {
                match parse_u64(toks[j]) {
                    Some(v) => row.push(v),
                    None => (),
                }
                j = j + 1;
            }
            rows.push(row);
            i = i + 1;
        }
        rows
    }

    /// How many reports are safe as given: exactly that count, in decimal.
    fn part_1(input: Self::Input) -> (r: Option<String>)
        ensures
            r matches Some(a) && a@ == crate::numfmt::dec_digits(
                spec_safe_count(input@, input@.len() as int),
            ),
    {
        let mut count: usize = 0;
        let mut i: usize = 0;
        while i < input.len()
            invariant
                count <= i <= input@.len(),
                count == spec_safe_count(input@, i as int),
            decreases input.len() - i,
        {
            if line_valid(&input[i]) {
                count = count + 1;
            }
            i = i + 1;
        }
        Some(format_usize(count))
    }

    /// How many reports are safe as given or after dropping one level:
    /// exactly that count, in decimal.
    fn part_2(input: Self::Input) -> (r: Option<String>)
        ensures
            r matches Some(a) && a@ == crate::numfmt::dec_digits(
                spec_dampened_count(input@, input@.len() as int),
            ),
    {
        let mut count: usize = 0;
        let mut i: usize = 0;
        while i < input.len()
            invariant
                count <= i <= input@.len(),
                count == spec_dampened_count(input@, i as int),
            decreases input.len() - i,
        {
            let line = &input[i];
            let mut ok = line_valid(line);
            if !ok {
                let mut skip: usize = 0;
                while skip < line.len()
                    invariant_except_break
                        skip <= line@.len(),
                        !ok,
                        forall|e: int| 0 <= e < skip ==> !safe_report(#[trigger] line@.remove(e)),
                    ensures
                        ok ==> exists|e: int|
                            0 <= e < line@.len() && safe_report(#[trigger] line@.remove(e)),
                        !ok ==> forall|e: int|
                            0 <= e < line@.len() ==> !safe_report(#[trigger] line@.remove(e)),
                    decreases line@.len() - skip,
                {
                    if line_valid_without(line, skip) {
                        ok = true;
                        break ;
                    }
                    skip = skip + 1;
                }
            }
            proof {
                assert(ok == dampened_safe(input@[i as int]@));
            }
            if ok {
                count = count + 1;
            }
            i = i + 1;
        }
        Some(format_usize(count))
    }
}

} // verus!

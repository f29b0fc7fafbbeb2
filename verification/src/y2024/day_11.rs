//! Day 11: stones that multiply on every blink — zero becomes one, an even
//! digit count splits in half, anything else is multiplied by 2024.  Only
//! the count of each distinct stone matters.

use std::collections::HashMap;

use vstd::prelude::*;

use crate::day::Day;
use crate::numfmt::{format_u128, parse_usize};
use crate::textutil::tokens;

verus! {

pub struct Day11;

/// Distinct stones and how many of each there are, with an index from stone
/// to its slot.
struct StoneCounts {
    counts: Vec<(u128, u128)>,
    index: HashMap<u128, usize>,
}

impl StoneCounts {
    fn new() -> StoneCounts {
        StoneCounts { counts: Vec::new(), index: HashMap::new() }
    }

    /// Add `count` stones with the value `stone`; counts saturate.
    fn add(&mut self, stone: u128, count: u128) {
        let slot = match self.index.get(&stone) {
            Some(i) => Some(*i),
            None => None,
        };
        match slot {
            Some(i) => {
                if i < self.counts.len() && self.counts[i].0 == stone {
                    let old_count = self.counts[i].1;
                    let new_count = if old_count <= u128::MAX - count {
                        old_count + count
                    } else {
                        u128::MAX
                    };
                    self.counts.set(i, (stone, new_count));
                    return ;
                }
                self.counts.push((stone, count));
                self.index.insert(stone, self.counts.len() - 1);
            },
            None => {
                self.counts.push((stone, count));
                self.index.insert(stone, self.counts.len() - 1);
            },
        }
    }
}

/// One blink of one stone: its successors.  A zero stone becomes one, a
/// stone with an even number of digits splits into its two halves, and any
/// other stone is multiplied by 2024 (saturating).
fn blink_stone(stone: u128) -> Vec<u128> {
    if stone == 0 {
        return vec![1u128];
    }
    let text = format_u128(stone);
    let digits = text.unicode_len();
    if digits % 2 == 0 {
        let half = digits / 2;
        let left = text.substring_char(0, half);
        let right = text.substring_char(half, digits);
        match (parse_usize(left), parse_usize(right)) {
            (Some(l), Some(r)) => {
                return vec![l as u128, r as u128];
            },
            _ => {
                // A half too large for the machine's word; keep the stone.
                return vec![stone];
            },
        }
    }
    let grown = if stone <= u128::MAX / 2024 {
        proof {
            vstd::arithmetic::div_mod::lemma_fundamental_div_mod(u128::MAX as int, 2024);
            assert((stone as int) * 2024 <= (u128::MAX as int / 2024) * 2024) by (nonlinear_arith)
                requires
                    stone as int <= u128::MAX as int / 2024,
            ;
            assert((u128::MAX as int / 2024) * 2024 == 2024 * (u128::MAX as int / 2024))
                by (nonlinear_arith);
        }
        stone * 2024
    } else {
        u128::MAX
    };
    vec![grown]
}

/// The total number of stones after `blinks` blinks.
fn count_after_blinks(input: &Vec<u128>, blinks: usize) -> u128 {
    let mut stones = StoneCounts::new();
    let mut i: usize = 0;
    while i < input.len()
        decreases input@.len() - i,
    {
        stones.add(input[i], 1);
        i = i + 1;
    }
    let mut round: usize = 0;
    while round < blinks
        decreases blinks - round,
    {
        let mut next = StoneCounts::new();
        let mut s: usize = 0;
        while s < stones.counts.len()
            decreases stones.counts@.len() - s,
        {
            let (stone, count) = stones.counts[s];
            let successors = blink_stone(stone);
            let mut k: usize = 0;
            while k < successors.len()
                decreases successors@.len() - k,
            {
                next.add(successors[k], count);
                k = k + 1;
            }
            s = s + 1;
        }
        stones = next;
        round = round + 1;
    }
    let mut total: u128 = 0;
    let mut s: usize = 0;
    while s < stones.counts.len()
        decreases stones.counts@.len() - s,
    {
        let count = stones.counts[s].1;
        total = if total <= u128::MAX - count {
            total + count
        } else {
            u128::MAX
        };
        s = s + 1;
    }
    total
}

impl Day for Day11 {
    type Input = Vec<u128>;

    fn day() -> usize {
        11
    }

    fn example_input_1() -> &'static str {
        "125 17"
    }

    fn example_input_2() -> &'static str {
        "125 17"
    }

    fn expected_1() -> &'static str {
        "55312"
    }

    fn expected_2() -> &'static str {
        "65601038650482"
    }

    /// Space-separated stone values; malformed tokens are dropped.
    fn parse_input(input: &str) -> Self::Input {
        let toks = tokens(input);
        let mut stones: Vec<u128> = Vec::new();
        let mut i: usize = 0;
        while i < toks.len()
            decreases toks.len() - i,
        {
            match parse_usize(toks[i]) {
                Some(v) => stones.push(v as u128),
                None => (),
            }
            i = i + 1;
        }
        stones
    }

    /// How many stones there are after twenty-five blinks.
    fn part_1(input: Self::Input) -> Option<String> {
        Some(format_u128(count_after_blinks(&input, 25)))
    }

    /// How many stones there are after seventy-five blinks.
    fn part_2(input: Self::Input) -> Option<String> {
        Some(format_u128(count_after_blinks(&input, 75)))
    }
}

} // verus!

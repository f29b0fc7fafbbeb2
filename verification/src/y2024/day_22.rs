//! Day 22: evolve each buyer's pseudo-random secret, sum the final secrets,
//! then find the change sequence that buys the most bananas.

use std::collections::{HashMap, HashSet};

use vstd::prelude::*;

use crate::day::Day;
use crate::numfmt::{format_u128, parse_usize};
use crate::textutil::{split_char, tokens};

verus! {

pub struct Day22;

/// How many times each secret evolves.
pub const ROUNDS: usize = 2000;

/// One step of the secret evolution: mix in the secret times 64, then
/// divided by 32, then times 2048, pruning to 24 bits after each mix.
pub open spec fn spec_next_secret(num: u64) -> u64 {
    let a = (((num as u128 * 64) as u128) ^ (num as u128)) % 16777216;
    let b = ((a / 32) ^ a) % 16777216;
    ((((b * 2048) as u128) ^ b) % 16777216) as u64
}

/// The secret after `times` evolutions.
pub open spec fn spec_secret_n(init: u64, times: int) -> u64
    decreases times,
{
    if times <= 0 {
        init
    } else {
        spec_next_secret(spec_secret_n(init, times - 1))
    }
}

/// One step of the secret evolution: mix and prune three times.
pub fn next_secret(num: u64) -> (r: u64)
    ensures
        r == spec_next_secret(num),
        r < 16777216,
{
    let num = num as u128;
    let num = ((num * 64) ^ num) % 16777216;
    let num = ((num / 32) ^ num) % 16777216;
    let num = ((num * 2048) ^ num) % 16777216;
    num as u64
}

/// The secret after `times` evolutions.
pub fn secret_n_times(init: u64, times: usize) -> (r: u64)
    ensures
        r == spec_secret_n(init, times as int),
{
    let mut num = init;
    let mut i: usize = 0;
    while i < times
        invariant
            i <= times,
            num == spec_secret_n(init, i as int),
        decreases times - i,
    {
        num = next_secret(num);
        i = i + 1;
    }
    num
}

/// For one buyer: the first price paid after each distinct window of four
/// consecutive price changes, over `times` evolutions.
fn four_change_prices(init: u64, times: usize) -> (HashMap<[i8; 4], u64>, Vec<[i8; 4]>) {
    let mut prices: HashMap<[i8; 4], u64> = HashMap::new();
    let mut seen: Vec<[i8; 4]> = Vec::new();
    let mut window: [i8; 4] = [0, 0, 0, 0];
    let mut last: u64 = 0;
    let mut curr = init;
    let mut i: usize = 0;
    while i < times
        invariant
            last < 10,
        decreases times - i,
    {
        curr = next_secret(curr);
        let val = curr % 10;
        let change: i8 = (val as i8) - (last as i8);
        window = [window[1], window[2], window[3], change];
        last = val;
        if i >= 3 {
            if !prices.contains_key(&window) {
                prices.insert(window, val);
                seen.push(window);
            }
        }
        i = i + 1;
    }
    (prices, seen)
}

/// The summed final secrets of the first `i` buyers, after `ROUNDS`
/// evolutions each.
pub open spec fn spec_secret_sum(secrets: Seq<u64>, i: int) -> nat
    decreases i,
{
    if i <= 0 || i > secrets.len() {
        0
    } else {
        spec_secret_sum(secrets, i - 1) + spec_secret_n(secrets[i - 1], ROUNDS as int) as nat
    }
}

/// Prefix sums of final secrets never shrink.
proof fn lemma_secret_sum_monotone(secrets: Seq<u64>, i: int, j: int)
    requires
        0 <= i <= j <= secrets.len(),
    ensures
        spec_secret_sum(secrets, i) <= spec_secret_sum(secrets, j),
    decreases j - i,
{
    if i < j {
        lemma_secret_sum_monotone(secrets, i, j - 1);
    }
}

impl Day for Day22 {
    type Input = Vec<u64>;

    fn day() -> usize {
        22
    }

    /// One initial secret per line; malformed lines are dropped.
    fn parse_input(input: &str) -> Self::Input {
        let lines = split_char(input, '\n');
        let mut secrets: Vec<u64> = Vec::new();
        let mut i: usize = 0;
        while i < lines.len()
            decreases lines.len() - i,
        {
            let toks = tokens(lines[i]);
            if toks.len() >= 1 {
                match parse_usize(toks[0]) {
                    Some(v) => secrets.push(v as u64),
                    None => (),
                }
            }
            i = i + 1;
        }
        secrets
    }

    /// The sum of every buyer's final secret.  Whenever the sum fits the
    /// accumulator (any real input's does), the answer is exactly that sum
    /// in decimal; past that it saturates.
    fn part_1(input: Self::Input) -> (r: Option<String>)
        ensures
            spec_secret_sum(input@, input@.len() as int) <= u128::MAX ==> (r matches Some(a)
                && a@ == crate::numfmt::dec_digits(spec_secret_sum(input@, input@.len() as int))),
    {
        let mut total: u128 = 0;
        let mut i: usize = 0;
        while i < input.len()
            invariant
                i <= input@.len(),
                spec_secret_sum(input@, input@.len() as int) <= u128::MAX ==> total
                    == spec_secret_sum(input@, i as int),
            decreases input@.len() - i,
        {
            proof {
                lemma_secret_sum_monotone(input@, i as int + 1, input@.len() as int);
            }
            let last = secret_n_times(input[i], ROUNDS);
            total = if total <= u128::MAX - last as u128 {
                total + last as u128
            } else {
                u128::MAX
            };
            i = i + 1;
        }
        Some(format_u128(total))
    }

    /// The best total price any single four-change window earns across all
    /// buyers.
    fn part_2(input: Self::Input) -> Option<String> {
        let mut buyer_prices: Vec<HashMap<[i8; 4], u64>> = Vec::new();
        let mut candidates: Vec<[i8; 4]> = Vec::new();
        let mut candidate_set: HashSet<[i8; 4]> = HashSet::new();
        let mut i: usize = 0;
        while i < input.len()
            decreases input@.len() - i,
        {
            let (prices, seen) = four_change_prices(input[i], ROUNDS);
            buyer_prices.push(prices);
            let mut k: usize = 0;
            while k < seen.len()
                decreases seen@.len() - k,
            {
                if candidate_set.insert(seen[k]) {
                    candidates.push(seen[k]);
                }
                k = k + 1;
            }
            i = i + 1;
        }
        let mut best: u128 = 0;
        let mut c: usize = 0;
        while c < candidates.len()
            decreases candidates@.len() - c,
        {
            let mut total: u128 = 0;
            let mut b: usize = 0;
            while b < buyer_prices.len()
                invariant
                    c < candidates@.len(),
                decreases buyer_prices@.len() - b,
            {
                let gain: u64 = match buyer_prices[b].get(&candidates[c]) {
                    Some(v) => *v,
                    None => 0,
                };
                total = if total <= u128::MAX - gain as u128 {
                    total + gain as u128
                } else {
                    u128::MAX
                };
                b = b + 1;
            }
            if total > best {
                best = total;
            }
            c = c + 1;
        }
        Some(format_u128(best))
    }
}

} // verus!

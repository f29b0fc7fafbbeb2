//! Day 3: scan corrupted memory for `mul(a,b)` instructions and sum the
//! products, then honour `do()` and `don't()` switches.

use vstd::prelude::*;

use crate::day::Day;
use crate::numfmt::{format_u128, is_digit_char};

verus! {

pub struct Day3;

/// Whether the characters of `pat` appear in `s` starting at `i`.
fn matches_at(s: &str, i: usize, pat: &str) -> (r: bool)
    requires
        i <= s@.len(),
    ensures
        r ==> i + pat@.len() <= s@.len(),
{
    let plen = pat.unicode_len();
    let slen = s.unicode_len();
    if plen > slen - i {
        return false;
    }
    let mut k: usize = 0;
    while k < plen
        invariant
            0 <= k <= plen,
            plen == pat@.len(),
            slen == s@.len(),
            i + plen <= slen,
        decreases plen - k,
    {
        if s.get_char(i + k) != pat.get_char(k) {
            return false;
        }
        k = k + 1;
    }
    true
}

/// Read a run of decimal digits at `i`, giving the value and the index past
/// the run; the value saturates at the top of `u64`.
fn scan_number(s: &str, i: usize) -> (r: (u64, usize))
    requires
        i <= s@.len(),
    ensures
        i <= r.1 <= s@.len(),
{
    let len = s.unicode_len();
    let mut acc: u64 = 0;
    let mut k = i;
    while k < len
        invariant
            i <= k <= len,
            len == s@.len(),
        decreases len - k,
    {
        let c = s.get_char(k);
        match crate::numfmt::char_digit(c) {
            Some(d) => {
                acc = if acc <= (u64::MAX - d as u64) / 10 {
                    proof {
                        assert(acc * 10 + d <= u64::MAX) by (nonlinear_arith)
                            requires
                                acc <= (u64::MAX - d as u64) / 10,
                                d < 10,
                        ;
                    }
                    acc * 10 + d as u64
                } else {
                    u64::MAX
                };
            },
            None => {
                return (acc, k);
            },
        }
        k = k + 1;
    }
    (acc, len)
}

/// Try to read a complete `mul(a,b)` instruction at `i`: its product and the
/// index past the closing parenthesis.
fn scan_mul(s: &str, i: usize) -> (r: Option<(u64, usize)>)
    requires
        i <= s@.len(),
    ensures
        r matches Some(p) ==> i < p.1 <= s@.len(),
{
    let len = s.unicode_len();
    if !matches_at(s, i, "mul(") {
        return None;
    }
    proof {
        reveal_strlit("mul(");
    }
    let k = i + 4;
    if k >= len || !is_digit(s.get_char(k)) {
        return None;
    }
    let (a, k) = scan_number(s, k);
    if k >= len || s.get_char(k) != ',' {
        return None;
    }
    let k = k + 1;
    if k >= len || !is_digit(s.get_char(k)) {
        return None;
    }
    let (b, k) = scan_number(s, k);
    if k >= len || s.get_char(k) != ')' {
        return None;
    }
    let product = if b != 0 && a > u64::MAX / b {
        u64::MAX
    } else {
        proof {
            if b != 0 {
                let bm = b as int;
                vstd::arithmetic::div_mod::lemma_fundamental_div_mod(u64::MAX as int, bm);
                assert((a as int) * bm <= (u64::MAX as int / bm) * bm) by (nonlinear_arith)
                    requires
                        a as int <= u64::MAX as int / bm,
                        bm >= 1,
                ;
                assert((u64::MAX as int / bm) * bm == bm * (u64::MAX as int / bm))
                    by (nonlinear_arith);
            }
        }
        a * b
    };
    Some((product, k + 1))
}

/// Whether `c` is a decimal digit.
fn is_digit(c: char) -> (r: bool)
    ensures
        r == is_digit_char(c),
{
    match crate::numfmt::char_digit(c) {
        Some(_) => true,
        None => false,
    }
}

/// Sum the products of every `mul` instruction, scanning left to right; with
/// `switched`, a `don't()` turns summing off and a `do()` turns it back on.
/// The sum saturates at the top of its range.
pub fn sum_muls(s: &str, switched: bool) -> u128 {
    let len = s.unicode_len();
    let mut total: u128 = 0;
    let mut enabled = true;
    let mut i: usize = 0;
    while i < len
        invariant
            0 <= i <= len,
            len == s@.len(),
        decreases len - i,
    {
        if switched && matches_at(s, i, "don't()") {
            proof {
                reveal_strlit("don't()");
            }
            enabled = false;
            i = i + 7;
        } else if switched && matches_at(s, i, "do()") {
            proof {
                reveal_strlit("do()");
            }
            enabled = true;
            i = i + 4;
        } else {
            match scan_mul(s, i) {
                Some((product, next)) => {
                    if enabled {
                        total = if total <= u128::MAX - product as u128 {
                            total + product as u128
                        } else {
                            u128::MAX
                        };
                    }
                    i = next;
                },
                None => {
                    i = i + 1;
                },
            }
        }
    }
    total
}

impl Day for Day3 {
    type Input = String;

    fn day() -> usize {
        3
    }

    fn example_input_1() -> &'static str {
        "xmul(2,4)%&mul[3,7]!@^do_not_mul(5,5)+mul(32,64]then(mul(11,8)mul(8,5))"
    }

    fn example_input_2() -> &'static str {
        "xmul(2,4)&mul[3,7]!^don't()_mul(5,5)+mul(32,64](mul(11,8)undo()?mul(8,5))"
    }

    fn expected_1() -> &'static str {
        "161"
    }

    fn expected_2() -> &'static str {
        "48"
    }

    fn parse_input(input: &str) -> Self::Input {
        input.to_owned()
    }

    /// The sum of all multiplication instructions.
    fn part_1(input: Self::Input) -> Option<String> {
        Some(format_u128(sum_muls(input.as_str(), false)))
    }

    /// The sum of the enabled multiplication instructions.
    fn part_2(input: Self::Input) -> Option<String> {
        Some(format_u128(sum_muls(input.as_str(), true)))
    }
}

} // verus!

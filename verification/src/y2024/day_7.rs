//! Day 7: bridge calibration — which equations can be made true by filling
//! in add and multiply operators, then also digit concatenation.

use vstd::prelude::*;

use crate::day::Day;
use crate::numfmt::{format_i128, parse_usize};
use crate::textutil::{split_char, tokens};

verus! {

pub struct Day7;

/// One calibration equation: the target value and the operands.
#[derive(Clone)]
pub struct Equation {
    pub target: i64,
    pub operands: Vec<i64>,
}

/// Saturating product of non-negative values.
fn sat_mul(a: i128, b: i128) -> (r: i128)
    requires
        a >= 0,
        b >= 0,
    ensures
        r >= 0,
        b >= 1 ==> r >= a,
{
    if b != 0 && a > i128::MAX / b {
        i128::MAX
    } else {
        proof {
            if b != 0 {
                let bm = b as int;
                vstd::arithmetic::div_mod::lemma_fundamental_div_mod(i128::MAX as int, bm);
                assert((a as int) * bm <= (i128::MAX as int / bm) * bm) by (nonlinear_arith)
                    requires
                        a as int <= i128::MAX as int / bm,
                        bm >= 1,
                ;
                assert((i128::MAX as int / bm) * bm == bm * (i128::MAX as int / bm))
                    by (nonlinear_arith);
                assert(a * b >= 0) by (nonlinear_arith)
                    requires
                        a >= 0,
                        b >= 0,
                ;
                assert(b >= 1 ==> a * b >= a) by (nonlinear_arith)
                    requires
                        a >= 0,
                ;
            }
        }
        a * b
    }
}

/// Saturating sum of non-negative values.
fn sat_add(a: i128, b: i128) -> (r: i128)
    requires
        a >= 0,
        b >= 0,
    ensures
        r >= 0,
{
    if a <= i128::MAX - b {
        a + b
    } else {
        i128::MAX
    }
}

/// Ten to the number of decimal digits of `v`: what a digit concatenation
/// shifts the left operand by.
fn concat_shift(v: i128) -> (r: i128)
    requires
        v >= 0,
    ensures
        r >= 1,
{
    let mut shift: i128 = 10;
    let mut rest = v / 10;
    while rest > 0
        invariant
            shift >= 1,
            rest >= 0,
        decreases rest,
    {
        shift = sat_mul(shift, 10);
        rest = rest / 10;
    }
    shift
}

/// Evaluate one operator assignment over the operands: every two bits (or
/// base-three digit) of `p` pick the operator between two operands.  Values
/// saturate rather than overflow.
fn try_combo(operands: &Vec<i64>, p: u128, concat_allowed: bool) -> i128 {
    let mut acc: i128 = 0;
    let mut i: usize = 0;
    let mut selector = p;
    while i < operands.len()
        invariant
            acc >= 0,
        decreases operands@.len() - i,
    {
        let e = operands[i];
        let e_pos: i128 = if e < 0 {
            0
        } else {
            e as i128
        };
        if i == 0 {
            acc = e_pos;
        } else {
            let choice: u128 = if concat_allowed {
                selector % 3
            } else {
                selector % 2
            };
            if choice == 1 {
                acc = sat_mul(acc, e_pos);
            } else if choice == 2 {
                acc = sat_add(sat_mul(acc, concat_shift(e_pos)), e_pos);
            } else {
                acc = sat_add(acc, e_pos);
            }
            selector = if concat_allowed {
                selector / 3
            } else {
                selector / 2
            };
        }
        i = i + 1;
    }
    acc
}

/// Whether any operator assignment makes the equation true.
fn solvable(eq: &Equation, concat_allowed: bool) -> bool {
    let n = eq.operands.len();
    if n == 0 {
        return false;
    }
    if n > 41 {
        // More operator slots than any assignment word can encode; such an
        // equation is far beyond real calibration input.
        return false;
    }
    let mut combos: u128 = 1;
    let mut k: usize = 1;
    while k < n
        invariant
            1 <= combos <= 0x1_0000_0000_0000_0000_0000,
            k <= n <= 41,
        decreases n - k,
    {
        proof {
            assert(combos * 3 <= 0x3_0000_0000_0000_0000_0000) by (nonlinear_arith)
                requires
                    combos <= 0x1_0000_0000_0000_0000_0000,
            ;
        }
        combos = combos * (if concat_allowed {
            3
        } else {
            2
        });
        if combos > 0x1_0000_0000_0000_0000_0000 {
            return false;
        }
        k = k + 1;
    }
    let mut p: u128 = 0;
    while p < combos
        decreases combos - p,
    {
        if try_combo(&eq.operands, p, concat_allowed) == eq.target as i128 {
            return true;
        }
        p = p + 1;
    }
    false
}

/// The summed targets of the solvable equations; the sum saturates.
fn calibration_sum(input: &Vec<Equation>, concat_allowed: bool) -> i128 {
    let mut total: i128 = 0;
    let mut i: usize = 0;
    while i < input.len()
        invariant
            total >= 0,
        decreases input@.len() - i,
    {
        let eq = &input[i];
        if eq.target >= 0 && solvable(eq, concat_allowed) {
            total = sat_add(total, eq.target as i128);
        }
        i = i + 1;
    }
    total
}

impl Day for Day7 {
    type Input = Vec<Equation>;

    fn day() -> usize {
        7
    }

    fn example_input_1() -> &'static str {
        "190: 10 19\n3267: 81 40 27\n83: 17 5\n156: 15 6\n7290: 6 8 6 15\n161011: 16 10 13\n192: 17 8 14\n21037: 9 7 18 13\n292: 11 6 16 20"
    }

    fn example_input_2() -> &'static str {
        "190: 10 19\n3267: 81 40 27\n83: 17 5\n156: 15 6\n7290: 6 8 6 15\n161011: 16 10 13\n192: 17 8 14\n21037: 9 7 18 13\n292: 11 6 16 20"
    }

    fn expected_1() -> &'static str {
        "3749"
    }

    fn expected_2() -> &'static str {
        "11387"
    }

    /// One equation per line, `target: operand operand ...`; malformed
    /// pieces are dropped.
    fn parse_input(input: &str) -> Self::Input {
        let lines = split_char(input, '\n');
        let mut eqs: Vec<Equation> = Vec::new();
        let mut i: usize = 0;
        while i < lines.len()
            decreases lines.len() - i,
        {
            let parts = split_char(lines[i], ':');
            if parts.len() == 2 {
                let target = match parse_usize(parts[0]) {
                    Some(v) => {
                        if v <= i64::MAX as usize {
                            Some(v as i64)
                        } else {
                            None
                        }
                    },
                    None => None,
                };
                match target {
                    Some(target) => {
                        let toks = tokens(parts[1]);
                        let mut operands: Vec<i64> = Vec::new();
                        let mut j: usize = 0;
                        while j < toks.len()
                            decreases toks.len() - j,
                        {
                            match parse_usize(toks[j]) {
                                Some(v) => {
                                    if v <= i64::MAX as usize {
                                        operands.push(v as i64);
                                    }
                                },
                                None => (),
                            }
                            j = j + 1;
                        }
                        eqs.push(Equation { target, operands });
                    },
                    None => (),
                }
            }
            i = i + 1;
        }
        eqs
    }

    /// The total calibration result with add and multiply.
    fn part_1(input: Self::Input) -> Option<String> {
        let total = calibration_sum(&input, false);
        if total == i128::MIN {
            return None;
        }
        Some(format_i128(total))
    }

    /// The total calibration result with concatenation allowed too.
    fn part_2(input: Self::Input) -> Option<String> {
        let total = calibration_sum(&input, true);
        if total == i128::MIN {
            return None;
        }
        Some(format_i128(total))
    }
}

} // verus!

//! Day 17: a three-register, eight-opcode machine — run its program and
//! report the output, then search for the lowest register value that makes
//! the program print itself.

use vstd::prelude::*;

use crate::day::Day;
use crate::numfmt::{format_u128, parse_usize};
use crate::textutil::{split_char, tokens};

verus! {

pub struct Day17;

/// The machine's three registers.
#[derive(Clone, Copy, Debug, PartialEq, Eq, Structural)]
pub struct Registers {
    pub a: u128,
    pub b: u128,
    pub c: u128,
}

/// The value of a combo operand: small literals stand for themselves, the
/// next three name registers, and the reserved operand reads as zero.
fn combo_value(operand: u128, regs: &Registers) -> u128 {
    if operand == 4 {
        regs.a
    } else if operand == 5 {
        regs.b
    } else if operand == 6 {
        regs.c
    } else if operand == 7 {
        0
    } else {
        operand
    }
}

/// `a` divided by two to the `shift`-th power.
fn shift_div(a: u128, shift: u128) -> u128 {
    if shift >= 128 {
        0
    } else {
        let divisor = 1u128 << (shift as u32);
        proof {
            assert(1u128 << (shift as u32) >= 1) by (bit_vector)
                requires
                    (shift as u32) < 128,
            ;
        }
        a / divisor
    }
}

/// The machine state while a program runs.
#[derive(Debug, Clone)]
pub struct Computer {
    pub regs: Registers,
    pub instructions: Vec<u128>,
}

/// How many instructions one run may take before it is cut off.
pub const RUN_FUEL: usize = 10000000;

/// Run `instructions` from the first one, collecting the program's output;
/// with `first_only`, stop at the first output.  A run that has not halted
/// after `RUN_FUEL` instructions is cut off.
pub fn run_program(instructions: &Vec<u128>, start: Registers, first_only: bool) -> Vec<u128> {
    let mut regs = start;
    let mut out: Vec<u128> = Vec::new();
    let mut ip: usize = 0;
    let mut fuel: usize = RUN_FUEL;
    while fuel > 0
        decreases fuel,
    {
        fuel = fuel - 1;
        if instructions.len() < 2 || ip >= instructions.len() - 1 {
            break ;
        }
        let op = instructions[ip];
        let operand = instructions[ip + 1];
        let mut next_ip = ip + 2;
        if op == 0 {
            regs.a = shift_div(regs.a, combo_value(operand, &regs));
        } else if op == 1 {
            regs.b = regs.b ^ operand;
        } else if op == 2 {
            regs.b = combo_value(operand, &regs) % 8;
        } else if op == 3 {
            if regs.a != 0 {
                if operand <= usize::MAX as u128 {
                    next_ip = operand as usize;
                } else {
                    break ;
                }
            }
        } else if op == 4 {
            regs.b = regs.b ^ regs.c;
        } else if op == 5 {
            out.push(combo_value(operand, &regs) % 8);
            if first_only {
                break ;
            }
        } else if op == 6 {
            regs.b = shift_div(regs.a, combo_value(operand, &regs));
        } else {
            regs.c = shift_div(regs.a, combo_value(operand, &regs));
        }
        ip = next_ip;
    }
    out
}

impl Day for Day17 {
    type Input = Computer;

    fn day() -> usize {
        17
    }

    fn example_input_1() -> &'static str {
        "Register A: 729\nRegister B: 0\nRegister C: 0\n\nProgram: 0,1,5,4,3,0"
    }

    fn example_input_2() -> &'static str {
        "Register A: 2024\nRegister B: 0\nRegister C: 0\n\nProgram: 0,3,5,4,3,0"
    }

    fn expected_1() -> &'static str {
        "4,6,3,5,6,3,5,2,1,0"
    }

    fn expected_2() -> &'static str {
        "117440"
    }

    /// Three register lines, a blank line, then the program's digits;
    /// malformed pieces read as zero or are dropped.
    fn parse_input(input: &str) -> Self::Input {
        let lines = split_char(input, '\n');
        let mut reg_values: Vec<u128> = Vec::new();
        let mut instructions: Vec<u128> = Vec::new();
        let mut i: usize = 0;
        while i < lines.len()
            decreases lines.len() - i,
        {
            let line = lines[i];
            let parts = split_char(line, ':');
            if parts.len() == 2 {
                let toks = tokens(parts[1]);
                if reg_values.len() < 3 {
                    let value: u128 = if toks.len() >= 1 {
                        match parse_usize(toks[0]) {
                            Some(v) => v as u128,
                            None => 0,
                        }
                    } else {
                        0
                    };
                    reg_values.push(value);
                } else if toks.len() >= 1 {
                    let cells = split_char(toks[0], ',');
                    let mut k: usize = 0;
                    while k < cells.len()
                        decreases cells.len() - k,
                    {
                        match parse_usize(cells[k]) {
                            Some(v) => instructions.push(v as u128),
                            None => (),
                        }
                        k = k + 1;
                    }
                }
            }
            i = i + 1;
        }
        let a = if reg_values.len() > 0 {
            reg_values[0]
        } else {
            0
        };
        let b = if reg_values.len() > 1 {
            reg_values[1]
        } else {
            0
        };
        let c = if reg_values.len() > 2 {
            reg_values[2]
        } else {
            0
        };
        Computer { regs: Registers { a, b, c }, instructions }
    }

    /// The program's output digits, joined with commas.
    fn part_1(input: Self::Input) -> Option<String> {
        let out = run_program(&input.instructions, input.regs, false);
        let mut text = String::new();
        let mut i: usize = 0;
        while i < out.len()
            decreases out@.len() - i,
        {
            if i > 0 {
                text.append(",");
            }
            text.append(format_u128(out[i]).as_str());
            i = i + 1;
        }
        Some(text)
    }

    /// The lowest starting value of register `a` for which the program
    /// outputs its own digits: built three bits at a time, matching the
    /// program back to front.
    fn part_2(input: Self::Input) -> Option<String> {
        let mut possible: Vec<u128> = Vec::new();
        possible.push(0);
        let n = input.instructions.len();
        let mut step: usize = 0;
        while step < n
            invariant
                step <= n,
                n == input.instructions@.len(),
            decreases n - step,
        {
            let target = input.instructions[n - 1 - step];
            let mut narrowed: Vec<u128> = Vec::new();
            let mut p: usize = 0;
            while p < possible.len()
                invariant
                    step < n,
                    n == input.instructions@.len(),
                decreases possible@.len() - p,
            {
                let a = possible[p];
                if a <= u128::MAX >> 3 {
                    let mut bits: u128 = 0;
                    while bits < 8
                        invariant
                            bits <= 8,
                            a <= u128::MAX >> 3,
                            step < n,
                            n == input.instructions@.len(),
                        decreases 8 - bits,
                    {
                        proof {
                            assert((a << 3) <= u128::MAX - 7) by (bit_vector)
                                requires
                                    a <= u128::MAX >> 3,
                            ;
                        }
                        let candidate = (a << 3) + bits;
                        let first = run_program(
                            &input.instructions,
                            Registers { a: candidate, b: 0, c: 0 },
                            true,
                        );
                        if first.len() == 1 && first[0] == target {
                            narrowed.push(candidate);
                        }
                        bits = bits + 1;
                    }
                }
                p = p + 1;
            }
            possible = narrowed;
            step = step + 1;
        }
        let mut best: Option<u128> = None;
        let mut p: usize = 0;
        while p < possible.len()
            decreases possible@.len() - p,
        {
            best = match best {
                None => Some(possible[p]),
                Some(b) => {
                    if possible[p] < b {
                        Some(possible[p])
                    } else {
                        Some(b)
                    }
                },
            };
            p = p + 1;
        }
        match best {
            Some(v) => Some(format_u128(v)),
            None => None,
        }
    }
}

} // verus!

//! Day 24: a circuit of boolean gates — settle every wire and read the
//! number on the `z` wires, then find which target wires must be swapped
//! for the circuit to add like a ripple-carry adder.

use std::collections::HashMap;

use vstd::prelude::*;

use crate::day::Day;
use crate::numfmt::{format_u128, format_usize};
use crate::report::str_eq;
use crate::textutil::{split_char, tokens};

verus! {

pub struct Day24;

/// A gate's boolean operation.
#[derive(Debug, Clone, Copy, Eq, PartialEq, Structural)]
pub enum Op {
    And,
    Or,
    Xor,
}

/// What an operation computes.
pub open spec fn spec_op_eval(op: Op, lhs: bool, rhs: bool) -> bool {
    match op {
        Op::And => lhs && rhs,
        Op::Or => lhs || rhs,
        Op::Xor => lhs != rhs,
    }
}

impl Op {
    /// Apply the operation.
    pub fn eval(&self, lhs: bool, rhs: bool) -> (r: bool)
        ensures
            r == spec_op_eval(*self, lhs, rhs),
    {
        match self {
            Op::And => lhs && rhs,
            Op::Or => lhs || rhs,
            Op::Xor => lhs != rhs,
        }
    }
}

/// One gate: two input wires, an operation, and an output wire.
#[derive(Debug, Clone)]
pub struct Gate {
    pub lhs: String,
    pub op: Op,
    pub rhs: String,
    pub target: String,
}

/// The operation a gate token names.
pub open spec fn spec_gate_op(t: Seq<char>) -> Option<Op> {
    if t == "AND"@ {
        Some(Op::And)
    } else if t == "OR"@ {
        Some(Op::Or)
    } else if t == "XOR"@ {
        Some(Op::Xor)
    } else {
        None
    }
}

impl Gate {
    /// Parse a gate line `lhs OP rhs -> target`: exactly five blank-separated
    /// tokens whose second names an operation; the wires are the first,
    /// third and fifth tokens.  Anything else is nothing.
    pub fn parse(raw: &str) -> (r: Option<Gate>)
        ensures
            r is Some <==> (crate::textutil::spec_tokens(raw@).len() == 5 && spec_gate_op(
                crate::textutil::spec_tokens(raw@)[1],
            ) is Some),
            r matches Some(g) ==> {
                &&& g.lhs@ == crate::textutil::spec_tokens(raw@)[0]
                &&& Some(g.op) == spec_gate_op(crate::textutil::spec_tokens(raw@)[1])
                &&& g.rhs@ == crate::textutil::spec_tokens(raw@)[2]
                &&& g.target@ == crate::textutil::spec_tokens(raw@)[4]
            },
    {
        let toks = tokens(raw);
        if toks.len() != 5 {
            return None;
        }
        let op = if str_eq(toks[1], "AND") {
            Op::And
        } else if str_eq(toks[1], "OR") {
            Op::Or
        } else if str_eq(toks[1], "XOR") {
            Op::Xor
        } else {
            return None;
        };
        Some(
            Gate {
                lhs: toks[0].to_owned(),
                op,
                rhs: toks[2].to_owned(),
                target: toks[4].to_owned(),
            },
        )
    }

    /// Fire once both operands have settled: write the target wire and
    /// report success.  Stated under vstd's hash-key model: firing succeeds
    /// exactly when both operand wires are present, success writes the
    /// operation's value to (a wire named like) the target and changes
    /// nothing else, and failure changes nothing.
    pub fn run(&self, wires: &mut HashMap<String, bool>) -> (fired: bool)
        ensures
            vstd::std_specs::hash::obeys_key_model::<String>()
                && vstd::std_specs::hash::builds_valid_hashers::<
                std::collections::hash_map::RandomState,
            >() ==> {
                &&& fired == (old(wires)@.contains_key(self.lhs) && old(wires)@.contains_key(
                    self.rhs,
                ))
                &&& (!fired ==> final(wires)@ == old(wires)@)
                &&& (fired ==> exists|k: String|
                    k@ == self.target@ && final(wires)@ == old(wires)@.insert(
                        k,
                        spec_op_eval(self.op, old(wires)@[self.lhs], old(wires)@[self.rhs]),
                    ))
            },
    {
        broadcast use vstd::std_specs::hash::group_hash_axioms;

        let lhs = match wires.get(&self.lhs) {
            Some(v) => Some(*v),
            None => None,
        };
        let rhs = match wires.get(&self.rhs) {
            Some(v) => Some(*v),
            None => None,
        };
        match (lhs, rhs) {
            (Some(lhs), Some(rhs)) => {
                wires.insert(self.target.clone(), self.op.eval(lhs, rhs));
                true
            },
            _ => false,
        }
    }
}

/// The parsed circuit: the initial wire values and the gates.
#[derive(Clone)]
pub struct Circuit {
    pub wires: Vec<(String, bool)>,
    pub gates: Vec<Gate>,
}

/// Whether `a` orders strictly before `b`, character by character.
fn str_lt(a: &str, b: &str) -> bool {
    let alen = a.unicode_len();
    let blen = b.unicode_len();
    let n = if alen < blen {
        alen
    } else {
        blen
    };
    let mut i: usize = 0;
    while i < n
        invariant
            n <= a@.len(),
            n <= b@.len(),
        decreases n - i,
    {
        let ca = a.get_char(i);
        let cb = b.get_char(i);
        if ca != cb {
            return ca < cb;
        }
        i = i + 1;
    }
    alen < blen
}

/// The wire name `prefix` followed by the two-digit ordinal `num`.
fn wire_name(prefix: &str, num: usize) -> String {
    let mut name = prefix.to_owned();
    if num < 10 {
        name.append("0");
    }
    name.append(format_usize(num).as_str());
    name
}

/// Find which gate reads the two named wires, in either order, with the
/// named operation.
fn find_gate<'a>(gates: &'a Vec<Gate>, lhs: &str, rhs: &str, op: Op) -> Option<&'a Gate> {
    let mut i: usize = 0;
    while i < gates.len()
        decreases gates@.len() - i,
    {
        let g = &gates[i];
        if g.op == op {
            let straight = str_eq(g.lhs.as_str(), lhs) && str_eq(g.rhs.as_str(), rhs);
            let crossed = str_eq(g.lhs.as_str(), rhs) && str_eq(g.rhs.as_str(), lhs);
            if straight || crossed {
                return Some(g);
            }
        }
        i = i + 1;
    }
    None
}

/// Settle the circuit and read the binary number off the `z` wires, lowest
/// ordinal first.
fn settle_and_read(input: &Circuit) -> u128 {
    let mut wires: HashMap<String, bool> = HashMap::new();
    let mut i: usize = 0;
    while i < input.wires.len()
        decreases input.wires@.len() - i,
    {
        wires.insert(input.wires[i].0.clone(), input.wires[i].1);
        i = i + 1;
    }
    // Each full pass settles at least one more gate, so as many passes as
    // there are gates settle everything that can settle.
    let passes = if input.gates.len() < usize::MAX {
        input.gates.len() + 1
    } else {
        input.gates.len()
    };
    let mut pass: usize = 0;
    while pass < passes
        decreases passes - pass,
    {
        let mut g: usize = 0;
        while g < input.gates.len()
            decreases input.gates@.len() - g,
        {
            input.gates[g].run(&mut wires);
            g = g + 1;
        }
        pass = pass + 1;
    }
    let mut value: u128 = 0;
    let mut bit: usize = 0;
    while bit < 64
        invariant
            bit <= 64,
        decreases 64 - bit,
    {
        let name = wire_name("z", bit);
        match wires.get(&name) {
            Some(v) => {
                if *v {
                    proof {
                        assert(1u128 << (bit as u32) >= 0) by (bit_vector);
                    }
                    value = value | (1u128 << (bit as u32));
                }
            },
            None => (),
        }
        bit = bit + 1;
    }
    value
}

/// What checking one adder stage reveals.
enum AdderCheck {
    Okay(String),
    SwapNeeded(String, String),
    CompletelyWrong,
    End,
}

/// Check the half adder at the bottom of the chain: its XOR must feed `z00`
/// and its AND carries out.
fn check_first_adder(gates: &Vec<Gate>) -> AdderCheck {
    let carry = match find_gate(gates, "x00", "y00", Op::And) {
        Some(g) => g.target.clone(),
        None => {
            return AdderCheck::CompletelyWrong;
        },
    };
    let z_target = match find_gate(gates, "x00", "y00", Op::Xor) {
        Some(g) => g.target.clone(),
        None => {
            return AdderCheck::CompletelyWrong;
        },
    };
    if str_eq(z_target.as_str(), "z00") {
        if str_eq(carry.as_str(), "z01") {
            AdderCheck::End
        } else {
            AdderCheck::Okay(carry)
        }
    } else {
        AdderCheck::SwapNeeded(carry, z_target)
    }
}

/// Check one full adder stage: the five gates of a ripple-carry stage must
/// wire its sum to the right `z` wire; a stage wired to the wrong output
/// names the two outputs to swap.
fn check_adder(num: usize, carry_input: &String, gates: &Vec<Gate>) -> AdderCheck {
    let x = wire_name("x", num);
    let y = wire_name("y", num);
    let z = wire_name("z", num);
    let xy_and = match find_gate(gates, x.as_str(), y.as_str(), Op::And) {
        Some(g) => g.target.clone(),
        None => {
            return AdderCheck::CompletelyWrong;
        },
    };
    let xy_xor = match find_gate(gates, x.as_str(), y.as_str(), Op::Xor) {
        Some(g) => g.target.clone(),
        None => {
            return AdderCheck::CompletelyWrong;
        },
    };
    match find_gate(gates, carry_input.as_str(), xy_xor.as_str(), Op::Xor) {
        Some(g) => {
            if !str_eq(g.target.as_str(), z.as_str()) {
                // The sum gate points at the wrong wire; swapping it with
                // the true `z` wire mends this stage.
                return AdderCheck::SwapNeeded(g.target.clone(), z);
            }
        },
        None => {
            // No sum gate uses the pair's XOR, so the XOR and AND outputs
            // of this stage are swapped with each other.
            return AdderCheck::SwapNeeded(xy_and, xy_xor);
        },
    }
    let carry_xy = match find_gate(gates, xy_xor.as_str(), carry_input.as_str(), Op::And) {
        Some(g) => g.target.clone(),
        None => {
            return AdderCheck::CompletelyWrong;
        },
    };
    let carry_out = match find_gate(gates, carry_xy.as_str(), xy_and.as_str(), Op::Or) {
        Some(g) => g.target.clone(),
        None => {
            return AdderCheck::CompletelyWrong;
        },
    };
    let next_z = wire_name("z", if num < usize::MAX {
        num + 1
    } else {
        num
    });
    if str_eq(carry_out.as_str(), next_z.as_str()) {
        AdderCheck::End
    } else {
        AdderCheck::Okay(carry_out)
    }
}

/// Swap the two named gate outputs everywhere.
fn swap_outputs(gates: &mut Vec<Gate>, out1: &String, out2: &String) {
    let mut i: usize = 0;
    while i < gates.len()
        decreases gates@.len() - i,
    {
        let target = gates[i].target.clone();
        if str_eq(target.as_str(), out1.as_str()) {
            let mut g = gates[i].clone();
            g.target = out2.clone();
            gates.set(i, g);
        } else if str_eq(target.as_str(), out2.as_str()) {
            let mut g = gates[i].clone();
            g.target = out1.clone();
            gates.set(i, g);
        }
        i = i + 1;
    }
}

/// Sort wire names in place.
fn sort_names(names: &mut Vec<String>) {
    let mut i: usize = 1;
    while i < names.len()
        invariant
            names@.len() == old(names)@.len(),
        decreases names@.len() - i,
    {
        let mut j = i;
        while j > 0
            invariant
                j <= i < names@.len(),
                names@.len() == old(names)@.len(),
            decreases j,
        {
            if str_lt(names[j].as_str(), names[j - 1].as_str()) {
                let a = names[j - 1].clone();
                let b = names[j].clone();
                names.set(j - 1, b);
                names.set(j, a);
            }
            j = j - 1;
        }
        i = i + 1;
    }
}

impl Day for Day24 {
    type Input = Circuit;

    fn day() -> usize {
        24
    }

    fn example_input_1() -> &'static str {
        "x00: 1\nx01: 1\nx02: 1\ny00: 0\ny01: 1\ny02: 0\n\nx00 AND y00 -> z00\nx01 XOR y01 -> z01\nx02 OR y02 -> z02"
    }

    fn expected_1() -> &'static str {
        "4"
    }

    fn expected_2() -> &'static str {
        "bks,hnd,nrn,tdv,tjp,z09,z16,z23"
    }

    /// Initial `wire: value` lines up to the first blank line, gate lines
    /// after it; malformed lines are dropped.
    fn parse_input(input: &str) -> Self::Input {
        let lines = split_char(input, '\n');
        let mut wires: Vec<(String, bool)> = Vec::new();
        let mut gates: Vec<Gate> = Vec::new();
        let mut past_wires = false;
        let mut i: usize = 0;
        while i < lines.len()
            decreases lines.len() - i,
        {
            let line = lines[i];
            if line.unicode_len() == 0 {
                past_wires = true;
            } else if !past_wires {
                let parts = split_char(line, ':');
                if parts.len() == 2 {
                    let toks = tokens(parts[1]);
                    if toks.len() == 1 {
                        wires.push((parts[0].to_owned(), str_eq(toks[0], "1")));
                    }
                }
            } else {
                match Gate::parse(line) {
                    Some(g) => gates.push(g),
                    None => (),
                }
            }
            i = i + 1;
        }
        Circuit { wires, gates }
    }

    /// The number the settled `z` wires spell.
    fn part_1(input: Self::Input) -> Option<String> {
        Some(format_u128(settle_and_read(&input)))
    }

    /// The sorted names of the eight gate outputs that must be swapped for
    /// the circuit to add correctly.
    fn part_2(input: Self::Input) -> Option<String> {
        let mut gates = input.gates;
        let mut swapped: Vec<String> = Vec::new();
        let mut carry = String::new();
        let mut stage: usize = 0;
        let budget = if gates.len() < usize::MAX {
            gates.len() + 1
        } else {
            gates.len()
        };
        while stage < budget
            decreases budget - stage,
        {
            let res = if stage == 0 {
                check_first_adder(&gates)
            } else {
                check_adder(stage, &carry, &gates)
            };
            match res {
                AdderCheck::Okay(new_carry) => {
                    carry = new_carry;
                },
                AdderCheck::End => {
                    break ;
                },
                AdderCheck::CompletelyWrong => {
                    return None;
                },
                AdderCheck::SwapNeeded(l, r) => {
                    swap_outputs(&mut gates, &l, &r);
                    let retry = if stage == 0 {
                        check_first_adder(&gates)
                    } else {
                        check_adder(stage, &carry, &gates)
                    };
                    match retry {
                        AdderCheck::Okay(new_carry) => {
                            carry = new_carry;
                        },
                        _ => {
                            return None;
                        },
                    }
                    swapped.push(l);
                    swapped.push(r);
                },
            }
            stage = stage + 1;
        }
        sort_names(&mut swapped);
        let mut text = String::new();
        let mut i: usize = 0;
        while i < swapped.len()
            decreases swapped@.len() - i,
        {
            if i > 0 {
                text.append(",");
            }
            text.append(swapped[i].as_str());
            i = i + 1;
        }
        Some(text)
    }
}

} // verus!

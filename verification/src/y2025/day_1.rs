//! Day 1: a dial with one hundred positions, starting at fifty, turned left
//! and right; count how often it rests on zero, then how often it passes
//! zero.

use vstd::prelude::*;

use crate::day::Day;
use crate::numfmt::format_i128;
use crate::numfmt::parse_usize;
use crate::textutil::split_char;

verus! {

pub struct Day1;

/// Which way the dial is turned.
#[derive(Debug, Clone, Copy, PartialEq, Eq, Structural)]
pub enum Dir {
    Left,
    Right,
}

/// One rotation: a direction and a number of clicks.
#[derive(Clone, Copy, Debug, PartialEq, Eq, Structural)]
pub struct Rot {
    pub dir: Dir,
    pub amnt: isize,
}

/// The signed movement of one rotation: left is negative.
pub open spec fn rot_delta(r: Rot) -> int {
    if r.dir == Dir::Left {
        -(r.amnt as int)
    } else {
        r.amnt as int
    }
}

/// How many zero crossings one rotation scores in pass-counting mode: every
/// full hundred clicks from the distance to zero counts one.
pub open spec fn rot_passes(curr: int, r: Rot) -> int {
    if r.dir == Dir::Right {
        crate::line::div_trunc(curr + r.amnt as int, 100)
    } else {
        crate::line::div_trunc(
            (if curr == 0 {
                0
            } else {
                100 - curr
            }) + r.amnt as int,
            100,
        )
    }
}

/// The number of times the dial scores, from rotation `i` on, starting the
/// remaining rotations at `curr`: in rest mode a score is resting on zero
/// after a rotation, in pass mode every pass of zero scores.
pub open spec fn spec_dial_zeros(rots: Seq<Rot>, i: int, curr: int, count_passes: bool) -> int
    decreases rots.len() - i,
{
    if i < 0 || i >= rots.len() {
        0
    } else {
        let next = (curr + rot_delta(rots[i])) % 100;
        let scored = if count_passes {
            rot_passes(curr, rots[i])
        } else {
            if next == 0 {
                1
            } else {
                0
            }
        };
        scored + spec_dial_zeros(rots, i + 1, next, count_passes)
    }
}

/// Turn the dial through every rotation and count its scores: rests on zero,
/// or passes of zero.  The dial starts at fifty.
pub fn dial_zeros(rots: &Vec<Rot>, count_passes: bool) -> (r: i128)
    ensures
        r == spec_dial_zeros(rots@, 0, 50, count_passes),
{
    let mut curr: i128 = 50;
    let mut scored: i128 = 0;
    let mut i: usize = 0;
    while i < rots.len()
        invariant
            0 <= i <= rots@.len(),
            0 <= curr < 100,
            -((i as int) * 0x200_0000_0000_0000) <= scored <= (i as int) * 0x200_0000_0000_0000,
            scored + spec_dial_zeros(rots@, i as int, curr as int, count_passes)
                == spec_dial_zeros(rots@, 0, 50, count_passes),
        decreases rots@.len() - i,
    {
        let rot = rots[i];
        let delta: i128 = if matches!(rot.dir, Dir::Left) {
            -(rot.amnt as i128)
        } else {
            rot.amnt as i128
        };
        let next = crate::numfmt::emod_i128(curr + delta, 100);
        let gained: i128 = if count_passes {
            let numerator: i128 = if matches!(rot.dir, Dir::Right) {
                curr + rot.amnt as i128
            } else {
                (if curr == 0 {
                    0
                } else {
                    100 - curr
                }) + rot.amnt as i128
            };
            crate::line::div_trunc_i128(numerator, 100)
        } else {
            if next == 0 {
                1
            } else {
                0
            }
        };
        proof {
            assert(-0x200_0000_0000_0000 <= gained <= 0x200_0000_0000_0000) by (nonlinear_arith)
                requires
                    gained == if count_passes {
                        rot_passes(curr as int, rots@[i as int])
                    } else {
                        if (curr as int + rot_delta(rots@[i as int])) % 100 == 0 {
                            1int
                        } else {
                            0int
                        }
                    },
                    -0x8000_0000_0000_0080 <= curr as int + rot_delta(rots@[i as int])
                        <= 0x8000_0000_0000_0080,
                    0 <= curr < 100,
                    -0x8000_0000_0000_0000 <= rots@[i as int].amnt <= 0x7fff_ffff_ffff_ffff,
            ;
            assert(((i + 1) as int) * 0x200_0000_0000_0000 == (i as int) * 0x200_0000_0000_0000
                + 0x200_0000_0000_0000) by (nonlinear_arith);
            assert(((i + 1) as int) * 0x200_0000_0000_0000 <= 0x1_0000_0000_0000_0000
                * 0x200_0000_0000_0000) by (nonlinear_arith)
                requires
                    (i + 1) as int <= 0x1_0000_0000_0000_0000,
            ;
        }
        scored = scored + gained;
        curr = next;
        i = i + 1;
    }
    scored
}

impl Day for Day1 {
    type Input = Vec<Rot>;

    fn day() -> usize {
        1
    }

    fn example_input_1() -> &'static str {
        "L50\nL183\nR183\nR35\nR65\nR161"
    }

    fn example_input_2() -> &'static str {
        "L50\nL183\nR183\nR35\nR65\nR161"
    }

    fn expected_1() -> &'static str {
        "3"
    }

    fn expected_2() -> &'static str {
        "6"
    }

    /// One rotation per line: a direction letter, then the click count;
    /// malformed lines are dropped.
    fn parse_input(input: &str) -> Self::Input {
        let lines = split_char(input, '\n');
        let mut rots: Vec<Rot> = Vec::new();
        let mut i: usize = 0;
        while i < lines.len()
            decreases lines.len() - i,
        {
            let line = lines[i];
            let len = line.unicode_len();
            if len >= 2 {
                let dir = if line.get_char(0) == 'L' {
                    Dir::Left
                } else {
                    Dir::Right
                };
                let digits = line.substring_char(1, len);
                match parse_usize(digits) {
                    Some(amnt) => {
                        if amnt <= isize::MAX as usize {
                            rots.push(Rot { dir, amnt: amnt as isize });
                        }
                    },
                    None => (),
                }
            }
            i = i + 1;
        }
        rots
    }

    /// How many rotations leave the dial resting on zero: exactly the
    /// rest-counting dial score, in decimal.
    fn part_1(input: Self::Input) -> (r: Option<String>)
        ensures
            ({
                let v = spec_dial_zeros(input@, 0, 50, false);
                if v == i128::MIN as int {
                    r is None
                } else {
                    (r matches Some(a) && a@ == crate::numfmt::int_digits(v))
                }
            }),
    {
        let scored = dial_zeros(&input, false);
        if scored == i128::MIN {
            return None;
        }
        Some(format_i128(scored))
    }

    /// How many times the dial passes zero over all rotations: exactly the
    /// pass-counting dial score, in decimal.
    fn part_2(input: Self::Input) -> (r: Option<String>)
        ensures
            ({
                let v = spec_dial_zeros(input@, 0, 50, true);
                if v == i128::MIN as int {
                    r is None
                } else {
                    (r matches Some(a) && a@ == crate::numfmt::int_digits(v))
                }
            }),
    {
        let scored = dial_zeros(&input, true);
        if scored == i128::MIN {
            return None;
        }
        Some(format_i128(scored))
    }
}

} // verus!

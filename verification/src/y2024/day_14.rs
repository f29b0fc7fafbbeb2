//! Day 14: robots glide over a wrapping floor — multiply the quadrant
//! counts after a hundred seconds, then find the second they gather into a
//! picture.

use vstd::prelude::*;

use crate::day::Day;
use crate::grid::CellMask;
use crate::numfmt::{format_u128, format_usize, parse_usize};
use crate::pos::Position;
use crate::textutil::{split_char, tokens};

verus! {

pub struct Day14;

/// The parsed puzzle: the floor size and each robot's position and
/// velocity.
#[derive(Clone)]
pub struct Robots {
    pub width: usize,
    pub height: usize,
    pub robots: Vec<(Position, Position)>,
}

/// Where a robot stands after `times` seconds: its start plus `times`
/// velocities, each axis wrapped around the floor.
pub open spec fn spec_robot_at(
    robot: (Position, Position),
    times: int,
    width: usize,
    height: usize,
) -> (int, int) {
    (
        (robot.0.x + robot.1.x * times) % (width as int),
        (robot.0.y + robot.1.y * times) % (height as int),
    )
}

/// The four quadrant counts — upper right, upper left, lower left, lower
/// right — of the first `i` robots after `times` seconds; robots on the
/// middle lines count nowhere.
pub open spec fn spec_quadrants(
    robots: Seq<(Position, Position)>,
    times: int,
    width: usize,
    height: usize,
    i: int,
) -> (nat, nat, nat, nat)
    decreases i,
{
    if i <= 0 || i > robots.len() {
        (0, 0, 0, 0)
    } else {
        let prev = spec_quadrants(robots, times, width, height, i - 1);
        let at = spec_robot_at(robots[i - 1], times, width, height);
        let mid_x = width as int / 2;
        let mid_y = height as int / 2;
        if at.0 == mid_x || at.1 == mid_y {
            prev
        } else if at.1 < mid_y {
            if at.0 < mid_x {
                (prev.0, prev.1 + 1, prev.2, prev.3)
            } else {
                (prev.0 + 1, prev.1, prev.2, prev.3)
            }
        } else {
            if at.0 < mid_x {
                (prev.0, prev.1, prev.2 + 1, prev.3)
            } else {
                (prev.0, prev.1, prev.2, prev.3 + 1)
            }
        }
    }
}

/// Where a robot stands after `times` seconds, both axes wrapping.
fn robot_go(robot: (Position, Position), times: i128, width: usize, height: usize) -> (r: (
    i128,
    i128,
))
    requires
        1 <= width,
        1 <= height,
        0 <= times <= 0x8000,
    ensures
        0 <= r.0 < width,
        0 <= r.1 < height,
        (r.0 as int, r.1 as int) == spec_robot_at(robot, times as int, width, height),
{
    let (pos, vel) = robot;
    proof {
        assert(-0x4000_0000_0000_0000_0000 <= (vel.x as int) * times <= 0x4000_0000_0000_0000_0000)
            by (nonlinear_arith)
            requires
                -0x8000_0000_0000_0000 <= vel.x as int <= 0x8000_0000_0000_0000,
                0 <= times <= 0x8000,
        ;
        assert(-0x4000_0000_0000_0000_0000 <= (vel.y as int) * times <= 0x4000_0000_0000_0000_0000)
            by (nonlinear_arith)
            requires
                -0x8000_0000_0000_0000 <= vel.y as int <= 0x8000_0000_0000_0000,
                0 <= times <= 0x8000,
        ;
    }
    let x = crate::numfmt::emod_i128(pos.x as i128 + vel.x as i128 * times, width as i128);
    let y = crate::numfmt::emod_i128(pos.y as i128 + vel.y as i128 * times, height as i128);
    (x, y)
}

/// Saturating product: exact whenever the true product fits.
fn sat_mul_u128(a: u128, b: u128) -> (r: u128)
    ensures
        a as nat * b as nat <= u128::MAX ==> r == a as nat * b as nat,
{
    if b != 0 && a > u128::MAX / b {
        proof {
            let bm = b as int;
            vstd::arithmetic::div_mod::lemma_fundamental_div_mod(u128::MAX as int, bm);
            assert((a as int) * bm > u128::MAX as int) by (nonlinear_arith)
                requires
                    a as int > u128::MAX as int / bm,
                    bm >= 1,
                    u128::MAX as int == bm * (u128::MAX as int / bm) + (u128::MAX as int % bm),
                    0 <= u128::MAX as int % bm < bm,
            ;
        }
        u128::MAX
    } else {
        proof {
            if b != 0 {
                let bm = b as int;
                vstd::arithmetic::div_mod::lemma_fundamental_div_mod(u128::MAX as int, bm);
                assert((a as int) * bm <= (u128::MAX as int / bm) * bm) by (nonlinear_arith)
                    requires
                        a as int <= u128::MAX as int / bm,
                        bm >= 1,
                ;
                assert((u128::MAX as int / bm) * bm == bm * (u128::MAX as int / bm))
                    by (nonlinear_arith);
            }
        }
        a * b
    }
}

/// Parse a possibly negative coordinate.
fn parse_coord(s: &str) -> Option<i128> {
    let len = s.unicode_len();
    if len >= 1 && s.get_char(0) == '-' {
        match parse_usize(s.substring_char(1, len)) {
            Some(v) => Some(-(v as i128)),
            None => None,
        }
    } else {
        match parse_usize(s) {
            Some(v) => Some(v as i128),
            None => None,
        }
    }
}

/// Parse an `x,y` pair after the `=` of a robot attribute.
fn parse_pair(s: &str) -> Option<(i128, i128)> {
    let sides = split_char(s, '=');
    if sides.len() != 2 {
        return None;
    }
    let cells = split_char(sides[1], ',');
    if cells.len() != 2 {
        return None;
    }
    match (parse_coord(cells[0]), parse_coord(cells[1])) {
        (Some(x), Some(y)) => Some((x, y)),
        _ => None,
    }
}

impl Day for Day14 {
    type Input = Robots;

    fn day() -> usize {
        14
    }

    fn example_input_1() -> &'static str {
        "11,7\n\np=0,4 v=3,-3\np=6,3 v=-1,-3\np=10,3 v=-1,2\np=2,0 v=2,-1\np=0,0 v=1,3\np=3,0 v=-2,-2\np=7,6 v=-1,-3\np=3,0 v=-1,-2\np=9,3 v=2,3\np=7,3 v=-1,2\np=2,4 v=2,-3\np=9,5 v=-3,-3"
    }

    fn expected_1() -> &'static str {
        "12"
    }

    /// A first line `width,height`, a blank line, then one robot per line as
    /// `p=x,y v=x,y`; malformed pieces are dropped.
    fn parse_input(input: &str) -> Self::Input {
        let lines = split_char(input, '\n');
        let mut width: usize = 0;
        let mut height: usize = 0;
        let mut robots: Vec<(Position, Position)> = Vec::new();
        let mut header_done = false;
        let mut i: usize = 0;
        while i < lines.len()
            decreases lines.len() - i,
        {
            let line = lines[i];
            let toks = tokens(line);
            if toks.len() == 0 {
                i = i + 1;
                continue ;
            }
            if !header_done {
                let cells = split_char(toks[0], ',');
                if cells.len() == 2 {
                    match (parse_usize(cells[0]), parse_usize(cells[1])) {
                        (Some(w), Some(h)) => {
                            width = w;
                            height = h;
                        },
                        _ => (),
                    }
                }
                header_done = true;
            } else if toks.len() == 2 {
                match (parse_pair(toks[0]), parse_pair(toks[1])) {
                    (Some(p), Some(v)) => {
                        if -0x4000_0000 <= p.0 && p.0 <= 0x4000_0000 && -0x4000_0000 <= p.1 && p.1
                            <= 0x4000_0000 && -0x4000_0000 <= v.0 && v.0 <= 0x4000_0000
                            && -0x4000_0000 <= v.1 && v.1 <= 0x4000_0000 {
                            robots.push(
                                (
                                    Position { x: p.0 as isize, y: p.1 as isize },
                                    Position { x: v.0 as isize, y: v.1 as isize },
                                ),
                            );
                        }
                    },
                    _ => (),
                }
            }
            i = i + 1;
        }
        Robots { width, height, robots }
    }

    /// The safety factor: the product of the four quadrant counts after one
    /// hundred seconds, robots on the middle lines counting nowhere.
    /// Whenever the products fit the accumulator (any real floor's do), the
    /// answer is exactly that product in decimal; past that it saturates.
    /// An empty floor yields nothing.
    fn part_1(input: Self::Input) -> (r: Option<String>)
        ensures
            ({
                let q = spec_quadrants(
                    input.robots@,
                    100,
                    input.width,
                    input.height,
                    input.robots@.len() as int,
                );
                (input.width >= 1 && input.height >= 1 && q.1 * q.0 <= u128::MAX && q.2 * q.3
                    <= u128::MAX && (q.1 * q.0) * (q.2 * q.3) <= u128::MAX) ==> (r matches Some(a)
                    && a@ == crate::numfmt::dec_digits((q.1 * q.0) * (q.2 * q.3)))
            }),
    {
        if input.width < 1 || input.height < 1 {
            return None;
        }
        let mut upper_right: u128 = 0;
        let mut upper_left: u128 = 0;
        let mut lower_left: u128 = 0;
        let mut lower_right: u128 = 0;
        let mid_x = (input.width / 2) as i128;
        let mid_y = (input.height / 2) as i128;
        let mut i: usize = 0;
        while i < input.robots.len()
            invariant
                1 <= input.width,
                1 <= input.height,
                upper_right <= i,
                upper_left <= i,
                lower_left <= i,
                lower_right <= i,
                mid_x == input.width as int / 2,
                mid_y == input.height as int / 2,
                i <= input.robots@.len(),
                (upper_right as nat, upper_left as nat, lower_left as nat, lower_right as nat)
                    == spec_quadrants(input.robots@, 100, input.width, input.height, i as int),
            decreases input.robots@.len() - i,
        {
            let (x, y) = robot_go(input.robots[i], 100, input.width, input.height);
            if x != mid_x && y != mid_y {
                if y < mid_y {
                    if x < mid_x {
                        upper_left = upper_left + 1;
                    } else {
                        upper_right = upper_right + 1;
                    }
                } else {
                    if x < mid_x {
                        lower_left = lower_left + 1;
                    } else {
                        lower_right = lower_right + 1;
                    }
                }
            }
            i = i + 1;
        }
        let product = sat_mul_u128(
            sat_mul_u128(upper_left, upper_right),
            sat_mul_u128(lower_left, lower_right),
        );
        Some(format_u128(product))
    }

    /// The first second at which every robot stands on its own cell — the
    /// moment they arrange into the picture.  Only the full-size floor is
    /// searched; any other floor yields an empty answer.
    fn part_2(input: Self::Input) -> Option<String> {
        if input.width != 101 || input.height != 103 {
            return Some(String::new());
        }
        let mut second: usize = 0;
        // Positions repeat after width times height seconds.
        while second < 101 * 103
            decreases 101 * 103 - second,
        {
            let mut occupied = CellMask::new(101, 103);
            let mut all_distinct = true;
            let mut i: usize = 0;
            while i < input.robots.len()
                invariant
                    second <= 0x8000,
                decreases input.robots@.len() - i,
            {
                let (x, y) = robot_go(input.robots[i], second as i128, 101, 103);
                if !occupied.mark(x, y) {
                    all_distinct = false;
                }
                i = i + 1;
            }
            if all_distinct && input.robots.len() > 0 {
                return Some(format_usize(second));
            }
            second = second + 1;
        }
        None
    }
}

} // verus!

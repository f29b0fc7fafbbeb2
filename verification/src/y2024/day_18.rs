//! Day 18: bytes fall onto a memory grid — find the shortest safe path to
//! the far corner, then the first byte that cuts the exit off entirely.

use vstd::prelude::*;

use crate::day::Day;
use crate::grid::CellMask;
use crate::numfmt::{format_usize, parse_usize};
use crate::textutil::{split_char, tokens};

verus! {

pub struct Day18;

/// The parsed puzzle: the grid bounds, how many bytes have already fallen,
/// and every byte's landing cell in falling order.
#[derive(Clone)]
pub struct Memory {
    pub width: usize,
    pub height: usize,
    pub fallen: usize,
    pub bytes: Vec<(usize, usize)>,
}

/// The largest side length the search accepts.
pub const MEMORY_DIM: usize = 0x3fff;

/// The length of the shortest path from the top-left corner to the
/// bottom-right one, stepping only on unblocked cells, or nothing when the
/// exit is cut off.  `blocked_upto` bytes of the list count as walls.
fn shortest_exit(mem: &Memory, blocked_upto: usize) -> (r: Option<usize>)
    requires
        1 <= mem.width <= 0x3fff,
        1 <= mem.height <= 0x3fff,
{
    let (w, h) = (mem.width, mem.height);
    let mut blocked = CellMask::new(w, h);
    let mut i: usize = 0;
    while i < mem.bytes.len() && i < blocked_upto
        decreases mem.bytes@.len() - i,
    {
        blocked.mark(mem.bytes[i].0 as i128, mem.bytes[i].1 as i128);
        i = i + 1;
    }
    let mut seen = CellMask::new(w, h);
    if !seen.mark(0, 0) {
        return None;
    }
    let mut frontier: Vec<(usize, usize)> = Vec::new();
    frontier.push((0, 0));
    let mut cost: usize = 0;
    proof {
        assert(w * h <= 0x3fff * 0x3fff) by (nonlinear_arith)
            requires
                w <= 0x3fff,
                h <= 0x3fff,
        ;
    }
    let steps = w * h + 1;
    let mut round: usize = 0;
    while round < steps
        invariant
            w == mem.width,
            h == mem.height,
            1 <= w <= 0x3fff,
            1 <= h <= 0x3fff,
            forall|k: int|
                0 <= k < frontier@.len() ==> (#[trigger] frontier@[k]).0 < w && frontier@[k].1 < h,
        decreases steps - round,
    {
        if frontier.len() == 0 {
            return None;
        }
        let mut next: Vec<(usize, usize)> = Vec::new();
        let mut f: usize = 0;
        while f < frontier.len()
            invariant
                w == mem.width,
                h == mem.height,
                1 <= w <= 0x3fff,
                1 <= h <= 0x3fff,
                forall|k: int|
                    0 <= k < frontier@.len() ==> (#[trigger] frontier@[k]).0 < w && frontier@[k].1
                        < h,
                forall|k: int|
                    0 <= k < next@.len() ==> (#[trigger] next@[k]).0 < w && next@[k].1 < h,
            decreases frontier@.len() - f,
        {
            let (x, y) = frontier[f];
            if x == w - 1 && y == h - 1 {
                return Some(cost);
            }
            let mut d: usize = 0;
            while d < 4
                invariant
                    w == mem.width,
                    h == mem.height,
                    1 <= w <= 0x3fff,
                    1 <= h <= 0x3fff,
                    x < w,
                    y < h,
                    forall|k: int|
                        0 <= k < next@.len() ==> (#[trigger] next@[k]).0 < w && next@[k].1 < h,
                decreases 4 - d,
            {
                let candidate: Option<(usize, usize)> = if d == 0 {
                    if y > 0 {
                        Some((x, y - 1))
                    } else {
                        None
                    }
                } else if d == 1 {
                    if y + 1 < h {
                        Some((x, y + 1))
                    } else {
                        None
                    }
                } else if d == 2 {
                    if x + 1 < w {
                        Some((x + 1, y))
                    } else {
                        None
                    }
                } else {
                    if x > 0 {
                        Some((x - 1, y))
                    } else {
                        None
                    }
                };
                match candidate {
                    Some((nx, ny)) => {
                        if !blocked.marked(nx as i128, ny as i128) && seen.mark(
                            nx as i128,
                            ny as i128,
                        ) {
                            next.push((nx, ny));
                        }
                    },
                    None => (),
                }
                d = d + 1;
            }
            f = f + 1;
        }
        frontier = next;
        cost = if cost < usize::MAX {
            cost + 1
        } else {
            cost
        };
        round = round + 1;
    }
    None
}

impl Day for Day18 {
    type Input = Memory;

    fn day() -> usize {
        18
    }

    fn example_input_1() -> &'static str {
        "7,7,12\n\n5,4\n4,2\n4,5\n3,0\n2,1\n6,3\n2,4\n1,5\n0,6\n3,3\n2,6\n5,1\n1,2\n5,5\n2,5\n6,5\n1,4\n0,4\n6,4\n1,1\n6,1\n1,0\n0,5\n1,6\n2,0"
    }

    fn example_input_2() -> &'static str {
        "7,7,12\n\n5,4\n4,2\n4,5\n3,0\n2,1\n6,3\n2,4\n1,5\n0,6\n3,3\n2,6\n5,1\n1,2\n5,5\n2,5\n6,5\n1,4\n0,4\n6,4\n1,1\n6,1\n1,0\n0,5\n1,6\n2,0"
    }

    fn expected_1() -> &'static str {
        "22"
    }

    fn expected_2() -> &'static str {
        "6,1"
    }

    /// A first line `width,height,fallen`, a blank line, then one landing
    /// cell `x,y` per line; malformed pieces are dropped.
    fn parse_input(input: &str) -> Self::Input {
        let lines = split_char(input, '\n');
        let mut width: usize = 0;
        let mut height: usize = 0;
        let mut fallen: usize = 0;
        let mut bytes: Vec<(usize, usize)> = Vec::new();
        let mut header_done = false;
        let mut i: usize = 0;
        while i < lines.len()
            decreases lines.len() - i,
        {
            let line = lines[i];
            let toks = tokens(line);
            if toks.len() == 0 {
                i = i + 1;
                continue ;
            }
            let cells = split_char(toks[0], ',');
            if !header_done {
                if cells.len() == 3 {
                    match (parse_usize(cells[0]), parse_usize(cells[1]), parse_usize(cells[2])) {
                        (Some(w), Some(h), Some(n)) => {
                            width = w;
                            height = h;
                            fallen = n;
                        },
                        _ => (),
                    }
                }
                header_done = true;
            } else if cells.len() == 2 {
                match (parse_usize(cells[0]), parse_usize(cells[1])) {
                    (Some(x), Some(y)) => bytes.push((x, y)),
                    _ => (),
                }
            }
            i = i + 1;
        }
        Memory { width, height, fallen, bytes }
    }

    /// The shortest exit path once the first bytes have fallen.
    fn part_1(input: Self::Input) -> Option<String> {
        if input.width < 1 || input.width > MEMORY_DIM || input.height < 1
            || input.height > MEMORY_DIM {
            return None;
        }
        match shortest_exit(&input, input.fallen) {
            Some(cost) => Some(format_usize(cost)),
            None => None,
        }
    }

    /// The first byte whose landing cuts the exit off, as `x,y`.
    fn part_2(input: Self::Input) -> Option<String> {
        if input.width < 1 || input.width > MEMORY_DIM || input.height < 1
            || input.height > MEMORY_DIM {
            return None;
        }
        let mut i: usize = 0;
        while i < input.bytes.len()
            invariant
                1 <= input.width <= 0x3fff,
                1 <= input.height <= 0x3fff,
        decreases input.bytes@.len() - i,
        {
            if i < usize::MAX {
                match shortest_exit(&input, i + 1) {
                    Some(_) => (),
                    None => {
                        let mut text = format_usize(input.bytes[i].0);
                        text.append(",");
                        text.append(format_usize(input.bytes[i].1).as_str());
                        return Some(text);
                    },
                }
            }
            i = i + 1;
        }
        None
    }
}

} // verus!

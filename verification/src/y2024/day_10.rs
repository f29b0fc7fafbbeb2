//! Day 10: hiking trails — from every trailhead at height zero, walk only
//! uphill by exactly one; score by reachable summits, then rate by the
//! number of distinct trails.

use vstd::prelude::*;

use crate::day::Day;
use crate::grid::Grid;
use crate::numfmt::{char_digit, digit_value, format_usize};
use crate::pos::Position;

verus! {

pub struct Day10;

/// One map cell: its height, read from a decimal digit (anything else reads
/// as height zero).
#[derive(Clone, Copy, Debug, PartialEq, Eq, Structural)]
pub struct Tile(pub usize);

impl Tile {
    /// The tile a map character denotes.
    pub fn from_char(c: char) -> (r: Tile)
        ensures
            r == Tile(digit_value(c) as usize),
    {
        match char_digit(c) {
            Some(d) => Tile(d as usize),
            None => Tile(0),
        }
    }
}

/// The height at mathematical coordinates, or nothing off the map.
fn height_at(grid: &Grid<Tile>, x: i128, y: i128) -> (r: Option<usize>)
    ensures
        r is Some ==> 0 <= x <= isize::MAX && 0 <= y <= isize::MAX,
{
    if x < 0 || y < 0 || x > isize::MAX as i128 || y > isize::MAX as i128 {
        return None;
    }
    match grid.get(Position { x: x as isize, y: y as isize }) {
        Some(t) => Some(t.0),
        None => None,
    }
}

/// Record a point if it is new.
fn note(points: &mut Vec<(i128, i128)>, x: i128, y: i128) {
    let mut i: usize = 0;
    while i < points.len()
        decreases points@.len() - i,
    {
        if points[i].0 == x && points[i].1 == y {
            return ;
        }
        i = i + 1;
    }
    points.push((x, y));
}

/// Every position of height zero.
fn trailheads(grid: &Grid<Tile>) -> (found: Vec<(i128, i128)>)
    ensures
        forall|i: int|
            0 <= i < found@.len() ==> 0 <= (#[trigger] found@[i]).0 <= isize::MAX && 0
                <= found@[i].1 <= isize::MAX,
{
    let mut found: Vec<(i128, i128)> = Vec::new();
    let mut y: usize = 0;
    while y < grid.row_count()
        invariant
            y <= crate::grid::g_height(grid),
            forall|i: int|
                0 <= i < found@.len() ==> 0 <= (#[trigger] found@[i]).0 <= isize::MAX && 0
                    <= found@[i].1 <= isize::MAX,
        decreases crate::grid::g_height(grid) - y,
    {
        let mut x: usize = 0;
        while x < grid.row_len(y)
            invariant
                y < crate::grid::g_height(grid),
                forall|i: int|
                    0 <= i < found@.len() ==> 0 <= (#[trigger] found@[i]).0 <= isize::MAX && 0
                        <= found@[i].1 <= isize::MAX,
            decreases grid@[y as int].len() - x,
        {
            match height_at(grid, x as i128, y as i128) {
                Some(h) => {
                    if h == 0 {
                        found.push((x as i128, y as i128));
                    }
                },
                None => (),
            }
            x = x + 1;
        }
        y = y + 1;
    }
    found
}

/// Walk uphill from one trailhead: the ends of every trail of heights zero
/// through nine, one entry per trail (so with duplicates when trails share
/// their summit).
fn trail_ends(grid: &Grid<Tile>, start: (i128, i128)) -> Vec<(i128, i128)>
    requires
        0 <= start.0 <= isize::MAX,
        0 <= start.1 <= isize::MAX,
{
    let mut frontier: Vec<(i128, i128)> = Vec::new();
    frontier.push(start);
    let mut level: usize = 0;
    while level < 9
        invariant
            forall|i: int|
                0 <= i < frontier@.len() ==> 0 <= (#[trigger] frontier@[i]).0 <= isize::MAX && 0
                    <= frontier@[i].1 <= isize::MAX,
        decreases 9 - level,
    {
        let mut next: Vec<(i128, i128)> = Vec::new();
        let mut f: usize = 0;
        while f < frontier.len()
            invariant
                level < 9,
                forall|i: int|
                    0 <= i < frontier@.len() ==> 0 <= (#[trigger] frontier@[i]).0 <= isize::MAX
                        && 0 <= frontier@[i].1 <= isize::MAX,
                forall|i: int|
                    0 <= i < next@.len() ==> 0 <= (#[trigger] next@[i]).0 <= isize::MAX && 0
                        <= next@[i].1 <= isize::MAX,
            decreases frontier@.len() - f,
        {
            let (x, y) = frontier[f];
            let mut d: usize = 0;
            while d < 4
                invariant
                    0 <= x <= isize::MAX,
                    0 <= y <= isize::MAX,
                    level < 9,
                    forall|i: int|
                        0 <= i < next@.len() ==> 0 <= (#[trigger] next@[i]).0 <= isize::MAX && 0
                            <= next@[i].1 <= isize::MAX,
                decreases 4 - d,
            {
                let (nx, ny) = if d == 0 {
                    (x, y - 1)
                } else if d == 1 {
                    (x, y + 1)
                } else if d == 2 {
                    (x + 1, y)
                } else {
                    (x - 1, y)
                };
                match height_at(grid, nx, ny) {
                    Some(h) => {
                        if h == level + 1 {
                            next.push((nx, ny));
                        }
                    },
                    None => (),
                }
                d = d + 1;
            }
            f = f + 1;
        }
        frontier = next;
        level = level + 1;
    }
    frontier
}

/// Sum the trailheads' values: distinct summits reached, or, for ratings,
/// distinct trails walked.
fn trail_sum(grid: &Grid<Tile>, distinct_summits: bool) -> usize {
    let heads = trailheads(grid);
    let mut total: usize = 0;
    let mut h: usize = 0;
    while h < heads.len()
        invariant
            forall|i: int|
                0 <= i < heads@.len() ==> 0 <= (#[trigger] heads@[i]).0 <= isize::MAX && 0
                    <= heads@[i].1 <= isize::MAX,
        decreases heads@.len() - h,
    {
        let ends = trail_ends(grid, heads[h]);
        let value: usize = if distinct_summits {
            let mut distinct: Vec<(i128, i128)> = Vec::new();
            let mut e: usize = 0;
            while e < ends.len()
                decreases ends@.len() - e,
            {
                note(&mut distinct, ends[e].0, ends[e].1);
                e = e + 1;
            }
            distinct.len()
        } else {
            ends.len()
        };
        total = if total <= usize::MAX - value {
            total + value
        } else {
            usize::MAX
        };
        h = h + 1;
    }
    total
}

impl Day for Day10 {
    type Input = Grid<Tile>;

    fn day() -> usize {
        10
    }

    fn example_input_1() -> &'static str {
        "89010123\n78121874\n87430965\n96549874\n45678903\n32019012\n01329801\n10456732"
    }

    fn example_input_2() -> &'static str {
        "89010123\n78121874\n87430965\n96549874\n45678903\n32019012\n01329801\n10456732"
    }

    fn expected_1() -> &'static str {
        "36"
    }

    fn expected_2() -> &'static str {
        "81"
    }

    /// One row per line, one height digit per character.
    fn parse_input(input: &str) -> Self::Input {
        let lines = crate::textutil::split_char(input, '\n');
        let mut rows: Vec<Vec<Tile>> = Vec::new();
        let mut i: usize = 0;
        while i < lines.len()
            decreases lines.len() - i,
        {
            let line = lines[i];
            let len = line.unicode_len();
            let mut row: Vec<Tile> = Vec::new();
            let mut k: usize = 0;
            while k < len
                invariant
                    len == line@.len(),
                decreases len - k,
            {
                row.push(Tile::from_char(line.get_char(k)));
                k = k + 1;
            }
            rows.push(row);
            i = i + 1;
        }
        Grid::new(rows)
    }

    /// The summed scores: distinct summits reachable from each trailhead.
    fn part_1(input: Self::Input) -> Option<String> {
        Some(format_usize(trail_sum(&input, true)))
    }

    /// The summed ratings: distinct trails from each trailhead.
    fn part_2(input: Self::Input) -> Option<String> {
        Some(format_usize(trail_sum(&input, false)))
    }
}

} // verus!

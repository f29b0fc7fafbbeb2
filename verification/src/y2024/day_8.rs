//! Day 8: antennas of equal frequency cast antinodes along their line —
//! first at mirrored distances, then at every grid point on the line.

use vstd::prelude::*;

use crate::day::Day;
use crate::grid::Grid;
use crate::numfmt::format_usize;
use crate::pos::Position;

verus! {

pub struct Day8;

/// Whether mathematical coordinates name a cell of the grid.
fn on_grid(grid: &Grid<char>, x: i128, y: i128) -> (r: bool)
    ensures
        r ==> 0 <= x <= usize::MAX && 0 <= y <= usize::MAX,
{
    if y < 0 || x < 0 {
        return false;
    }
    if y >= grid.row_count() as i128 {
        return false;
    }
    let row = grid.row_len(y as usize);
    x < row as i128
}

/// Every antenna of the grid: its coordinates and its frequency.  Any cell
/// other than an empty `.` is an antenna.
fn antennas(grid: &Grid<char>) -> (found: Vec<(i128, i128, char)>)
    ensures
        forall|i: int|
            0 <= i < found@.len() ==> 0 <= (#[trigger] found@[i]).0 <= isize::MAX && 0
                <= found@[i].1 <= isize::MAX,
{
    let mut found: Vec<(i128, i128, char)> = Vec::new();
    let mut y: usize = 0;
    while y < grid.row_count()
        invariant
            y <= crate::grid::g_height(grid),
            forall|i: int|
                0 <= i < found@.len() ==> 0 <= (#[trigger] found@[i]).0 <= isize::MAX && 0
                    <= found@[i].1 <= isize::MAX,
        decreases crate::grid::g_height(grid) - y,
    {
        let mut x: usize = 0;
        while x < grid.row_len(y)
            invariant
                y < crate::grid::g_height(grid),
                forall|i: int|
                    0 <= i < found@.len() ==> 0 <= (#[trigger] found@[i]).0 <= isize::MAX && 0
                        <= found@[i].1 <= isize::MAX,
            decreases grid@[y as int].len() - x,
        {
            if x <= isize::MAX as usize && y <= isize::MAX as usize {
                match grid.get(Position { x: x as isize, y: y as isize }) {
                    Some(c) => {
                        if *c != '.' {
                            found.push((x as i128, y as i128, *c));
                        }
                    },
                    None => (),
                }
            }
            x = x + 1;
        }
        y = y + 1;
    }
    found
}

/// Record a point if it is new.
fn note(points: &mut Vec<(i128, i128)>, x: i128, y: i128) {
    let mut i: usize = 0;
    while i < points.len()
        decreases points@.len() - i,
    {
        if points[i].0 == x && points[i].1 == y {
            return ;
        }
        i = i + 1;
    }
    points.push((x, y));
}

/// How many distinct antinodes the grid's antennas cast.  Without
/// resonance each ordered pair casts one node beyond each end; with it,
/// every point at a whole multiple of the pair's offset counts, the
/// antennas themselves included.
fn antinode_count(grid: &Grid<char>, resonant: bool) -> usize {
    let all = antennas(grid);
    let mut nodes: Vec<(i128, i128)> = Vec::new();
    let width = if grid.row_count() > 0 {
        grid.row_len(0)
    } else {
        0
    };
    let max_steps = if grid.row_count() <= usize::MAX - width {
        grid.row_count() + width
    } else {
        usize::MAX
    };
    let mut a: usize = 0;
    while a < all.len()
        invariant
            forall|i: int|
                0 <= i < all@.len() ==> 0 <= (#[trigger] all@[i]).0 <= isize::MAX && 0
                    <= all@[i].1 <= isize::MAX,
        decreases all@.len() - a,
    {
        let (ax, ay, af) = all[a];
        let mut b: usize = 0;
        while b < all.len()
            invariant
                a < all@.len(),
                0 <= ax <= isize::MAX,
                0 <= ay <= isize::MAX,
                forall|i: int|
                    0 <= i < all@.len() ==> 0 <= (#[trigger] all@[i]).0 <= isize::MAX && 0
                        <= all@[i].1 <= isize::MAX,
            decreases all@.len() - b,
        {
            let (bx, by, bf) = all[b];
            if (ax != bx || ay != by) && af == bf {
                let dx = bx - ax;
                let dy = by - ay;
                if resonant {
                    note(&mut nodes, ax, ay);
                    let mut k: usize = 0;
                    let mut cx = bx + dx;
                    let mut cy = by + dy;
                    while k < max_steps && on_grid(grid, cx, cy)
                        invariant
                            k <= max_steps,
                            -0x2_0000_0000_0000_0000 <= cx <= 0x2_0000_0000_0000_0000,
                            -0x2_0000_0000_0000_0000 <= cy <= 0x2_0000_0000_0000_0000,
                            -0x8000_0000_0000_0000 <= dx <= 0x8000_0000_0000_0000,
                            -0x8000_0000_0000_0000 <= dy <= 0x8000_0000_0000_0000,
                        decreases max_steps - k,
                    {
                        note(&mut nodes, cx, cy);
                        cx = cx + dx;
                        cy = cy + dy;
                        k = k + 1;
                    }
                    let mut k: usize = 0;
                    let mut cx = ax - dx;
                    let mut cy = ay - dy;
                    while k < max_steps && on_grid(grid, cx, cy)
                        invariant
                            k <= max_steps,
                            -0x2_0000_0000_0000_0000 <= cx <= 0x2_0000_0000_0000_0000,
                            -0x2_0000_0000_0000_0000 <= cy <= 0x2_0000_0000_0000_0000,
                            -0x8000_0000_0000_0000 <= dx <= 0x8000_0000_0000_0000,
                            -0x8000_0000_0000_0000 <= dy <= 0x8000_0000_0000_0000,
                        decreases max_steps - k,
                    {
                        note(&mut nodes, cx, cy);
                        cx = cx - dx;
                        cy = cy - dy;
                        k = k + 1;
                    }
                } else {
                    if on_grid(grid, bx + dx, by + dy) {
                        note(&mut nodes, bx + dx, by + dy);
                    }
                    if on_grid(grid, ax - dx, ay - dy) {
                        note(&mut nodes, ax - dx, ay - dy);
                    }
                }
            }
            b = b + 1;
        }
        a = a + 1;
    }
    nodes.len()
}

impl Day for Day8 {
    type Input = Grid<char>;

    fn day() -> usize {
        8
    }

    fn example_input_1() -> &'static str {
        "............\n........0...\n.....0......\n.......0....\n....0.......\n......A.....\n............\n............\n........A...\n.........A..\n............\n............"
    }

    fn example_input_2() -> &'static str {
        "............\n........0...\n.....0......\n.......0....\n....0.......\n......A.....\n............\n............\n........A...\n.........A..\n............\n............"
    }

    fn expected_1() -> &'static str {
        "14"
    }

    fn expected_2() -> &'static str {
        "34"
    }

    fn parse_input(input: &str) -> Self::Input {
        Grid::parse(input)
    }

    /// The count of antinodes at mirrored pair distances.
    fn part_1(input: Self::Input) -> Option<String> {
        Some(format_usize(antinode_count(&input, false)))
    }

    /// The count of antinodes with resonant harmonics.
    fn part_2(input: Self::Input) -> Option<String> {
        Some(format_usize(antinode_count(&input, true)))
    }
}

} // verus!

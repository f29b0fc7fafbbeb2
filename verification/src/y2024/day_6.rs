//! Day 6: a guard patrols the lab, walking straight and turning right at
//! obstacles — count the cells the patrol covers, then the places where one
//! new obstacle traps the guard in a loop.

use vstd::prelude::*;

use crate::day::Day;
use crate::grid::{CellMask, Grid};
use crate::numfmt::format_usize;
use crate::pos::Position;

verus! {

pub struct Day6;

/// One lab cell.
#[derive(Debug, Clone, Copy, PartialEq, Eq, Structural)]
pub enum Tile {
    Floor,
    Wall,
    GuardStart,
}

impl Tile {
    /// The tile a map character denotes.
    pub fn from_char(c: char) -> Tile {
        if c == '#' {
            Tile::Wall
        } else if c == '^' {
            Tile::GuardStart
        } else {
            Tile::Floor
        }
    }

    /// Whether the guard can stand here.
    pub fn is_open(&self) -> bool {
        match self {
            Tile::Wall => false,
            _ => true,
        }
    }
}

/// The largest side length the patrol simulation accepts.
pub const PATROL_DIM: usize = 0x3fff;

/// The tile at the given coordinates, or nothing off the map.
fn tile_at(grid: &Grid<Tile>, x: i128, y: i128) -> Option<Tile> {
    if x < 0 || y < 0 || x > isize::MAX as i128 || y > isize::MAX as i128 {
        return None;
    }
    match grid.get(Position { x: x as isize, y: y as isize }) {
        Some(t) => Some(*t),
        None => None,
    }
}

/// The unit step of a facing: north, east, south, west.
fn facing_step(dir: usize) -> (r: (i128, i128))
    ensures
        -1 <= r.0 <= 1,
        -1 <= r.1 <= 1,
{
    if dir % 4 == 0 {
        (0, -1)
    } else if dir % 4 == 1 {
        (1, 0)
    } else if dir % 4 == 2 {
        (0, 1)
    } else {
        (-1, 0)
    }
}

/// The guard's starting cell.
fn find_start(grid: &Grid<Tile>) -> Option<(i128, i128)> {
    let mut y: usize = 0;
    while y < grid.row_count()
        invariant
            y <= crate::grid::g_height(grid),
        decreases crate::grid::g_height(grid) - y,
    {
        let mut x: usize = 0;
        while x < grid.row_len(y)
            invariant
                y < crate::grid::g_height(grid),
            decreases grid@[y as int].len() - x,
        {
            match tile_at(grid, x as i128, y as i128) {
                Some(Tile::GuardStart) => {
                    return Some((x as i128, y as i128));
                },
                _ => (),
            }
            x = x + 1;
        }
        y = y + 1;
    }
    None
}

/// Walk the patrol from the start, with an optional extra obstacle: marks
/// every cell stood on, and reports whether the guard is trapped in a loop
/// rather than leaving the map.  `candidates`, when present, collects each
/// cell the guard faces in turn.
fn patrol(
    grid: &Grid<Tile>,
    width: usize,
    height: usize,
    start: (i128, i128),
    obs: Option<(i128, i128)>,
    visited: &mut CellMask,
    candidates: Option<&mut Vec<(i128, i128)>>,
) -> (looped: bool)
    requires
        width <= 0x3fff,
        height <= 0x3fff,
{
    let mut faced = match candidates {
        Some(c) => Some(c),
        None => None,
    };
    let (mut x, mut y) = start;
    let mut dir: usize = 0;
    proof {
        assert(width * height <= 0x3fff * 0x3fff) by (nonlinear_arith)
            requires
                width <= 0x3fff,
                height <= 0x3fff,
        ;
    }
    // Every distinct guard state is a cell and one of four facings; a patrol
    // that outlasts them all has repeated a state and loops forever.
    let mut fuel: usize = 8 * (width * height) + 8;
    while fuel > 0
        decreases fuel,
    {
        fuel = fuel - 1;
        visited.mark(x, y);
        let (dx, dy) = facing_step(dir);
        let nx = if -0x8000 <= x && x <= 0x8000 {
            x + dx
        } else {
            x
        };
        let ny = if -0x8000 <= y && y <= 0x8000 {
            y + dy
        } else {
            y
        };
        match tile_at(grid, nx, ny) {
            None => {
                return false;
            },
            Some(tile) => {
                match faced {
                    Some(ref mut c) => c.push((nx, ny)),
                    None => (),
                }
                let blocked = !tile.is_open() || (match obs {
                    Some((ox, oy)) => nx == ox && ny == oy,
                    None => false,
                });
                if blocked {
                    dir = (dir % 4) + 1;
                } else {
                    x = nx;
                    y = ny;
                }
            },
        }
    }
    true
}

impl Day for Day6 {
    type Input = Grid<Tile>;

    fn day() -> usize {
        6
    }

    fn example_input_1() -> &'static str {
        "....#.....\n.........#\n..........\n..#.......\n.......#..\n..........\n.#..^.....\n........#.\n#.........\n......#..."
    }

    fn example_input_2() -> &'static str {
        "....#.....\n.........#\n..........\n..#.......\n.......#..\n..........\n.#..^.....\n........#.\n#.........\n......#..."
    }

    fn expected_1() -> &'static str {
        "41"
    }

    fn expected_2() -> &'static str {
        "6"
    }

    /// One row per line, one cell per character.
    fn parse_input(input: &str) -> Self::Input {
        let lines = crate::textutil::split_char(input, '\n');
        let mut rows: Vec<Vec<Tile>> = Vec::new();
        let mut i: usize = 0;
        while i < lines.len()
            decreases lines.len() - i,
        {
            let line = lines[i];
            let len = line.unicode_len();
            let mut row: Vec<Tile> = Vec::new();
            let mut k: usize = 0;
            while k < len
                invariant
                    len == line@.len(),
                decreases len - k,
            {
                row.push(Tile::from_char(line.get_char(k)));
                k = k + 1;
            }
            rows.push(row);
            i = i + 1;
        }
        Grid::new(rows)
    }

    /// How many distinct cells the unobstructed patrol covers.
    fn part_1(input: Self::Input) -> Option<String> {
        let height = input.row_count();
        let width = if height > 0 {
            input.row_len(0)
        } else {
            0
        };
        if width > PATROL_DIM || height > PATROL_DIM {
            return None;
        }
        let start = match find_start(&input) {
            Some(s) => s,
            None => {
                return None;
            },
        };
        let mut visited = CellMask::new(width, height);
        patrol(&input, width, height, start, None, &mut visited, None);
        Some(format_usize(visited.set_count))
    }

    /// How many single new obstacles trap the guard in a loop.
    fn part_2(input: Self::Input) -> Option<String> {
        let height = input.row_count();
        let width = if height > 0 {
            input.row_len(0)
        } else {
            0
        };
        if width > PATROL_DIM || height > PATROL_DIM {
            return None;
        }
        let start = match find_start(&input) {
            Some(s) => s,
            None => {
                return None;
            },
        };
        let mut visited = CellMask::new(width, height);
        let mut faced: Vec<(i128, i128)> = Vec::new();
        patrol(&input, width, height, start, None, &mut visited, Some(&mut faced));
        let mut tested = CellMask::new(width, height);
        let mut loops: usize = 0;
        let mut i: usize = 0;
        while i < faced.len()
            invariant
                width <= 0x3fff,
                height <= 0x3fff,
            decreases faced@.len() - i,
        {
            let (ox, oy) = faced[i];
            if tested.mark(ox, oy) {
                let mut scratch = CellMask::new(width, height);
                if patrol(&input, width, height, start, Some((ox, oy)), &mut scratch, None) {
                    if loops < usize::MAX {
                        loops = loops + 1;
                    }
                }
            }
            i = i + 1;
        }
        Some(format_usize(loops))
    }
}

} // verus!

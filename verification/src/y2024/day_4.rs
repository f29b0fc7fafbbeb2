//! Day 4: a word search — count every `XMAS` in any of the eight
//! directions, then every `X-MAS`: two diagonal `MAS` crossing on the `A`.

use vstd::prelude::*;

use crate::day::Day;
use crate::grid::{g_at, pos_in_grid, Grid};
use crate::numfmt::format_usize;
use crate::pos::Position;

verus! {

pub struct Day4;

/// The character at mathematical coordinates `(x, y)`, or nothing outside
/// the grid or the machine's coordinate range.
fn char_at(grid: &Grid<char>, x: i128, y: i128) -> (r: Option<char>)
    ensures
        r matches Some(c) ==> ({
            let p = Position { x: x as isize, y: y as isize };
            pos_in_grid(grid, p) && c == g_at(grid, p)
        }),
{
    if x < isize::MIN as i128 || x > isize::MAX as i128 {
        return None;
    }
    if y < isize::MIN as i128 || y > isize::MAX as i128 {
        return None;
    }
    let p = Position { x: x as isize, y: y as isize };
    match grid.get(p) {
        Some(c) => Some(*c),
        None => None,
    }
}

/// The `k`-th letter of the word after its leading `X`.
fn search_letter(k: usize) -> (r: char)
    requires
        1 <= k <= 3,
{
    if k == 1 {
        'M'
    } else if k == 2 {
        'A'
    } else {
        'S'
    }
}

/// Whether the word runs from `(x, y)` along the step `(dx, dy)`.
fn word_runs(grid: &Grid<char>, x: usize, y: usize, dx: i128, dy: i128) -> bool
    requires
        -1 <= dx <= 1,
        -1 <= dy <= 1,
{
    let mut k: usize = 1;
    while k <= 3
        invariant
            1 <= k <= 4,
            -1 <= dx <= 1,
            -1 <= dy <= 1,
        decreases 4 - k,
    {
        proof {
            assert(-4 <= dx * k as int <= 4) by (nonlinear_arith)
                requires
                    -1 <= dx <= 1,
                    1 <= k <= 3,
            ;
            assert(-4 <= dy * k as int <= 4) by (nonlinear_arith)
                requires
                    -1 <= dy <= 1,
                    1 <= k <= 3,
            ;
        }
        let cx = x as i128 + dx * k as i128;
        let cy = y as i128 + dy * k as i128;
        match char_at(grid, cx, cy) {
            Some(c) => {
                if c != search_letter(k) {
                    return false;
                }
            },
            None => {
                return false;
            },
        }
        k = k + 1;
    }
    true
}

/// Whether the two cells diagonal to `(x, y)` along `(dx, dy)` hold an `M`
/// and an `S`, one each.
fn diag_good(grid: &Grid<char>, x: usize, y: usize, dx: i128, dy: i128) -> bool
    requires
        -1 <= dx <= 1,
        -1 <= dy <= 1,
{
    let a = char_at(grid, x as i128 + dx, y as i128 + dy);
    let b = char_at(grid, x as i128 - dx, y as i128 - dy);
    match (a, b) {
        (Some(a), Some(b)) => (a == 'S' || a == 'M') && (b == 'S' || b == 'M') && a != b,
        _ => false,
    }
}

impl Day for Day4 {
    type Input = Grid<char>;

    fn day() -> usize {
        4
    }

    fn example_input_1() -> &'static str {
        "MMMSXXMASM\nMSAMXMSMSA\nAMXSXMAAMM\nMSAMASMSMX\nXMASAMXAMM\nXXAMMXXAMA\nSMSMSASXSS\nSAXAMASAAA\nMAMMMXMMMM\nMXMXAXMASX"
    }

    fn example_input_2() -> &'static str {
        "MMMSXXMASM\nMSAMXMSMSA\nAMXSXMAAMM\nMSAMASMSMX\nXMASAMXAMM\nXXAMMXXAMA\nSMSMSASXSS\nSAXAMASAAA\nMAMMMXMMMM\nMXMXAXMASX"
    }

    fn expected_1() -> &'static str {
        "18"
    }

    fn expected_2() -> &'static str {
        "9"
    }

    fn parse_input(input: &str) -> Self::Input {
        Grid::parse(input)
    }

    /// How many times the word appears, in all eight directions.
    fn part_1(input: Self::Input) -> Option<String> {
        let mut count: usize = 0;
        let mut y: usize = 0;
        while y < input.row_count()
            invariant
                y <= crate::grid::g_height(&input),
            decreases crate::grid::g_height(&input) - y,
        {
            let mut x: usize = 0;
            while x < input.row_len(y)
                invariant
                    y < crate::grid::g_height(&input),
                decreases input@[y as int].len() - x,
            {
                let here = char_at(&input, x as i128, y as i128);
                let starts = match here {
                    Some(c) => c == 'X',
                    None => false,
                };
                if starts {
                    let mut dy: i128 = -1;
                    while dy <= 1
                        invariant
                            -1 <= dy <= 2,
                        decreases 2 - dy,
                    {
                        let mut dx: i128 = -1;
                        while dx <= 1
                            invariant
                                -1 <= dx <= 2,
                                -1 <= dy <= 1,
                            decreases 2 - dx,
                        {
                            if (dx != 0 || dy != 0) && word_runs(&input, x, y, dx, dy) {
                                if count < usize::MAX {
                                    count = count + 1;
                                }
                            }
                            dx = dx + 1;
                        }
                        dy = dy + 1;
                    }
                }
                x = x + 1;
            }
            y = y + 1;
        }
        Some(format_usize(count))
    }

    /// How many crossed `MAS` pairs appear.
    fn part_2(input: Self::Input) -> Option<String> {
        let mut count: usize = 0;
        let mut y: usize = 0;
        while y < input.row_count()
            invariant
                y <= crate::grid::g_height(&input),
            decreases crate::grid::g_height(&input) - y,
        {
            let mut x: usize = 0;
            while x < input.row_len(y)
                invariant
                    y < crate::grid::g_height(&input),
                decreases input@[y as int].len() - x,
            {
                let here = char_at(&input, x as i128, y as i128);
                let is_a = match here {
                    Some(c) => c == 'A',
                    None => false,
                };
                if is_a && diag_good(&input, x, y, 1, -1) && diag_good(&input, x, y, 1, 1) {
                    if count < usize::MAX {
                        count = count + 1;
                    }
                }
                x = x + 1;
            }
            y = y + 1;
        }
        Some(format_usize(count))
    }
}

} // verus!

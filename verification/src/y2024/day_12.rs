//! Day 12: fence the garden regions — price each region by area times
//! perimeter, then by area times its number of straight sides.

use vstd::prelude::*;

use crate::day::Day;
use crate::grid::{CellMask, Grid};
use crate::numfmt::format_u128;
use crate::pos::Position;

verus! {

pub struct Day12;

/// The plant at the given coordinates, or nothing off the garden.
fn plant_at(grid: &Grid<char>, x: i128, y: i128) -> Option<char> {
    if x < 0 || y < 0 || x > isize::MAX as i128 || y > isize::MAX as i128 {
        return None;
    }
    match grid.get(Position { x: x as isize, y: y as isize }) {
        Some(c) => Some(*c),
        None => None,
    }
}

/// Whether the cell at the given coordinates grows the same plant.
fn same_plant(grid: &Grid<char>, x: i128, y: i128, plant: char) -> bool {
    match plant_at(grid, x, y) {
        Some(c) => c == plant,
        None => false,
    }
}

/// Saturating product.
fn sat_mul_u128(a: u128, b: u128) -> u128 {
    if b != 0 && a > u128::MAX / b {
        u128::MAX
    } else {
        proof {
            if b != 0 {
                let bm = b as int;
                vstd::arithmetic::div_mod::lemma_fundamental_div_mod(u128::MAX as int, bm);
                assert((a as int) * bm <= (u128::MAX as int / bm) * bm) by (nonlinear_arith)
                    requires
                        a as int <= u128::MAX as int / bm,
                        bm >= 1,
                ;
                assert((u128::MAX as int / bm) * bm == bm * (u128::MAX as int / bm))
                    by (nonlinear_arith);
            }
        }
        a * b
    }
}

/// The four diagonal steps.
fn diagonal(d: usize) -> (r: (i128, i128))
    ensures
        -1 <= r.0 <= 1 && r.0 != 0,
        -1 <= r.1 <= 1 && r.1 != 0,
{
    if d % 4 == 0 {
        (1, 1)
    } else if d % 4 == 1 {
        (1, -1)
    } else if d % 4 == 2 {
        (-1, 1)
    } else {
        (-1, -1)
    }
}

/// The four cardinal steps.
fn cardinal(d: usize) -> (r: (i128, i128))
    ensures
        -1 <= r.0 <= 1,
        -1 <= r.1 <= 1,
{
    if d % 4 == 0 {
        (0, -1)
    } else if d % 4 == 1 {
        (0, 1)
    } else if d % 4 == 2 {
        (1, 0)
    } else {
        (-1, 0)
    }
}

/// The total fencing price of the garden: each region's area times its
/// perimeter, or, priced by sides, its area times its number of straight
/// fence runs (one per corner of the region's outline).
fn fence_price(grid: &Grid<char>, by_sides: bool) -> Option<u128> {
    if !grid.is_wf() {
        return None;
    }
    let w = grid.width();
    let h = grid.height();
    if w > 0x3fff || h > 0x3fff {
        return None;
    }
    proof {
        assert(w * h <= 0x3fff * 0x3fff) by (nonlinear_arith)
            requires
                w <= 0x3fff,
                h <= 0x3fff,
        ;
    }
    let cells = w * h;
    let mut visited = CellMask::new(w, h);
    let mut total: u128 = 0;
    let mut sy: usize = 0;
    while sy < h
        invariant
            w == crate::grid::g_width(grid),
            h == crate::grid::g_height(grid),
            w <= 0x3fff,
            h <= 0x3fff,
            cells == w * h,
            crate::grid::grid_wf(grid),
        decreases h - sy,
    {
        let mut sx: usize = 0;
        while sx < w
            invariant
                w == crate::grid::g_width(grid),
                h == crate::grid::g_height(grid),
                w <= 0x3fff,
                h <= 0x3fff,
                sy < h,
                cells == w * h,
                crate::grid::grid_wf(grid),
            decreases w - sx,
        {
            if !visited.marked(sx as i128, sy as i128) {
                let plant = match plant_at(grid, sx as i128, sy as i128) {
                    Some(c) => c,
                    None => {
                        sx = sx + 1;
                        continue ;
                    },
                };
                // Flood the region, collecting its cells.
                let mut region: Vec<(usize, usize)> = Vec::new();
                let mut stack: Vec<(usize, usize)> = Vec::new();
                if visited.mark(sx as i128, sy as i128) {
                    stack.push((sx, sy));
                }
                let mut fuel: usize = if cells < usize::MAX - 2 {
                    cells + 2
                } else {
                    cells
                };
                while fuel > 0
                    invariant
                        w <= 0x3fff,
                        h <= 0x3fff,
                        forall|k: int|
                            0 <= k < stack@.len() ==> (#[trigger] stack@[k]).0 < w && stack@[k].1
                                < h,
                        forall|k: int|
                            0 <= k < region@.len() ==> (#[trigger] region@[k]).0 < w
                                && region@[k].1 < h,
                    decreases fuel,
                {
                    fuel = fuel - 1;
                    let (x, y) = match stack.pop() {
                        Some(c) => c,
                        None => {
                            break ;
                        },
                    };
                    region.push((x, y));
                    let mut d: usize = 0;
                    while d < 4
                        invariant
                            x < w,
                            y < h,
                            w <= 0x3fff,
                            h <= 0x3fff,
                            forall|k: int|
                                0 <= k < stack@.len() ==> (#[trigger] stack@[k]).0 < w
                                    && stack@[k].1 < h,
                        decreases 4 - d,
                    {
                        let (dx, dy) = cardinal(d);
                        let nx = x as i128 + dx;
                        let ny = y as i128 + dy;
                        if 0 <= nx && nx < w as i128 && 0 <= ny && ny < h as i128 && same_plant(
                            grid,
                            nx,
                            ny,
                            plant,
                        ) {
                            if visited.mark(nx, ny) {
                                stack.push((nx as usize, ny as usize));
                            }
                        }
                        d = d + 1;
                    }
                }
                // Measure the region.
                let area: u128 = region.len() as u128;
                let mut measure: u128 = 0;
                let mut r: usize = 0;
                while r < region.len()
                    invariant
                        w <= 0x3fff,
                        h <= 0x3fff,
                        forall|k: int|
                            0 <= k < region@.len() ==> (#[trigger] region@[k]).0 < w
                                && region@[k].1 < h,
                        measure <= (r as u128) * 4,
                    decreases region@.len() - r,
                {
                    let (x, y) = region[r];
                    let mut gained: u128 = 0;
                    if by_sides {
                        // One straight side per corner of the outline.
                        let mut d: usize = 0;
                        while d < 4
                            invariant
                                x < w,
                                y < h,
                                w <= 0x3fff,
                                h <= 0x3fff,
                                gained <= 4,
                                d <= 4,
                                gained <= d,
                            decreases 4 - d,
                        {
                            let (dx, dy) = diagonal(d);
                            let side_a = same_plant(grid, x as i128 + dx, y as i128, plant);
                            let side_b = same_plant(grid, x as i128, y as i128 + dy, plant);
                            let corner = same_plant(grid, x as i128 + dx, y as i128 + dy, plant);
                            if (!side_a && !side_b) || (side_a && side_b && !corner) {
                                gained = gained + 1;
                            }
                            d = d + 1;
                        }
                    } else {
                        let mut d: usize = 0;
                        while d < 4
                            invariant
                                x < w,
                                y < h,
                                w <= 0x3fff,
                                h <= 0x3fff,
                                gained <= 4,
                                d <= 4,
                                gained <= d,
                            decreases 4 - d,
                        {
                            let (dx, dy) = cardinal(d);
                            if !same_plant(grid, x as i128 + dx, y as i128 + dy, plant) {
                                gained = gained + 1;
                            }
                            d = d + 1;
                        }
                    }
                    proof {
                        assert((r as u128) * 4 + 4 == ((r + 1) as u128) * 4) by (nonlinear_arith);
                        assert(((r + 1) as int) * 4 <= (region@.len() as int) * 4)
                            by (nonlinear_arith)
                            requires
                                r + 1 <= region@.len(),
                        ;
                        assert((region@.len() as u128) * 4 < u128::MAX) by (nonlinear_arith)
                            requires
                                region@.len() <= usize::MAX,
                        ;
                    }
                    measure = measure + gained;
                    r = r + 1;
                }
                let price = sat_mul_u128(area, measure);
                total = if total <= u128::MAX - price {
                    total + price
                } else {
                    u128::MAX
                };
            }
            sx = sx + 1;
        }
        sy = sy + 1;
    }
    Some(total)
}

impl Day for Day12 {
    type Input = Grid<char>;

    fn day() -> usize {
        12
    }

    fn example_input_1() -> &'static str {
        "RRRRIICCFF\nRRRRIICCCF\nVVRRRCCFFF\nVVRCCCJFFF\nVVVVCJJCFE\nVVIVCCJJEE\nVVIIICJJEE\nMIIIIIJJEE\nMIIISIJEEE\nMMMISSJEEE"
    }

    fn example_input_2() -> &'static str {
        "RRRRIICCFF\nRRRRIICCCF\nVVRRRCCFFF\nVVRCCCJFFF\nVVVVCJJCFE\nVVIVCCJJEE\nVVIIICJJEE\nMIIIIIJJEE\nMIIISIJEEE\nMMMISSJEEE"
    }

    fn expected_1() -> &'static str {
        "1930"
    }

    fn expected_2() -> &'static str {
        "1206"
    }

    fn parse_input(input: &str) -> Self::Input {
        Grid::parse(input)
    }

    /// The total price by area times perimeter.
    fn part_1(input: Self::Input) -> Option<String> {
        match fence_price(&input, false) {
            Some(total) => Some(format_u128(total)),
            None => None,
        }
    }

    /// The total price by area times number of sides.
    fn part_2(input: Self::Input) -> Option<String> {
        match fence_price(&input, true) {
            Some(total) => Some(format_u128(total)),
            None => None,
        }
    }
}

} // verus!

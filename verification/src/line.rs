//! Lines between two integer points, with exact rational intersection.

use vstd::prelude::*;

use crate::dir::{Direction, Movement};
use crate::pos::{fits, spec_move, spec_signum, Position};

verus! {

/// A line through two points, read as running from the first towards the
/// second.
#[derive(Debug, Clone, Copy, PartialEq, Eq, Hash, Structural)]
pub struct Line(pub Position, pub Position);

/// The bound within which intersection arithmetic stays exact.
pub open spec fn small(v: int) -> bool {
    -0x2000_0000 <= v <= 0x2000_0000
}

/// Whether every coordinate of `l` is within the intersection bound.
pub open spec fn line_small(l: Line) -> bool {
    small(l.0.x as int) && small(l.0.y as int) && small(l.1.x as int) && small(l.1.y as int)
}

/// Whether `p` lies on the same side of `l`'s start as `l`'s end: the
/// component-wise signs of the offsets agree.
pub open spec fn spec_after(l: Line, p: Position) -> bool {
    spec_signum(p.x - l.0.x) == spec_signum(l.1.x - l.0.x) && spec_signum(p.y - l.0.y)
        == spec_signum(l.1.y - l.0.y)
}

/// Division truncated towards zero, for a positive divisor.
pub open spec fn div_trunc(a: int, b: int) -> int {
    if a >= 0 {
        a / b
    } else {
        -((-a) / b)
    }
}

/// `v` clamped into half the machine's signed range, which keeps later
/// offset arithmetic around the point exact.
pub open spec fn clamp_coord(v: int) -> int {
    if v < -(isize::MAX / 2) {
        -(isize::MAX / 2)
    } else if v > isize::MAX / 2 {
        isize::MAX / 2
    } else {
        v
    }
}

/// The cross product of the two lines' direction vectors: zero exactly when
/// the lines are parallel.
pub open spec fn spec_isect_den(a: Line, b: Line) -> int {
    (a.1.x - a.0.x) * (b.1.y - b.0.y) - (a.1.y - a.0.y) * (b.1.x - b.0.x)
}

/// The numerator of the parameter at which `a` meets `b`.
pub open spec fn spec_isect_num(a: Line, b: Line) -> int {
    (b.0.x - a.0.x) * (b.1.y - b.0.y) - (b.0.y - a.0.y) * (b.1.x - b.0.x)
}

/// The intersection point of two non-parallel lines, with coordinates
/// truncated towards zero and clamped into the machine's range.
pub open spec fn spec_isect_point(a: Line, b: Line) -> Position {
    let den = spec_isect_den(a, b);
    let num = spec_isect_num(a, b);
    let den_n = if den < 0 {
        -den
    } else {
        den
    };
    let num_n = if den < 0 {
        -num
    } else {
        num
    };
    Position {
        x: clamp_coord(div_trunc(a.0.x * den_n + (a.1.x - a.0.x) * num_n, den_n)) as isize,
        y: clamp_coord(div_trunc(a.0.y * den_n + (a.1.y - a.0.y) * num_n, den_n)) as isize,
    }
}

/// Bound on a product of bounded factors.
proof fn lemma_mul_bound(a: int, b: int, m: int, n: int)
    requires
        -m <= a <= m,
        -n <= b <= n,
        0 <= m,
        0 <= n,
    ensures
        -(m * n) <= a * b <= m * n,
{
    assert(-(m * n) <= a * b <= m * n) by (nonlinear_arith)
        requires
            -m <= a <= m,
            -n <= b <= n,
            0 <= m,
            0 <= n,
    ;
}

/// Divide, truncating towards zero; the divisor must be positive.
pub(crate) fn div_trunc_i128(a: i128, b: i128) -> (r: i128)
    requires
        1 <= b,
        a != i128::MIN,
    ensures
        r == div_trunc(a as int, b as int),
{
    if a >= 0 {
        a / b
    } else {
        -((-a) / b)
    }
}

/// Clamp into half the machine's signed range.
fn clamp_coord_i128(v: i128) -> (r: isize)
    ensures
        r as int == clamp_coord(v as int),
{
    let hi: isize = isize::MAX / 2;
    if v < -(hi as i128) {
        -hi
    } else if v > hi as i128 {
        hi
    } else {
        v as isize
    }
}

impl Line {
    /// The line from `start` to `end`.
    pub fn new(start: Position, end: Position) -> (r: Self)
        ensures
            r == Line(start, end),
    {
        Line(start, end)
    }

    /// The unit line from `start` one step along `dir`.
    pub fn from_dir(start: Position, dir: Direction) -> (r: Self)
        requires
            fits(start.x + dir.spec_kernel().x),
            fits(start.y + dir.spec_kernel().y),
        ensures
            r == Line(start, spec_move(start, dir.spec_kernel())),
    {
        Line(start, start.move_dir(dir))
    }

    /// Whether `pos` lies on the same side of the start as the end does.
    /// This does not check that the point is on the line.
    pub fn check_after(&self, pos: &Position) -> (r: bool)
        requires
            fits(pos.x - self.0.x),
            fits(pos.y - self.0.y),
            fits(self.1.x - self.0.x),
            fits(self.1.y - self.0.y),
        ensures
            r == spec_after(*self, *pos),
    {
        let relative = pos.sub(&self.0);
        let d = self.1.sub(&self.0);
        let rn = relative.normalize();
        let dn = d.normalize();
        rn.x == dn.x && rn.y == dn.y
    }

    /// The intersection point of this line with another, exact rational
    /// arithmetic truncated towards zero.  Parallel lines yield nothing;
    /// with `check_after` set, so does a crossing that lies behind either
    /// line's start.
    pub fn get_intersection(&self, other: &Self, check_after: bool) -> (r: Option<Position>)
        requires
            line_small(*self),
            line_small(*other),
        ensures
            spec_isect_den(*self, *other) == 0 ==> r is None,
            spec_isect_den(*self, *other) != 0 ==> ({
                let point = spec_isect_point(*self, *other);
                if !check_after || (spec_after(*self, point) && spec_after(*other, point)) {
                    r == Some(point)
                } else {
                    r is None
                }
            }),
    {
        let ax = self.0.x as i128;
        let ay = self.0.y as i128;
        let dx = self.1.x as i128 - ax;
        let dy = self.1.y as i128 - ay;
        let bx = other.0.x as i128;
        let by = other.0.y as i128;
        let ex = other.1.x as i128 - bx;
        let ey = other.1.y as i128 - by;
        proof {
            lemma_mul_bound(dx as int, ey as int, 0x4000_0000, 0x4000_0000);
            lemma_mul_bound(dy as int, ex as int, 0x4000_0000, 0x4000_0000);
            lemma_mul_bound((bx - ax) as int, ey as int, 0x4000_0000, 0x4000_0000);
            lemma_mul_bound((by - ay) as int, ex as int, 0x4000_0000, 0x4000_0000);
        }
        let mut den = dx * ey - dy * ex;
        let mut num = (bx - ax) * ey - (by - ay) * ex;
        if den == 0 {
            return None;
        }
        if den < 0 {
            den = -den;
            num = -num;
        }
        proof {
            lemma_mul_bound(ax as int, den as int, 0x2000_0000, 0x2000_0000_0000_0000);
            lemma_mul_bound(dx as int, num as int, 0x4000_0000, 0x2000_0000_0000_0000);
            lemma_mul_bound(ay as int, den as int, 0x2000_0000, 0x2000_0000_0000_0000);
            lemma_mul_bound(dy as int, num as int, 0x4000_0000, 0x2000_0000_0000_0000);
        }
        let x = clamp_coord_i128(div_trunc_i128(ax * den + dx * num, den));
        let y = clamp_coord_i128(div_trunc_i128(ay * den + dy * num, den));
        let point = Position { x, y };
        proof {
            assert(point == spec_isect_point(*self, *other));
        }
        if !check_after || self.check_after(&point) && other.check_after(&point) {
            Some(point)
        } else {
            None
        }
    }

    /// The line's starting point.
    pub fn start(&self) -> (r: Position)
        ensures
            r == self.0,
    {
        self.0
    }

    /// The line's end point.
    pub fn end(&self) -> (r: Position)
        ensures
            r == self.1,
    {
        self.1
    }
}

} // verus!

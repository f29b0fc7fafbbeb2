//! Positions on a 2D integer grid.
//!
//! A position names a cell of a row-major grid, so north is negative `y`;
//! the same type doubles as a 2D integer vector.  Every operation states its
//! result exactly; preconditions only keep the arithmetic inside `isize`.

use vstd::prelude::*;

use crate::dir::{Direction, Movement};

verus! {

/// A position in 2D space on an integer grid.
#[derive(Debug, Clone, Copy, PartialEq, Eq, Hash, Structural)]
pub struct Position {
    pub x: isize,
    pub y: isize,
}

/// Whether a mathematical integer fits in `isize`.
pub open spec fn fits(v: int) -> bool {
    isize::MIN <= v <= isize::MAX
}

/// The sign of `v`: `-1`, `0` or `1`.
pub open spec fn spec_signum(v: int) -> int {
    if v < 0 {
        -1
    } else if v == 0 {
        0
    } else {
        1
    }
}

/// `p` moved by the vector `k`, assuming the sums fit.
pub open spec fn spec_move(p: Position, k: Position) -> Position {
    Position { x: (p.x + k.x) as isize, y: (p.y + k.y) as isize }
}

/// `p` moved `t` times by the vector `k`, assuming the products and sums fit.
pub open spec fn spec_move_times(p: Position, k: Position, t: int) -> Position {
    Position { x: (p.x + k.x * t) as isize, y: (p.y + k.y * t) as isize }
}

/// Whether `p` lies inside the exclusive bounds `b`.
pub open spec fn spec_in_bounds(p: Position, b: (usize, usize)) -> bool {
    0 <= p.x < b.0 && 0 <= p.y < b.1
}

/// Whether moving `p` by `t` copies of the vector `k` stays inside `isize`.
pub open spec fn step_fits(p: Position, k: Position, t: int) -> bool {
    fits(k.x * t) && fits(k.y * t) && fits(p.x + k.x * t) && fits(p.y + k.y * t)
}

/// Whether every move of one to `times` copies of `k` stays inside `isize`.
pub open spec fn expand_fits(p: Position, k: Position, times: int) -> bool {
    forall|t: int| 1 <= t <= times ==> #[trigger] step_fits(p, k, t)
}

/// The sign of `v`.
fn signum(v: isize) -> (r: isize)
    ensures
        r as int == spec_signum(v as int),
{
    if v < 0 {
        -1
    } else if v == 0 {
        0
    } else {
        1
    }
}

impl Position {
    /// A position from its two components.
    pub fn new(x: isize, y: isize) -> (r: Self)
        ensures
            r == (Position { x, y }),
    {
        Position { x, y }
    }

    /// The origin.
    pub fn zero() -> (r: Self)
        ensures
            r == (Position { x: 0, y: 0 }),
    {
        Position { x: 0, y: 0 }
    }

    /// The all-ones vector.
    pub fn one() -> (r: Self)
        ensures
            r == (Position { x: 1, y: 1 }),
    {
        Position { x: 1, y: 1 }
    }

    /// This position flipped over the line `y = x`.
    pub fn flip(&self) -> (r: Self)
        ensures
            r == (Position { x: self.y, y: self.x }),
    {
        Position { x: self.y, y: self.x }
    }

    /// The component-wise sign of this position: each axis becomes `-1`,
    /// `0` or `1`.
    pub fn normalize(&self) -> (r: Self)
        ensures
            r.x as int == spec_signum(self.x as int),
            r.y as int == spec_signum(self.y as int),
    {
        Position { x: signum(self.x), y: signum(self.y) }
    }

    /// The component-wise absolute value.
    pub fn abs(&self) -> (r: Self)
        requires
            self.x != isize::MIN,
            self.y != isize::MIN,
        ensures
            r.x as int == if self.x < 0 {
                -(self.x as int)
            } else {
                self.x as int
            },
            r.y as int == if self.y < 0 {
                -(self.y as int)
            } else {
                self.y as int
            },
    {
        let x = if self.x < 0 {
            -self.x
        } else {
            self.x
        };
        let y = if self.y < 0 {
            -self.y
        } else {
            self.y
        };
        Position { x, y }
    }

    /// The sum of the two components.
    pub fn sum(&self) -> (r: isize)
        requires
            fits(self.x + self.y),
        ensures
            r == self.x + self.y,
    {
        self.x + self.y
    }

    /// The difference of the two components.
    pub fn diff(&self) -> (r: isize)
        requires
            fits(self.x - self.y),
        ensures
            r == self.x - self.y,
    {
        self.x - self.y
    }

    /// The direction from this position towards `other`, which must lie on
    /// the same row or column and differ from this position.
    pub fn get_dir(&self, other: &Self) -> (d: Direction)
        requires
            fits(other.x - self.x),
            fits(other.y - self.y),
            (other.x == self.x) != (other.y == self.y),
        ensures
            crate::dir::spec_dir_kernel(d) == (Position {
                x: spec_signum(other.x - self.x) as isize,
                y: spec_signum(other.y - self.y) as isize,
            }),
    {
        let delta = other.sub(self);
        let n = delta.normalize();
        Direction::from_kernel(n)
    }

    /// The component-wise sum of two positions.
    pub fn add(&self, other: &Self) -> (r: Self)
        requires
            fits(self.x + other.x),
            fits(self.y + other.y),
        ensures
            r.x == self.x + other.x,
            r.y == self.y + other.y,
    {
        Position { x: self.x + other.x, y: self.y + other.y }
    }

    /// The component-wise difference of two positions.
    pub fn sub(&self, other: &Self) -> (r: Self)
        requires
            fits(self.x - other.x),
            fits(self.y - other.y),
        ensures
            r.x == self.x - other.x,
            r.y == self.y - other.y,
    {
        Position { x: self.x - other.x, y: self.y - other.y }
    }

    /// The component-wise product of two positions.
    pub fn multiply(&self, other: &Self) -> (r: Self)
        requires
            fits(self.x * other.x),
            fits(self.y * other.y),
        ensures
            r.x == self.x * other.x,
            r.y == self.y * other.y,
    {
        Position { x: self.x * other.x, y: self.y * other.y }
    }

    /// The dot product of two positions.
    pub fn dot(&self, other: &Self) -> (r: isize)
        requires
            fits(self.x * other.x),
            fits(self.y * other.y),
            fits(self.x * other.x + self.y * other.y),
        ensures
            r == self.x * other.x + self.y * other.y,
    {
        let p = self.multiply(other);
        p.sum()
    }

    /// The cross product of two positions.
    pub fn cross(&self, other: &Self) -> (r: isize)
        requires
            fits(self.x * other.y),
            fits(self.y * other.x),
            fits(self.x * other.y - self.y * other.x),
        ensures
            r == self.x * other.y - self.y * other.x,
    {
        let p = self.multiply(&other.flip());
        p.diff()
    }

    /// This position scaled by `other` on both axes.
    pub fn multiply_comp(&self, other: isize) -> (r: Self)
        requires
            fits(self.x * other),
            fits(self.y * other),
        ensures
            r.x == self.x * other,
            r.y == self.y * other,
    {
        Position { x: self.x * other, y: self.y * other }
    }

    /// The manhattan distance between two positions.
    pub fn manhattan(&self, other: &Self) -> (r: isize)
        requires
            fits(self.x - other.x),
            fits(other.x - self.x),
            fits(self.y - other.y),
            fits(other.y - self.y),
            fits(
                (if self.x < other.x {
                    other.x - self.x
                } else {
                    self.x - other.x
                }) + (if self.y < other.y {
                    other.y - self.y
                } else {
                    self.y - other.y
                }),
            ),
        ensures
            r == (if self.x < other.x {
                other.x - self.x
            } else {
                self.x - other.x
            }) + (if self.y < other.y {
                other.y - self.y
            } else {
                self.y - other.y
            }),
    {
        let d = self.sub(other);
        let a = d.abs();
        a.sum()
    }

    /// The chebyshev distance between two positions.
    pub fn chebyshev(&self, other: &Self) -> (r: isize)
        requires
            fits(self.x - other.x),
            fits(other.x - self.x),
            fits(self.y - other.y),
            fits(other.y - self.y),
        ensures
            ({
                let dx = if self.x < other.x {
                    other.x - self.x
                } else {
                    self.x - other.x
                };
                let dy = if self.y < other.y {
                    other.y - self.y
                } else {
                    self.y - other.y
                };
                r == if dx < dy {
                    dy
                } else {
                    dx
                }
            }),
    {
        let d = self.sub(other);
        let a = d.abs();
        if a.x < a.y {
            a.y
        } else {
            a.x
        }
    }

    /// Whether a component lies in `0..bound`.
    fn check_comp(comp: isize, bound: usize) -> (r: bool)
        ensures
            r == (0 <= comp < bound),
    {
        if comp < 0 {
            false
        } else {
            (comp as usize) < bound
        }
    }

    /// Whether this position lies inside the exclusive bounds.
    pub fn check(&self, bounds: (usize, usize)) -> (r: bool)
        ensures
            r == spec_in_bounds(*self, bounds),
    {
        Self::check_comp(self.x, bounds.0) && Self::check_comp(self.y, bounds.1)
    }

    /// A component reduced into `0..bound` by wrapping.
    pub fn bind_comp(comp: isize, bound: usize) -> (r: usize)
        requires
            1 <= bound <= isize::MAX,
        ensures
            r as int == (comp as int) % (bound as int),
    {
        if comp >= 0 {
            (comp as usize) % bound
        } else {
            let t = (-(comp + 1)) as usize;
            let r0 = t % bound;
            proof {
                let c = comp as int;
                let m = bound as int;
                let q = (t as int) / m;
                vstd::arithmetic::div_mod::lemma_fundamental_div_mod(t as int, m);
                assert(m * (-1 - q) == -m + m * (-q)) by (nonlinear_arith);
                assert(m * (-q) == -(m * q)) by (nonlinear_arith);
                assert(c == m * (-1 - q) + (m - r0 - 1));
                vstd::arithmetic::div_mod::lemma_fundamental_div_mod_converse(
                    c,
                    m,
                    -1 - q,
                    m - r0 - 1,
                );
            }
            bound - r0 - 1
        }
    }

    /// This position reduced into `(0..bounds.0, 0..bounds.1)` by wrapping.
    pub fn bind(&self, bounds: (usize, usize)) -> (r: (usize, usize))
        requires
            1 <= bounds.0 <= isize::MAX,
            1 <= bounds.1 <= isize::MAX,
        ensures
            r.0 as int == (self.x as int) % (bounds.0 as int),
            r.1 as int == (self.y as int) % (bounds.1 as int),
    {
        (Self::bind_comp(self.x, bounds.0), Self::bind_comp(self.y, bounds.1))
    }

    /// This position moved one step by `dir`.
    pub fn move_dir<M: Movement>(&self, dir: M) -> (r: Self)
        requires
            fits(self.x + dir.spec_kernel().x),
            fits(self.y + dir.spec_kernel().y),
        ensures
            r == spec_move(*self, dir.spec_kernel()),
    {
        self.add(&dir.get_kernel())
    }

    /// This position moved `times` steps by `dir`.
    pub fn move_times<M: Movement>(&self, dir: M, times: usize) -> (r: Self)
        requires
            times <= isize::MAX,
            fits(dir.spec_kernel().x * times),
            fits(dir.spec_kernel().y * times),
            fits(self.x + dir.spec_kernel().x * times),
            fits(self.y + dir.spec_kernel().y * times),
        ensures
            r == spec_move_times(*self, dir.spec_kernel(), times as int),
    {
        self.add(&dir.get_kernel().multiply_comp(times as isize))
    }

    /// This position moved one step by `dir`, or nothing if the step leaves
    /// the bounds.
    pub fn move_dir_checked<M: Movement>(&self, dir: M, bounds: (usize, usize)) -> (r: Option<
        Self,
    >)
        requires
            fits(self.x + dir.spec_kernel().x),
            fits(self.y + dir.spec_kernel().y),
        ensures
            r == if spec_in_bounds(spec_move(*self, dir.spec_kernel()), bounds) {
                Some(spec_move(*self, dir.spec_kernel()))
            } else {
                Option::<Position>::None
            },
    {
        let moved = self.move_dir(dir);
        if moved.check(bounds) {
            Some(moved)
        } else {
            None
        }
    }

    /// This position moved `times` steps by `dir`, or nothing if the result
    /// leaves the bounds.
    pub fn move_times_checked<M: Movement>(&self, dir: M, times: usize, bounds: (usize, usize))
        -> (r: Option<Self>)
        requires
            times <= isize::MAX,
            fits(dir.spec_kernel().x * times),
            fits(dir.spec_kernel().y * times),
            fits(self.x + dir.spec_kernel().x * times),
            fits(self.y + dir.spec_kernel().y * times),
        ensures
            r == if spec_in_bounds(spec_move_times(*self, dir.spec_kernel(), times as int), bounds) {
                Some(spec_move_times(*self, dir.spec_kernel(), times as int))
            } else {
                Option::<Position>::None
            },
    {
        let moved = self.move_times(dir, times);
        if moved.check(bounds) {
            Some(moved)
        } else {
            None
        }
    }
}

/// The positions reached from `p` by each kernel that stays inside the
/// bounds, in kernel order.
pub open spec fn spec_relatives_checked<M: Movement>(
    p: Position,
    ks: Seq<M>,
    bounds: (usize, usize),
) -> Seq<(Position, M)>
    decreases ks.len(),
{
    if ks.len() == 0 {
        Seq::empty()
    } else {
        let init = spec_relatives_checked(p, ks.drop_last(), bounds);
        let moved = spec_move(p, ks.last().spec_kernel());
        if spec_in_bounds(moved, bounds) {
            init.push((moved, ks.last()))
        } else {
            init
        }
    }
}

/// The positions reached from `p` by applying `k` one to `t` times, nearest
/// first.
pub open spec fn spec_expand_steps<M: Movement>(p: Position, k: M, t: int) -> Seq<
    ((M, usize), Position),
>
    decreases t,
{
    if t <= 0 {
        Seq::empty()
    } else {
        spec_expand_steps(p, k, t - 1).push(((k, t as usize), spec_move_times(p, k.spec_kernel(), t)))
    }
}

/// The positions reached from `p` by applying each kernel one to `t` times,
/// kernel-major, nearest first.
pub open spec fn spec_relatives_expand<M: Movement>(p: Position, ks: Seq<M>, t: int) -> Seq<
    ((M, usize), Position),
>
    decreases ks.len(),
{
    if ks.len() == 0 {
        Seq::empty()
    } else {
        spec_relatives_expand(p, ks.drop_last(), t) + spec_expand_steps(p, ks.last(), t)
    }
}

/// As `spec_relatives_expand`, keeping only positions inside the bounds.
pub open spec fn spec_expand_steps_checked<M: Movement>(
    p: Position,
    k: M,
    t: int,
    bounds: (usize, usize),
) -> Seq<((M, usize), Position)>
    decreases t,
{
    if t <= 0 {
        Seq::empty()
    } else {
        let init = spec_expand_steps_checked(p, k, t - 1, bounds);
        let moved = spec_move_times(p, k.spec_kernel(), t);
        if spec_in_bounds(moved, bounds) {
            init.push(((k, t as usize), moved))
        } else {
            init
        }
    }
}

/// As `spec_relatives_expand`, keeping only positions inside the bounds.
pub open spec fn spec_relatives_expand_checked<M: Movement>(
    p: Position,
    ks: Seq<M>,
    t: int,
    bounds: (usize, usize),
) -> Seq<((M, usize), Position)>
    decreases ks.len(),
{
    if ks.len() == 0 {
        Seq::empty()
    } else {
        spec_relatives_expand_checked(p, ks.drop_last(), t, bounds) + spec_expand_steps_checked(
            p,
            ks.last(),
            t,
            bounds,
        )
    }
}

impl Position {
    /// Each kernel's target position, paired with the kernel, in order.
    pub fn relatives<M: Movement>(self, kernels: &Vec<M>) -> (r: Vec<(Position, M)>)
        requires
            forall|i: int|
                0 <= i < kernels@.len() ==> fits(self.x + (#[trigger] kernels@[i]).spec_kernel().x)
                    && fits(self.y + kernels@[i].spec_kernel().y),
        ensures
            r@.len() == kernels@.len(),
            forall|i: int|
                0 <= i < kernels@.len() ==> #[trigger] r@[i] == (
                    spec_move(self, kernels@[i].spec_kernel()),
                    kernels@[i],
                ),
    {
        let mut r: Vec<(Position, M)> = Vec::new();
        let mut i: usize = 0;
        while i < kernels.len()
            invariant
                0 <= i <= kernels@.len(),
                forall|j: int|
                    0 <= j < kernels@.len() ==> fits(
                        self.x + (#[trigger] kernels@[j]).spec_kernel().x,
                    ) && fits(self.y + kernels@[j].spec_kernel().y),
                r@.len() == i,
                forall|j: int|
                    0 <= j < i ==> #[trigger] r@[j] == (
                        spec_move(self, kernels@[j].spec_kernel()),
                        kernels@[j],
                    ),
            decreases kernels@.len() - i,
        {
            let k = kernels[i];
            r.push((self.move_dir(k), k));
            i = i + 1;
        }
        r
    }

    /// Each kernel's target position that stays inside the bounds, paired
    /// with the kernel, in order.
    pub fn relatives_checked<M: Movement>(self, kernels: &Vec<M>, bounds: (usize, usize)) -> (r:
        Vec<(Position, M)>)
        requires
            forall|i: int|
                0 <= i < kernels@.len() ==> fits(self.x + (#[trigger] kernels@[i]).spec_kernel().x)
                    && fits(self.y + kernels@[i].spec_kernel().y),
        ensures
            r@ == spec_relatives_checked(self, kernels@, bounds),
    {
        let mut r: Vec<(Position, M)> = Vec::new();
        let mut i: usize = 0;
        while i < kernels.len()
            invariant
                0 <= i <= kernels@.len(),
                forall|j: int|
                    0 <= j < kernels@.len() ==> fits(
                        self.x + (#[trigger] kernels@[j]).spec_kernel().x,
                    ) && fits(self.y + kernels@[j].spec_kernel().y),
                r@ == spec_relatives_checked(self, kernels@.subrange(0, i as int), bounds),
            decreases kernels@.len() - i,
        {
            let ghost prefix = kernels@.subrange(0, i as int);
            let ghost longer = kernels@.subrange(0, i as int + 1);
            proof {
                assert(longer.drop_last() =~= prefix);
                assert(longer.last() == kernels@[i as int]);
            }
            let k = kernels[i];
            match self.move_dir_checked(k, bounds) {
                Some(moved) => r.push((moved, k)),
                None => (),
            }
            i = i + 1;
        }
        proof {
            assert(kernels@.subrange(0, kernels@.len() as int) =~= kernels@);
        }
        r
    }

    /// Every position reached by applying a kernel one to `times` times,
    /// kernel-major, nearest first.
    pub fn relatives_expand_by<M: Movement>(self, kernels: &Vec<M>, times: usize) -> (r: Vec<
        ((M, usize), Position)>)
        requires
            times <= isize::MAX,
            forall|i: int|
                0 <= i < kernels@.len() ==> expand_fits(
                    self,
                    (#[trigger] kernels@[i]).spec_kernel(),
                    times as int,
                ),
        ensures
            r@ == spec_relatives_expand(self, kernels@, times as int),
    {
        let mut r: Vec<((M, usize), Position)> = Vec::new();
        let mut i: usize = 0;
        while i < kernels.len()
            invariant
                0 <= i <= kernels@.len(),
                times <= isize::MAX,
                forall|j: int|
                    0 <= j < kernels@.len() ==> expand_fits(
                        self,
                        (#[trigger] kernels@[j]).spec_kernel(),
                        times as int,
                    ),
                r@ == spec_relatives_expand(self, kernels@.subrange(0, i as int), times as int),
            decreases kernels@.len() - i,
        {
            let ghost prefix = kernels@.subrange(0, i as int);
            let ghost longer = kernels@.subrange(0, i as int + 1);
            proof {
                assert(longer.drop_last() =~= prefix);
                assert(longer.last() == kernels@[i as int]);
            }
            let k = kernels[i];
            let mut t: usize = 1;
            while t <= times
                invariant
                    1 <= t <= times + 1,
                    times <= isize::MAX,
                    k == kernels@[i as int],
                    0 <= i < kernels@.len(),
                    forall|j: int|
                        0 <= j < kernels@.len() ==> expand_fits(
                            self,
                            (#[trigger] kernels@[j]).spec_kernel(),
                            times as int,
                        ),
                    r@ == spec_relatives_expand(self, kernels@.subrange(0, i as int), times as int)
                        + spec_expand_steps(self, k, t - 1),
                decreases times + 1 - t,
            {
                proof {
                    assert(step_fits(self, k.spec_kernel(), t as int));
                }
                let moved = self.move_times(k, t);
                r.push(((k, t), moved));
                t = t + 1;
            }
            i = i + 1;
        }
        proof {
            assert(kernels@.subrange(0, kernels@.len() as int) =~= kernels@);
        }
        r
    }

    /// Every position reached by applying a kernel one to `times` times and
    /// staying inside the bounds, kernel-major, nearest first.
    pub fn relatives_expand_by_checked<M: Movement>(
        self,
        kernels: &Vec<M>,
        times: usize,
        bounds: (usize, usize),
    ) -> (r: Vec<((M, usize), Position)>)
        requires
            times <= isize::MAX,
            forall|i: int|
                0 <= i < kernels@.len() ==> expand_fits(
                    self,
                    (#[trigger] kernels@[i]).spec_kernel(),
                    times as int,
                ),
        ensures
            r@ == spec_relatives_expand_checked(self, kernels@, times as int, bounds),
    {
        let mut r: Vec<((M, usize), Position)> = Vec::new();
        let mut i: usize = 0;
        while i < kernels.len()
            invariant
                0 <= i <= kernels@.len(),
                times <= isize::MAX,
                forall|j: int|
                    0 <= j < kernels@.len() ==> expand_fits(
                        self,
                        (#[trigger] kernels@[j]).spec_kernel(),
                        times as int,
                    ),
                r@ == spec_relatives_expand_checked(
                    self,
                    kernels@.subrange(0, i as int),
                    times as int,
                    bounds,
                ),
            decreases kernels@.len() - i,
        {
            let ghost prefix = kernels@.subrange(0, i as int);
            let ghost longer = kernels@.subrange(0, i as int + 1);
            proof {
                assert(longer.drop_last() =~= prefix);
                assert(longer.last() == kernels@[i as int]);
            }
            let k = kernels[i];
            let mut t: usize = 1;
            while t <= times
                invariant
                    1 <= t <= times + 1,
                    times <= isize::MAX,
                    k == kernels@[i as int],
                    0 <= i < kernels@.len(),
                    forall|j: int|
                        0 <= j < kernels@.len() ==> expand_fits(
                            self,
                            (#[trigger] kernels@[j]).spec_kernel(),
                            times as int,
                        ),
                    r@ == spec_relatives_expand_checked(
                        self,
                        kernels@.subrange(0, i as int),
                        times as int,
                        bounds,
                    ) + spec_expand_steps_checked(self, k, t - 1, bounds),
                decreases times + 1 - t,
            {
                proof {
                    assert(step_fits(self, k.spec_kernel(), t as int));
                }
                match self.move_times_checked(k, t, bounds) {
                    Some(moved) => r.push(((k, t), moved)),
                    None => (),
                }
                t = t + 1;
            }
            i = i + 1;
        }
        proof {
            assert(kernels@.subrange(0, kernels@.len() as int) =~= kernels@);
        }
        r
    }

    /// The four cardinal neighbours of this position, paired with their
    /// directions, in the order north, south, east, west.
    pub fn adjacents(self) -> (r: Vec<(Position, Direction)>)
        requires
            fits(self.x + 1),
            fits(self.x - 1),
            fits(self.y + 1),
            fits(self.y - 1),
        ensures
            r@.len() == 4,
            forall|i: int|
                0 <= i < 4 ==> #[trigger] r@[i] == (
                    spec_move(self, crate::dir::cardinal_seq()[i].spec_kernel()),
                    crate::dir::cardinal_seq()[i],
                ),
    {
        let ks = crate::dir::cardinals();
        self.relatives(&ks)
    }

    /// The cardinal neighbours of this position that lie inside the bounds,
    /// paired with their directions, in the order north, south, east, west.
    pub fn adjacents_checked(self, bounds: (usize, usize)) -> (r: Vec<(Position, Direction)>)
        requires
            fits(self.x + 1),
            fits(self.x - 1),
            fits(self.y + 1),
            fits(self.y - 1),
        ensures
            r@ == spec_relatives_checked(self, crate::dir::cardinal_seq(), bounds),
    {
        let ks = crate::dir::cardinals();
        self.relatives_checked(&ks, bounds)
    }
}

} // verus!

//! A 2D grid of values, stored as a vector of rows, with bounds-checked,
//! wrapping and neighbourhood access.

use vstd::prelude::*;

use crate::dir::{cardinal_seq, cardinals, Direction, Movement};
use crate::pos::{expand_fits, fits, spec_move, Position};
use crate::textutil::{spec_split_char, split_char};

verus! {

/// A 2D integer grid of values, row-major.
#[derive(Clone)]
pub struct Grid<T> {
    data: Vec<Vec<T>>,
}

impl<T> View for Grid<T> {
    type V = Seq<Seq<T>>;

    closed spec fn view(&self) -> Seq<Seq<T>> {
        self.data@.map_values(|row: Vec<T>| row@)
    }
}

/// A well-formed grid: at least one row, all rows equally long.
pub open spec fn grid_wf<T>(g: &Grid<T>) -> bool {
    g@.len() > 0 && forall|i: int| 0 <= i < g@.len() ==> (#[trigger] g@[i]).len() == g@[0].len()
}

/// Whether `pos` names a cell of the rows `rows`.
pub open spec fn rows_in<T>(rows: Seq<Seq<T>>, pos: Position) -> bool {
    0 <= pos.y < rows.len() && 0 <= pos.x < rows[pos.y as int].len()
}

/// The value of the cell `pos` names in the rows `rows`.
pub open spec fn rows_at<T>(rows: Seq<Seq<T>>, pos: Position) -> T {
    rows[pos.y as int][pos.x as int]
}

/// Whether `pos` names a cell of `g`.
pub open spec fn pos_in_grid<T>(g: &Grid<T>, pos: Position) -> bool {
    rows_in(g@, pos)
}

impl<T> Grid<T> {
    /// A grid from its rows.
    pub fn new(data: Vec<Vec<T>>) -> (g: Self)
        ensures
            g@.len() == data@.len(),
            forall|i: int| 0 <= i < data@.len() ==> g@[i] == (#[trigger] data@[i])@,
    {
        let g = Grid { data };
        proof {
            assert(forall|i: int|
                0 <= i < g.data@.len() ==> g@[i] == (#[trigger] g.data@[i])@);
        }
        g
    }

    /// The number of rows, whatever shape the grid has.
    pub fn row_count(&self) -> (h: usize)
        ensures
            h == g_height(self),
    {
        self.data.len()
    }

    /// The length of one row, whatever shape the grid has.
    pub fn row_len(&self, y: usize) -> (r: usize)
        requires
            y < g_height(self),
        ensures
            r == self@[y as int].len(),
    {
        proof {
            assert(self@[y as int] == self.data@[y as int]@);
        }
        self.data[y].len()
    }

    /// Whether the grid is well-formed: at least one row, all rows equally
    /// long.
    pub fn is_wf(&self) -> (r: bool)
        ensures
            r == grid_wf(self),
    {
        if self.data.len() == 0 {
            return false;
        }
        let w = self.data[0].len();
        let mut i: usize = 0;
        while i < self.data.len()
            invariant
                0 <= i <= self.data@.len(),
                self.data@.len() == self@.len(),
                self@.len() > 0,
                w == self@[0].len(),
                forall|j: int| 0 <= j < i ==> (#[trigger] self@[j]).len() == w,
            decreases self.data@.len() - i,
        {
            proof {
                assert(self@[i as int] == self.data@[i as int]@);
            }
            if self.data[i].len() != w {
                return false;
            }
            i = i + 1;
        }
        true
    }

    /// The number of columns, read off the first row.
    pub fn width(&self) -> (w: usize)
        requires
            grid_wf(self),
        ensures
            w == g_width(self),
    {
        self.data[0].len()
    }

    /// The number of rows.
    pub fn height(&self) -> (h: usize)
        requires
            grid_wf(self),
        ensures
            h == g_height(self),
    {
        self.data.len()
    }

    /// The grid's size as `(width, height)`.
    pub fn size(&self) -> (s: (usize, usize))
        requires
            grid_wf(self),
        ensures
            s.0 == g_width(self),
            s.1 == g_height(self),
    {
        (self.width(), self.height())
    }

    /// The grid's largest coordinates as `(width - 1, height - 1)`.
    pub fn bounds(&self) -> (b: (usize, usize))
        requires
            grid_wf(self),
            g_width(self) >= 1,
        ensures
            b.0 == g_width(self) - 1,
            b.1 == g_height(self) - 1,
    {
        (self.width() - 1, self.height() - 1)
    }

    /// The value at `pos`, or nothing outside the grid.
    pub fn get(&self, pos: Position) -> (r: Option<&T>)
        ensures
            pos_in_grid(self, pos) ==> (r matches Some(v) && *v == g_at(self, pos)),
            !pos_in_grid(self, pos) ==> r is None,
    {
        if pos.y < 0 || pos.x < 0 {
            return None;
        }
        let y = pos.y as usize;
        let x = pos.x as usize;
        if y < self.data.len() {
            let row = &self.data[y];
            if x < row.len() {
                Some(&row[x])
            } else {
                None
            }
        } else {
            None
        }
    }

    /// The value at `pos`, which must name a cell.
    pub fn unsafe_get(&self, pos: Position) -> (r: &T)
        requires
            pos_in_grid(self, pos),
        ensures
            *r == g_at(self, pos),
    {
        let y = pos.y as usize;
        let x = pos.x as usize;
        &self.data[y][x]
    }

    /// The value at `pos`, wrapping both coordinates around the grid.
    pub fn get_wrapped(&self, pos: Position) -> (r: &T)
        requires
            grid_wf(self),
            1 <= g_width(self) <= isize::MAX,
            1 <= g_height(self) <= isize::MAX,
        ensures
            *r == g_at_wrapped(self, pos),
    {
        let wrapped = pos.bind(self.size());
        proof {
            vstd::arithmetic::div_mod::lemma_mod_bound(pos.x as int, g_width(self) as int);
            vstd::arithmetic::div_mod::lemma_mod_bound(pos.y as int, g_height(self) as int);
            assert(self@.len() == self.data@.len());
            assert(wrapped.1 < self.data@.len());
            assert(self@[wrapped.1 as int] == self.data@[wrapped.1 as int]@);
            assert(self@[wrapped.1 as int].len() == g_width(self));
        }
        &self.data[wrapped.1][wrapped.0]
    }
}

/// The number of columns of a grid.
pub open spec fn g_width<T>(g: &Grid<T>) -> nat {
    g@[0].len()
}

/// The number of rows of a grid.
pub open spec fn g_height<T>(g: &Grid<T>) -> nat {
    g@.len()
}

/// The value of the cell `pos` names.
pub open spec fn g_at<T>(g: &Grid<T>, pos: Position) -> T {
    rows_at(g@, pos)
}

/// The value of the cell `pos` names once both coordinates are wrapped
/// around the grid.
pub open spec fn g_at_wrapped<T>(g: &Grid<T>, pos: Position) -> T {
    g@[(pos.y as int) % (g_height(g) as int)][(pos.x as int) % (g_width(g) as int)]
}

/// The in-grid neighbours reached from `pos` by each kernel, in kernel
/// order, each with its kernel, target position and value.
pub open spec fn spec_grid_relatives<T, M: Movement>(
    g: &Grid<T>,
    pos: Position,
    ks: Seq<M>,
) -> Seq<(M, Position, T)>
    decreases ks.len(),
{
    if ks.len() == 0 {
        Seq::empty()
    } else {
        let init = spec_grid_relatives(g, pos, ks.drop_last());
        let moved = spec_move(pos, ks.last().spec_kernel());
        if pos_in_grid(g, moved) {
            init.push((ks.last(), moved, g_at(g, moved)))
        } else {
            init
        }
    }
}

/// The in-grid positions reached from `pos` by applying `k` one to `t`
/// times, nearest first, each with its kernel, step count, position and
/// value.
pub open spec fn spec_grid_expand_steps<T, M: Movement>(
    g: &Grid<T>,
    pos: Position,
    k: M,
    t: int,
) -> Seq<((M, usize), Position, T)>
    decreases t,
{
    if t <= 0 {
        Seq::empty()
    } else {
        let init = spec_grid_expand_steps(g, pos, k, t - 1);
        let moved = crate::pos::spec_move_times(pos, k.spec_kernel(), t);
        if pos_in_grid(g, moved) {
            init.push(((k, t as usize), moved, g_at(g, moved)))
        } else {
            init
        }
    }
}

/// As `spec_grid_expand_steps`, over every kernel, kernel-major.
pub open spec fn spec_grid_expand<T, M: Movement>(
    g: &Grid<T>,
    pos: Position,
    ks: Seq<M>,
    t: int,
) -> Seq<((M, usize), Position, T)>
    decreases ks.len(),
{
    if ks.len() == 0 {
        Seq::empty()
    } else {
        spec_grid_expand(g, pos, ks.drop_last(), t) + spec_grid_expand_steps(g, pos, ks.last(), t)
    }
}

/// As `spec_grid_expand_steps`, but wrapping every target around the grid
/// instead of dropping the ones outside it.
pub open spec fn spec_grid_expand_steps_wrapped<T, M: Movement>(
    g: &Grid<T>,
    pos: Position,
    k: M,
    t: int,
) -> Seq<((M, usize), Position, T)>
    decreases t,
{
    if t <= 0 {
        Seq::empty()
    } else {
        let moved = crate::pos::spec_move_times(pos, k.spec_kernel(), t);
        spec_grid_expand_steps_wrapped(g, pos, k, t - 1).push(
            ((k, t as usize), moved, g_at_wrapped(g, moved)),
        )
    }
}

/// As `spec_grid_expand_steps_wrapped`, over every kernel, kernel-major.
pub open spec fn spec_grid_expand_wrapped<T, M: Movement>(
    g: &Grid<T>,
    pos: Position,
    ks: Seq<M>,
    t: int,
) -> Seq<((M, usize), Position, T)>
    decreases ks.len(),
{
    if ks.len() == 0 {
        Seq::empty()
    } else {
        spec_grid_expand_wrapped(g, pos, ks.drop_last(), t) + spec_grid_expand_steps_wrapped(
            g,
            pos,
            ks.last(),
            t,
        )
    }
}

impl<T> Grid<T> {
    /// Parse a grid from text: one row per line, one cell per character,
    /// each converted through the cell type's `From<char>`.
    pub fn parse(input: &str) -> (g: Self) where T: From<char>
        ensures
            g@.len() == spec_split_char(input@, '\n').len(),
            forall|y: int|
                0 <= y < g@.len() ==> (#[trigger] g@[y]).len() == spec_split_char(
                    input@,
                    '\n',
                )[y].len(),
            forall|y: int, x: int|
                0 <= y < g@.len() && 0 <= x < g@[y].len() ==> call_ensures(
                    T::from,
                    (spec_split_char(input@, '\n')[y][x],),
                    #[trigger] g@[y][x],
                ),
    {
        let lines = split_char(input, '\n');
        let mut rows: Vec<Vec<T>> = Vec::new();
        let mut y: usize = 0;
        while y < lines.len()
            invariant
                0 <= y <= lines@.len(),
                lines@.len() == spec_split_char(input@, '\n').len(),
                forall|i: int|
                    0 <= i < lines@.len() ==> (#[trigger] lines@[i])@ == spec_split_char(
                        input@,
                        '\n',
                    )[i],
                rows@.len() == y,
                forall|i: int|
                    0 <= i < y ==> (#[trigger] rows@[i])@.len() == spec_split_char(
                        input@,
                        '\n',
                    )[i].len(),
                forall|i: int, j: int|
                    0 <= i < y && 0 <= j < rows@[i]@.len() ==> call_ensures(
                        T::from,
                        (spec_split_char(input@, '\n')[i][j],),
                        #[trigger] rows@[i]@[j],
                    ),
            decreases lines@.len() - y,
        {
            let line = lines[y];
            let llen = line.unicode_len();
            let mut row: Vec<T> = Vec::new();
            let mut x: usize = 0;
            while x < llen
                invariant
                    0 <= x <= llen,
                    llen == line@.len(),
                    line@ == spec_split_char(input@, '\n')[y as int],
                    0 <= y < lines@.len(),
                    lines@.len() == spec_split_char(input@, '\n').len(),
                    row@.len() == x,
                    forall|j: int|
                        0 <= j < x ==> call_ensures(
                            T::from,
                            (spec_split_char(input@, '\n')[y as int][j],),
                            #[trigger] row@[j],
                        ),
                decreases llen - x,
            {
                let c = line.get_char(x);
                row.push(T::from(c));
                x = x + 1;
            }
            rows.push(row);
            y = y + 1;
        }
        let ghost rows_view = rows@;
        let g = Grid::new(rows);
        proof {
            assert forall|i: int| 0 <= i < g@.len() implies #[trigger] g@[i] == rows_view[i]@ by {
                assert(g@[i] == (rows_view[i])@);
            }
        }
        g
    }

    /// The values of one row, or nothing for a row outside the grid.
    pub fn iter_row(&self, row: usize) -> (r: Option<Vec<&T>>)
        ensures
            r is Some <==> row < g_height(self),
            r matches Some(v) ==> v@.len() == self@[row as int].len() && forall|j: int|
                0 <= j < v@.len() ==> #[trigger] v@[j] == self@[row as int][j],
    {
        if row >= self.data.len() {
            return None;
        }
        let data_row = &self.data[row];
        let mut v: Vec<&T> = Vec::new();
        let mut j: usize = 0;
        while j < data_row.len()
            invariant
                0 <= j <= data_row@.len(),
                data_row@ == self.data@[row as int]@,
                row < self.data@.len(),
                v@.len() == j,
                forall|i: int| 0 <= i < j ==> #[trigger] v@[i] == self@[row as int][i],
            decreases data_row@.len() - j,
        {
            v.push(&data_row[j]);
            j = j + 1;
        }
        Some(v)
    }

    /// The values of one row, or nothing for a row outside the grid.
    pub fn get_row(&self, y: usize) -> (r: Option<Vec<&T>>)
        ensures
            r is Some <==> y < g_height(self),
            r matches Some(v) ==> v@.len() == self@[y as int].len() && forall|j: int|
                0 <= j < v@.len() ==> #[trigger] v@[j] == self@[y as int][j],
    {
        self.iter_row(y)
    }

    /// The values of one column, top to bottom; a column just past the grid
    /// yields an empty vector, one further out yields nothing.
    pub fn iter_col(&self, col: usize) -> (r: Option<Vec<&T>>)
        requires
            grid_wf(self),
        ensures
            r is Some <==> col <= g_width(self),
            r matches Some(v) ==> if col < g_width(self) {
                v@.len() == g_height(self) && forall|i: int|
                    0 <= i < v@.len() ==> #[trigger] v@[i] == self@[i][col as int]
            } else {
                v@.len() == 0
            },
    {
        if col > self.width() {
            return None;
        }
        let mut v: Vec<&T> = Vec::new();
        if col == self.width() {
            return Some(v);
        }
        let mut i: usize = 0;
        while i < self.data.len()
            invariant
                grid_wf(self),
                col < g_width(self),
                0 <= i <= self.data@.len(),
                self.data@.len() == g_height(self),
                v@.len() == i,
                forall|k: int| 0 <= k < i ==> #[trigger] v@[k] == self@[k][col as int],
            decreases self.data@.len() - i,
        {
            let row = &self.data[i];
            proof {
                assert(self@[i as int] == self.data@[i as int]@);
                assert(self@[i as int].len() == g_width(self));
            }
            v.push(&row[col]);
            i = i + 1;
        }
        Some(v)
    }

    /// The values of one column, with the same bounds behaviour as
    /// `iter_col`.
    pub fn get_col(&self, x: usize) -> (r: Option<Vec<&T>>)
        requires
            grid_wf(self),
        ensures
            r is Some <==> x <= g_width(self),
            r matches Some(v) ==> if x < g_width(self) {
                v@.len() == g_height(self) && forall|i: int|
                    0 <= i < v@.len() ==> #[trigger] v@[i] == self@[i][x as int]
            } else {
                v@.len() == 0
            },
    {
        self.iter_col(x)
    }

    /// Every row's values, top to bottom.
    pub fn iter_rows(&self) -> (r: Vec<Vec<&T>>)
        ensures
            r@.len() == g_height(self),
            forall|i: int|
                0 <= i < r@.len() ==> (#[trigger] r@[i])@.len() == self@[i].len() && forall|j: int|
                    0 <= j < r@[i]@.len() ==> #[trigger] r@[i]@[j] == self@[i][j],
    {
        let mut r: Vec<Vec<&T>> = Vec::new();
        let mut y: usize = 0;
        while y < self.data.len()
            invariant
                0 <= y <= self.data@.len(),
                self.data@.len() == g_height(self),
                r@.len() == y,
                forall|i: int|
                    0 <= i < y ==> (#[trigger] r@[i])@.len() == self@[i].len() && forall|j: int|
                        0 <= j < r@[i]@.len() ==> #[trigger] r@[i]@[j] == self@[i][j],
            decreases self.data@.len() - y,
        {
            match self.iter_row(y) {
                Some(row) => r.push(row),
                None => (),
            }
            y = y + 1;
        }
        r
    }

    /// Every column's values, left to right.
    pub fn iter_cols(&self) -> (r: Vec<Vec<&T>>)
        requires
            grid_wf(self),
        ensures
            r@.len() == g_width(self),
            forall|c: int|
                0 <= c < r@.len() ==> (#[trigger] r@[c])@.len() == g_height(self) && forall|i: int|
                    0 <= i < r@[c]@.len() ==> #[trigger] r@[c]@[i] == self@[i][c],
    {
        let w = self.width();
        let mut r: Vec<Vec<&T>> = Vec::new();
        let mut c: usize = 0;
        while c < w
            invariant
                grid_wf(self),
                w == g_width(self),
                0 <= c <= w,
                r@.len() == c,
                forall|k: int|
                    0 <= k < c ==> (#[trigger] r@[k])@.len() == g_height(self) && forall|i: int|
                        0 <= i < r@[k]@.len() ==> #[trigger] r@[k]@[i] == self@[i][k],
            decreases w - c,
        {
            match self.iter_col(c) {
                Some(col) => r.push(col),
                None => (),
            }
            c = c + 1;
        }
        r
    }

    /// Every cell with its position, row-major.
    pub fn iter(&self) -> (r: Vec<(Position, &T)>)
        requires
            grid_wf(self),
            g_width(self) <= isize::MAX,
            g_height(self) <= isize::MAX,
        ensures
            r@.len() == g_height(self) * g_width(self),
            forall|k: int|
                0 <= k < r@.len() ==> (#[trigger] r@[k]).0 == (Position {
                    x: (k % (g_width(self) as int)) as isize,
                    y: (k / (g_width(self) as int)) as isize,
                }) && r@[k].1 == g_at(
                    self,
                    Position {
                        x: (k % (g_width(self) as int)) as isize,
                        y: (k / (g_width(self) as int)) as isize,
                    },
                ),
    {
        let w = self.width();
        let h = self.height();
        let ghost wi = w as int;
        let mut r: Vec<(Position, &T)> = Vec::new();
        let mut y: usize = 0;
        while y < h
            invariant
                grid_wf(self),
                w == g_width(self) <= isize::MAX,
                h == g_height(self) <= isize::MAX,
                0 <= y <= h,
                wi == w as int,
                r@.len() == y * wi,
                forall|k: int|
                    0 <= k < r@.len() ==> (#[trigger] r@[k]).0 == (Position {
                        x: (k % wi) as isize,
                        y: (k / wi) as isize,
                    }) && r@[k].1 == g_at(
                        self,
                        Position { x: (k % wi) as isize, y: (k / wi) as isize },
                    ),
            decreases h - y,
        {
            let row = &self.data[y];
            proof {
                assert(self@[y as int] == self.data@[y as int]@);
                assert(self@[y as int].len() == g_width(self));
            }
            let mut x: usize = 0;
            while x < w
                invariant
                    grid_wf(self),
                    w == g_width(self) <= isize::MAX,
                    h == g_height(self) <= isize::MAX,
                    0 <= y < h,
                    0 <= x <= w,
                    wi == w as int,
                    row@ == self.data@[y as int]@,
                    row@.len() == w,
                    r@.len() == y * wi + x,
                    forall|k: int|
                        0 <= k < r@.len() ==> (#[trigger] r@[k]).0 == (Position {
                            x: (k % wi) as isize,
                            y: (k / wi) as isize,
                        }) && r@[k].1 == g_at(
                            self,
                            Position { x: (k % wi) as isize, y: (k / wi) as isize },
                        ),
                decreases w - x,
            {
                proof {
                    vstd::arithmetic::div_mod::lemma_fundamental_div_mod_converse(
                        y * wi + x,
                        wi,
                        y as int,
                        x as int,
                    );
                }
                r.push((Position { x: x as isize, y: y as isize }, &row[x]));
                x = x + 1;
            }
            proof {
                assert(y * wi + wi == (y + 1) * wi) by (nonlinear_arith);
                assert((y + 1) * wi <= h * wi) by (nonlinear_arith)
                    requires
                        y + 1 <= h,
                        wi >= 0,
                ;
            }
            y = y + 1;
        }
        proof {
            assert(h * wi == g_height(self) * g_width(self)) by (nonlinear_arith)
                requires
                    h == g_height(self),
                    wi == g_width(self),
            ;
        }
        r
    }

    /// The in-grid neighbours reached by each kernel, in kernel order.
    pub fn relatives<M: Movement>(&self, pos: Position, kernels: &Vec<M>) -> (r: Vec<
        (M, Position, &T)>)
        requires
            forall|i: int|
                0 <= i < kernels@.len() ==> fits(pos.x + (#[trigger] kernels@[i]).spec_kernel().x)
                    && fits(pos.y + kernels@[i].spec_kernel().y),
        ensures
            r@.len() == spec_grid_relatives(self, pos, kernels@).len(),
            forall|i: int|
                0 <= i < r@.len() ==> (#[trigger] r@[i]).0 == spec_grid_relatives(
                    self,
                    pos,
                    kernels@,
                )[i].0 && r@[i].1 == spec_grid_relatives(self, pos, kernels@)[i].1 && r@[i].2
                    == spec_grid_relatives(self, pos, kernels@)[i].2,
    {
        let mut r: Vec<(M, Position, &T)> = Vec::new();
        let mut i: usize = 0;
        while i < kernels.len()
            invariant
                0 <= i <= kernels@.len(),
                forall|j: int|
                    0 <= j < kernels@.len() ==> fits(
                        pos.x + (#[trigger] kernels@[j]).spec_kernel().x,
                    ) && fits(pos.y + kernels@[j].spec_kernel().y),
                r@.len() == spec_grid_relatives(self, pos, kernels@.subrange(0, i as int)).len(),
                forall|j: int|
                    0 <= j < r@.len() ==> (#[trigger] r@[j]).0 == spec_grid_relatives(
                        self,
                        pos,
                        kernels@.subrange(0, i as int),
                    )[j].0 && r@[j].1 == spec_grid_relatives(
                        self,
                        pos,
                        kernels@.subrange(0, i as int),
                    )[j].1 && r@[j].2 == spec_grid_relatives(
                        self,
                        pos,
                        kernels@.subrange(0, i as int),
                    )[j].2,
            decreases kernels@.len() - i,
        {
            let ghost prefix = kernels@.subrange(0, i as int);
            let ghost longer = kernels@.subrange(0, i as int + 1);
            proof {
                assert(longer.drop_last() =~= prefix);
                assert(longer.last() == kernels@[i as int]);
            }
            let k = kernels[i];
            let moved = pos.move_dir(k);
            match self.get(moved) {
                Some(v) => r.push((k, moved, v)),
                None => (),
            }
            i = i + 1;
        }
        proof {
            assert(kernels@.subrange(0, kernels@.len() as int) =~= kernels@);
        }
        r
    }

    /// Like `relatives`, with the kernels set to the four cardinal
    /// directions.
    pub fn adjacent(&self, pos: Position) -> (r: Vec<(Direction, Position, &T)>)
        requires
            fits(pos.x + 1),
            fits(pos.x - 1),
            fits(pos.y + 1),
            fits(pos.y - 1),
        ensures
            r@.len() == spec_grid_relatives(self, pos, cardinal_seq()).len(),
            forall|i: int|
                0 <= i < r@.len() ==> (#[trigger] r@[i]).0 == spec_grid_relatives(
                    self,
                    pos,
                    cardinal_seq(),
                )[i].0 && r@[i].1 == spec_grid_relatives(self, pos, cardinal_seq())[i].1
                    && r@[i].2 == spec_grid_relatives(self, pos, cardinal_seq())[i].2,
    {
        let ks = cardinals();
        self.relatives(pos, &ks)
    }

    /// Each kernel's target, with the value read after wrapping the target
    /// around the grid, in kernel order.
    pub fn relatives_wrapped<M: Movement>(&self, pos: Position, kernels: &Vec<M>) -> (r: Vec<
        (M, Position, &T)>)
        requires
            grid_wf(self),
            1 <= g_width(self) <= isize::MAX,
            1 <= g_height(self) <= isize::MAX,
            forall|i: int|
                0 <= i < kernels@.len() ==> fits(pos.x + (#[trigger] kernels@[i]).spec_kernel().x)
                    && fits(pos.y + kernels@[i].spec_kernel().y),
        ensures
            r@.len() == kernels@.len(),
            forall|i: int|
                0 <= i < r@.len() ==> (#[trigger] r@[i]).0 == kernels@[i] && r@[i].1 == spec_move(
                    pos,
                    kernels@[i].spec_kernel(),
                ) && r@[i].2 == g_at_wrapped(self, spec_move(pos, kernels@[i].spec_kernel())),
    {
        let mut r: Vec<(M, Position, &T)> = Vec::new();
        let mut i: usize = 0;
        while i < kernels.len()
            invariant
                grid_wf(self),
                1 <= g_width(self) <= isize::MAX,
                1 <= g_height(self) <= isize::MAX,
                0 <= i <= kernels@.len(),
                forall|j: int|
                    0 <= j < kernels@.len() ==> fits(
                        pos.x + (#[trigger] kernels@[j]).spec_kernel().x,
                    ) && fits(pos.y + kernels@[j].spec_kernel().y),
                r@.len() == i,
                forall|j: int|
                    0 <= j < i ==> (#[trigger] r@[j]).0 == kernels@[j] && r@[j].1 == spec_move(
                        pos,
                        kernels@[j].spec_kernel(),
                    ) && r@[j].2 == g_at_wrapped(self, spec_move(pos, kernels@[j].spec_kernel())),
            decreases kernels@.len() - i,
        {
            let k = kernels[i];
            let moved = pos.move_dir(k);
            let v = self.get_wrapped(moved);
            r.push((k, moved, v));
            i = i + 1;
        }
        r
    }

    /// Like `relatives_wrapped`, with the kernels set to the four cardinal
    /// directions.
    pub fn adjacent_wrapped(&self, pos: Position) -> (r: Vec<(Direction, Position, &T)>)
        requires
            grid_wf(self),
            1 <= g_width(self) <= isize::MAX,
            1 <= g_height(self) <= isize::MAX,
            fits(pos.x + 1),
            fits(pos.x - 1),
            fits(pos.y + 1),
            fits(pos.y - 1),
        ensures
            r@.len() == 4,
            forall|i: int|
                0 <= i < r@.len() ==> (#[trigger] r@[i]).0 == cardinal_seq()[i] && r@[i].1
                    == spec_move(pos, cardinal_seq()[i].spec_kernel()) && r@[i].2 == g_at_wrapped(
                    self,
                    spec_move(pos, cardinal_seq()[i].spec_kernel()),
                ),
    {
        let ks = cardinals();
        self.relatives_wrapped(pos, &ks)
    }

    /// The in-grid positions reached by applying each kernel one to
    /// `expand` times, kernel-major, nearest first, with their values.
    pub fn relatives_expand_by<M: Movement>(
        &self,
        pos: Position,
        kernels: &Vec<M>,
        expand: usize,
    ) -> (r: Vec<((M, usize), Position, &T)>)
        requires
            expand <= isize::MAX,
            forall|i: int|
                0 <= i < kernels@.len() ==> expand_fits(
                    pos,
                    (#[trigger] kernels@[i]).spec_kernel(),
                    expand as int,
                ),
        ensures
            r@.len() == spec_grid_expand(self, pos, kernels@, expand as int).len(),
            forall|i: int|
                0 <= i < r@.len() ==> (#[trigger] r@[i]).0 == spec_grid_expand(
                    self,
                    pos,
                    kernels@,
                    expand as int,
                )[i].0 && r@[i].1 == spec_grid_expand(self, pos, kernels@, expand as int)[i].1
                    && r@[i].2 == spec_grid_expand(self, pos, kernels@, expand as int)[i].2,
    {
        let mut r: Vec<((M, usize), Position, &T)> = Vec::new();
        let mut i: usize = 0;
        while i < kernels.len()
            invariant
                expand <= isize::MAX,
                0 <= i <= kernels@.len(),
                forall|j: int|
                    0 <= j < kernels@.len() ==> expand_fits(
                        pos,
                        (#[trigger] kernels@[j]).spec_kernel(),
                        expand as int,
                    ),
                r@.len() == spec_grid_expand(
                    self,
                    pos,
                    kernels@.subrange(0, i as int),
                    expand as int,
                ).len(),
                forall|j: int|
                    0 <= j < r@.len() ==> (#[trigger] r@[j]).0 == spec_grid_expand(
                        self,
                        pos,
                        kernels@.subrange(0, i as int),
                        expand as int,
                    )[j].0 && r@[j].1 == spec_grid_expand(
                        self,
                        pos,
                        kernels@.subrange(0, i as int),
                        expand as int,
                    )[j].1 && r@[j].2 == spec_grid_expand(
                        self,
                        pos,
                        kernels@.subrange(0, i as int),
                        expand as int,
                    )[j].2,
            decreases kernels@.len() - i,
        {
            let ghost prefix = kernels@.subrange(0, i as int);
            let ghost longer = kernels@.subrange(0, i as int + 1);
            proof {
                assert(longer.drop_last() =~= prefix);
                assert(longer.last() == kernels@[i as int]);
            }
            let k = kernels[i];
            let mut t: usize = 1;
            while t <= expand
                invariant
                    1 <= t <= expand + 1,
                    expand <= isize::MAX,
                    k == kernels@[i as int],
                    0 <= i < kernels@.len(),
                    forall|j: int|
                        0 <= j < kernels@.len() ==> expand_fits(
                            pos,
                            (#[trigger] kernels@[j]).spec_kernel(),
                            expand as int,
                        ),
                    r@.len() == spec_grid_expand(
                        self,
                        pos,
                        kernels@.subrange(0, i as int),
                        expand as int,
                    ).len() + spec_grid_expand_steps(self, pos, k, t - 1).len(),
                    forall|j: int|
                        0 <= j < spec_grid_expand(
                            self,
                            pos,
                            kernels@.subrange(0, i as int),
                            expand as int,
                        ).len() ==> (#[trigger] r@[j]).0 == spec_grid_expand(
                            self,
                            pos,
                            kernels@.subrange(0, i as int),
                            expand as int,
                        )[j].0 && r@[j].1 == spec_grid_expand(
                            self,
                            pos,
                            kernels@.subrange(0, i as int),
                            expand as int,
                        )[j].1 && r@[j].2 == spec_grid_expand(
                            self,
                            pos,
                            kernels@.subrange(0, i as int),
                            expand as int,
                        )[j].2,
                    forall|j: int|
                        spec_grid_expand(
                            self,
                            pos,
                            kernels@.subrange(0, i as int),
                            expand as int,
                        ).len() <= j < r@.len() ==> ({
                            let step = j - spec_grid_expand(
                                self,
                                pos,
                                kernels@.subrange(0, i as int),
                                expand as int,
                            ).len();
                            (#[trigger] r@[j]).0 == spec_grid_expand_steps(self, pos, k, t - 1)[step].0
                                && r@[j].1 == spec_grid_expand_steps(self, pos, k, t - 1)[step].1
                                && r@[j].2 == spec_grid_expand_steps(self, pos, k, t - 1)[step].2
                        }),
                decreases expand + 1 - t,
            {
                proof {
                    assert(crate::pos::step_fits(pos, k.spec_kernel(), t as int));
                }
                let moved = pos.move_times(k, t);
                match self.get(moved) {
                    Some(v) => r.push(((k, t), moved, v)),
                    None => (),
                }
                t = t + 1;
            }
            i = i + 1;
        }
        proof {
            assert(kernels@.subrange(0, kernels@.len() as int) =~= kernels@);
        }
        r
    }

    /// Like `relatives_expand_by`, with the kernels set to the four
    /// cardinal directions.
    pub fn adjacent_expand_by(&self, pos: Position, expand: usize) -> (r: Vec<
        ((Direction, usize), Position, &T)>)
        requires
            expand <= isize::MAX,
            forall|i: int|
                0 <= i < 4 ==> expand_fits(
                    pos,
                    (#[trigger] cardinal_seq()[i]).spec_kernel(),
                    expand as int,
                ),
        ensures
            r@.len() == spec_grid_expand(self, pos, cardinal_seq(), expand as int).len(),
            forall|i: int|
                0 <= i < r@.len() ==> (#[trigger] r@[i]).0 == spec_grid_expand(
                    self,
                    pos,
                    cardinal_seq(),
                    expand as int,
                )[i].0 && r@[i].1 == spec_grid_expand(self, pos, cardinal_seq(), expand as int)[i].1
                    && r@[i].2 == spec_grid_expand(self, pos, cardinal_seq(), expand as int)[i].2,
    {
        let ks = cardinals();
        self.relatives_expand_by(pos, &ks, expand)
    }

    /// Every position reached by applying each kernel one to `expand`
    /// times, kernel-major, nearest first, with values read after wrapping
    /// around the grid.
    pub fn relatives_expand_by_wrapped<M: Movement>(
        &self,
        pos: Position,
        kernels: &Vec<M>,
        expand: usize,
    ) -> (r: Vec<((M, usize), Position, &T)>)
        requires
            grid_wf(self),
            1 <= g_width(self) <= isize::MAX,
            1 <= g_height(self) <= isize::MAX,
            expand <= isize::MAX,
            forall|i: int|
                0 <= i < kernels@.len() ==> expand_fits(
                    pos,
                    (#[trigger] kernels@[i]).spec_kernel(),
                    expand as int,
                ),
        ensures
            r@.len() == spec_grid_expand_wrapped(self, pos, kernels@, expand as int).len(),
            forall|i: int|
                0 <= i < r@.len() ==> (#[trigger] r@[i]).0 == spec_grid_expand_wrapped(
                    self,
                    pos,
                    kernels@,
                    expand as int,
                )[i].0 && r@[i].1 == spec_grid_expand_wrapped(self, pos, kernels@, expand as int)[i].1
                    && r@[i].2 == spec_grid_expand_wrapped(self, pos, kernels@, expand as int)[i].2,
    {
        let mut r: Vec<((M, usize), Position, &T)> = Vec::new();
        let mut i: usize = 0;
        while i < kernels.len()
            invariant
                grid_wf(self),
                1 <= g_width(self) <= isize::MAX,
                1 <= g_height(self) <= isize::MAX,
                expand <= isize::MAX,
                0 <= i <= kernels@.len(),
                forall|j: int|
                    0 <= j < kernels@.len() ==> expand_fits(
                        pos,
                        (#[trigger] kernels@[j]).spec_kernel(),
                        expand as int,
                    ),
                r@.len() == spec_grid_expand_wrapped(
                    self,
                    pos,
                    kernels@.subrange(0, i as int),
                    expand as int,
                ).len(),
                forall|j: int|
                    0 <= j < r@.len() ==> (#[trigger] r@[j]).0 == spec_grid_expand_wrapped(
                        self,
                        pos,
                        kernels@.subrange(0, i as int),
                        expand as int,
                    )[j].0 && r@[j].1 == spec_grid_expand_wrapped(
                        self,
                        pos,
                        kernels@.subrange(0, i as int),
                        expand as int,
                    )[j].1 && r@[j].2 == spec_grid_expand_wrapped(
                        self,
                        pos,
                        kernels@.subrange(0, i as int),
                        expand as int,
                    )[j].2,
            decreases kernels@.len() - i,
        {
            let ghost prefix = kernels@.subrange(0, i as int);
            let ghost longer = kernels@.subrange(0, i as int + 1);
            proof {
                assert(longer.drop_last() =~= prefix);
                assert(longer.last() == kernels@[i as int]);
            }
            let k = kernels[i];
            let mut t: usize = 1;
            while t <= expand
                invariant
                    grid_wf(self),
                    1 <= g_width(self) <= isize::MAX,
                    1 <= g_height(self) <= isize::MAX,
                    1 <= t <= expand + 1,
                    expand <= isize::MAX,
                    k == kernels@[i as int],
                    0 <= i < kernels@.len(),
                    forall|j: int|
                        0 <= j < kernels@.len() ==> expand_fits(
                            pos,
                            (#[trigger] kernels@[j]).spec_kernel(),
                            expand as int,
                        ),
                    r@.len() == spec_grid_expand_wrapped(
                        self,
                        pos,
                        kernels@.subrange(0, i as int),
                        expand as int,
                    ).len() + spec_grid_expand_steps_wrapped(self, pos, k, t - 1).len(),
                    forall|j: int|
                        0 <= j < spec_grid_expand_wrapped(
                            self,
                            pos,
                            kernels@.subrange(0, i as int),
                            expand as int,
                        ).len() ==> (#[trigger] r@[j]).0 == spec_grid_expand_wrapped(
                            self,
                            pos,
                            kernels@.subrange(0, i as int),
                            expand as int,
                        )[j].0 && r@[j].1 == spec_grid_expand_wrapped(
                            self,
                            pos,
                            kernels@.subrange(0, i as int),
                            expand as int,
                        )[j].1 && r@[j].2 == spec_grid_expand_wrapped(
                            self,
                            pos,
                            kernels@.subrange(0, i as int),
                            expand as int,
                        )[j].2,
                    forall|j: int|
                        spec_grid_expand_wrapped(
                            self,
                            pos,
                            kernels@.subrange(0, i as int),
                            expand as int,
                        ).len() <= j < r@.len() ==> ({
                            let step = j - spec_grid_expand_wrapped(
                                self,
                                pos,
                                kernels@.subrange(0, i as int),
                                expand as int,
                            ).len();
                            (#[trigger] r@[j]).0 == spec_grid_expand_steps_wrapped(
                                self,
                                pos,
                                k,
                                t - 1,
                            )[step].0 && r@[j].1 == spec_grid_expand_steps_wrapped(
                                self,
                                pos,
                                k,
                                t - 1,
                            )[step].1 && r@[j].2 == spec_grid_expand_steps_wrapped(
                                self,
                                pos,
                                k,
                                t - 1,
                            )[step].2
                        }),
                decreases expand + 1 - t,
            {
                proof {
                    assert(crate::pos::step_fits(pos, k.spec_kernel(), t as int));
                }
                let moved = pos.move_times(k, t);
                let v = self.get_wrapped(moved);
                r.push(((k, t), moved, v));
                t = t + 1;
            }
            i = i + 1;
        }
        proof {
            assert(kernels@.subrange(0, kernels@.len() as int) =~= kernels@);
        }
        r
    }

    /// Like `relatives_expand_by_wrapped`, with the kernels set to the four
    /// cardinal directions.
    pub fn adjacent_expand_by_wrapped(&self, pos: Position, expand: usize) -> (r: Vec<
        ((Direction, usize), Position, &T)>)
        requires
            grid_wf(self),
            1 <= g_width(self) <= isize::MAX,
            1 <= g_height(self) <= isize::MAX,
            expand <= isize::MAX,
            forall|i: int|
                0 <= i < 4 ==> expand_fits(
                    pos,
                    (#[trigger] cardinal_seq()[i]).spec_kernel(),
                    expand as int,
                ),
        ensures
            r@.len() == spec_grid_expand_wrapped(self, pos, cardinal_seq(), expand as int).len(),
            forall|i: int|
                0 <= i < r@.len() ==> (#[trigger] r@[i]).0 == spec_grid_expand_wrapped(
                    self,
                    pos,
                    cardinal_seq(),
                    expand as int,
                )[i].0 && r@[i].1 == spec_grid_expand_wrapped(
                    self,
                    pos,
                    cardinal_seq(),
                    expand as int,
                )[i].1 && r@[i].2 == spec_grid_expand_wrapped(
                    self,
                    pos,
                    cardinal_seq(),
                    expand as int,
                )[i].2,
    {
        let ks = cardinals();
        self.relatives_expand_by_wrapped(pos, &ks, expand)
    }
}

/// Simple tile that holds a number value, read from a single decimal digit
/// character; any other character reads as zero.
#[derive(Debug, Clone, Copy, PartialEq, Eq, Structural)]
pub struct NumberTile {
    pub value: isize,
}

impl From<char> for NumberTile {
    fn from(c: char) -> Self {
        match crate::numfmt::char_digit(c) {
            Some(d) => NumberTile { value: d as isize },
            None => NumberTile { value: 0 },
        }
    }
}

impl vstd::std_specs::convert::FromSpecImpl<char> for NumberTile {
    open spec fn obeys_from_spec() -> bool {
        true
    }

    open spec fn from_spec(c: char) -> NumberTile {
        NumberTile { value: crate::numfmt::digit_value(c) as isize }
    }
}

/// A tile that represents some kind of movement to another position in the
/// grid.  Implementations decide the next direction; the default `next_pos`
/// then takes one step that way.
pub trait DirectedTile<D: Movement>: Copy {
    /// The next direction from the previous direction and position.
    fn next_dir(&self, previous_dir: D, pos: Position) -> Option<D>;

    /// The next direction and position from the previous direction and
    /// position.
    fn next_pos(&self, previous_dir: D, pos: Position) -> Option<(D, Position)>
        requires
            forall|d: D|
                fits(pos.x + (#[trigger] d.spec_kernel()).x) && fits(pos.y + d.spec_kernel().y),
    {
        match self.next_dir(previous_dir, pos) {
            Some(d) => Some((d, pos.move_dir(d))),
            None => None,
        }
    }
}

/// A tile that can be used in a flood fill.
pub trait FillableTile: Copy + Sized {
    /// The positions the fill continues to from this tile.
    fn get_next_tiles(&self, pos: Position, grid: &Grid<Self>) -> Vec<Position>;
}

/// A cursor for traversing a grid: a position and a facing direction over a
/// borrowed grid.
pub struct GridCursor<'a, T, D: Movement> {
    pub grid: &'a Grid<T>,
    pub pos: Position,
    pub dir: D,
}

impl<'a, T, D: Movement> GridCursor<'a, T, D> {
    /// The rows of the grid this cursor walks.
    pub open spec fn grid_view(&self) -> Seq<Seq<T>> {
        self.grid@
    }

    /// A cursor at the given position and direction.
    pub fn new(grid: &'a Grid<T>, pos: Position, dir: D) -> (r: Self)
        ensures
            r.grid_view() == grid@,
            r.pos == pos,
            r.dir == dir,
    {
        GridCursor { grid, pos, dir }
    }

    /// Move the cursor forward one step in the direction it is facing.
    pub fn move_forward(&mut self)
        requires
            fits(old(self).pos.x + old(self).dir.spec_kernel().x),
            fits(old(self).pos.y + old(self).dir.spec_kernel().y),
        ensures
            final(self).pos == spec_move(old(self).pos, old(self).dir.spec_kernel()),
            final(self).dir == old(self).dir,
            final(self).grid_view() == old(self).grid_view(),
    {
        self.pos = self.pos.move_dir(self.dir);
    }

    /// The value at the cursor's position, or nothing outside the grid.
    pub fn get(&self) -> (r: Option<&T>)
        ensures
            rows_in(self.grid_view(), self.pos) ==> (r matches Some(v) && *v == rows_at(
                self.grid_view(),
                self.pos,
            )),
            !rows_in(self.grid_view(), self.pos) ==> r is None,
    {
        self.grid.get(self.pos)
    }

    /// Step forward, then read the value at the new position.
    pub fn advance_get(&mut self) -> (r: Option<&T>)
        requires
            fits(old(self).pos.x + old(self).dir.spec_kernel().x),
            fits(old(self).pos.y + old(self).dir.spec_kernel().y),
        ensures
            final(self).pos == spec_move(old(self).pos, old(self).dir.spec_kernel()),
            final(self).dir == old(self).dir,
            final(self).grid_view() == old(self).grid_view(),
            rows_in(final(self).grid_view(), final(self).pos) ==> (r matches Some(v) && *v
                == rows_at(final(self).grid_view(), final(self).pos)),
            !rows_in(final(self).grid_view(), final(self).pos) ==> r is None,
    {
        self.move_forward();
        self.get()
    }
}

impl<'a, T> GridCursor<'a, T, Direction> {
    /// A cursor at the origin, facing east.
    pub fn zero(grid: &'a Grid<T>) -> (r: Self)
        ensures
            r.grid_view() == grid@,
            r.pos == (Position { x: 0isize, y: 0isize }),
            r.dir == Direction::East,
    {
        GridCursor { grid, pos: Position { x: 0, y: 0 }, dir: Direction::East }
    }

    /// Turn the cursor a quarter turn, clockwise or counter-clockwise.
    pub fn turn(&mut self, clockwise: bool)
        ensures
            final(self).dir == crate::dir::spec_ninety_deg(old(self).dir, clockwise),
            final(self).pos == old(self).pos,
            final(self).grid_view() == old(self).grid_view(),
    {
        self.dir = self.dir.ninety_deg(clockwise);
    }

    /// Turn the cursor around.
    pub fn turn_around(&mut self)
        ensures
            final(self).dir == crate::dir::spec_opposite(old(self).dir),
            final(self).pos == old(self).pos,
            final(self).grid_view() == old(self).grid_view(),
    {
        self.dir = self.dir.opposite();
    }
}

/// A cursor that follows the direction of the tile it stands on.
pub struct DirectedCursor<'a, T: DirectedTile<D>, D: Movement>(pub GridCursor<'a, T, D>);

impl<'a, T: DirectedTile<D>, D: Movement> DirectedCursor<'a, T, D> {
    /// A cursor at the given position and direction.  The starting position
    /// itself is never yielded.
    pub fn new(grid: &'a Grid<T>, pos: Position, dir: D) -> (r: Self)
        ensures
            r.0.grid_view() == grid@,
            r.0.pos == pos,
            r.0.dir == dir,
    {
        DirectedCursor(GridCursor::new(grid, pos, dir))
    }

    /// Follow the tile under the cursor: take its direction, step there,
    /// and yield the new position, the direction taken and the tile left
    /// behind; stop off-grid or on a tile that gives no direction.
    pub fn next(&mut self) -> (r: Option<(Position, D, T)>)
        requires
            forall|d: D|
                fits(old(self).0.pos.x + (#[trigger] d.spec_kernel()).x) && fits(
                    old(self).0.pos.y + d.spec_kernel().y,
                ),
        ensures
            final(self).0.grid_view() == old(self).0.grid_view(),
    {
        let current = self.0.get();
        match current {
            None => None,
            Some(tile) => {
                let tile = *tile;
                match tile.next_pos(self.0.dir, self.0.pos) {
                    None => None,
                    Some((dir, pos)) => {
                        self.0.dir = dir;
                        self.0.pos = pos;
                        Some((pos, dir, tile))
                    },
                }
            },
        }
    }
}

/// A cursor that flood fills a grid from a starting position, asking each
/// tile which positions the fill continues to.
pub struct FloodFillCursor<'a, T: FillableTile> {
    grid: &'a Grid<T>,
    visited: Vec<Position>,
    queue: std::collections::VecDeque<Position>,
    wrapped: bool,
}

/// Whether no element of `s` occurs twice.
pub open spec fn seq_distinct<A>(s: Seq<A>) -> bool {
    forall|i: int, j: int| 0 <= i < j < s.len() ==> s[i] != s[j]
}

/// Whether `v` holds `p`.
fn positions_contain(v: &Vec<Position>, p: Position) -> (r: bool)
    ensures
        r == v@.contains(p),
{
    let mut i: usize = 0;
    while i < v.len()
        invariant
            0 <= i <= v@.len(),
            forall|j: int| 0 <= j < i ==> v@[j] != p,
        decreases v@.len() - i,
    {
        if v[i].x == p.x && v[i].y == p.y {
            return true;
        }
        i = i + 1;
    }
    false
}

impl<'a, T: FillableTile> FloodFillCursor<'a, T> {
    /// Well-formedness: a wrapping cursor needs a grid it can wrap around;
    /// no position is ever recorded as visited twice, and everything still
    /// queued has been recorded — so no position can come out of the fill
    /// more than once.
    pub closed spec fn wf(&self) -> bool {
        &&& (self.wrapped ==> grid_wf(self.grid) && 1 <= g_width(self.grid) <= isize::MAX && 1
            <= g_height(self.grid) <= isize::MAX)
        &&& seq_distinct(self.visited@)
        &&& seq_distinct(self.queue@)
        &&& forall|i: int|
            0 <= i < self.queue@.len() ==> self.visited@.contains(#[trigger] self.queue@[i])
    }

    /// The positions waiting to be filled, in the order they will come out.
    pub closed spec fn pending(&self) -> Seq<Position> {
        self.queue@
    }

    /// Every position the fill has recorded, yielded or queued, in the order
    /// it was discovered.
    pub closed spec fn seen(&self) -> Seq<Position> {
        self.visited@
    }

    /// A fill starting, and already counted as visited, at `pos`.
    pub fn new(grid: &'a Grid<T>, pos: Position, wrapped: bool) -> (r: Self)
        requires
            wrapped ==> grid_wf(grid) && 1 <= g_width(grid) <= isize::MAX && 1 <= g_height(grid)
                <= isize::MAX,
        ensures
            r.wf(),
            r.pending() =~= seq![pos],
            r.seen() =~= seq![pos],
    {
        let mut visited: Vec<Position> = Vec::new();
        visited.push(pos);
        let mut queue = std::collections::VecDeque::new();
        queue.push_back(pos);
        FloodFillCursor { grid, visited, queue, wrapped }
    }

    /// The next filled position, breadth first, or nothing once the fill
    /// has run out: the head of the queue comes out, the positions already
    /// queued stay in order, and whatever the head's tile newly discovers —
    /// positions never seen before, each recorded as seen — is queued behind
    /// them.
    pub fn next(&mut self) -> (r: Option<Position>)
        requires
            old(self).wf(),
        ensures
            final(self).wf(),
            old(self).pending().len() == 0 ==> r is None && final(self).pending() == old(
                self,
            ).pending() && final(self).seen() == old(self).seen(),
            r matches Some(p) ==> old(self).pending().len() > 0 && p == old(self).pending()[0]
                && old(self).seen().contains(p),
            r is Some ==> exists|discovered: Seq<Position>|
                {
                    &&& final(self).pending() =~= old(self).pending().drop_first() + discovered
                    &&& final(self).seen() =~= old(self).seen() + discovered
                    &&& forall|k: int|
                        0 <= k < discovered.len() ==> !old(self).seen().contains(
                            #[trigger] discovered[k],
                        )
                },
    {
        let pos = match self.queue.pop_front() {
            Some(pos) => pos,
            None => {
                return None;
            },
        };
        let ghost drained = self.queue@;
        let ghost seen0 = self.visited@;
        let ghost mut discovered: Seq<Position> = Seq::empty();
        proof {
            assert(drained =~= old(self).pending().drop_first());
            assert(self.queue@ =~= drained + discovered);
            assert(self.visited@ =~= seen0 + discovered);
            assert(forall|i: int|
                0 <= i < drained.len() ==> #[trigger] drained[i] == old(self).pending()[i + 1]);
        }
        let tile: T = if self.wrapped {
            *self.grid.get_wrapped(pos)
        } else {
            match self.grid.get(pos) {
                Some(t) => *t,
                None => {
                    return None;
                },
            }
        };
        let nexts = tile.get_next_tiles(pos, self.grid);
        let mut i: usize = 0;
        while i < nexts.len()
            invariant
                self.wf(),
                self.queue@ =~= drained + discovered,
                self.visited@ =~= seen0 + discovered,
                forall|k: int|
                    0 <= k < discovered.len() ==> !seen0.contains(#[trigger] discovered[k]),
            decreases nexts@.len() - i,
        {
            let candidate = nexts[i];
            if !positions_contain(&self.visited, candidate) {
                let ghost queue0 = self.queue@;
                let ghost visited0 = self.visited@;
                self.visited.push(candidate);
                self.queue.push_back(candidate);
                proof {
                    assert(self.queue@ =~= queue0.push(candidate));
                    assert(self.queue@ =~= drained + discovered.push(candidate));
                    assert(self.visited@ =~= seen0 + discovered.push(candidate));
                    assert(!seen0.contains(candidate)) by {
                        if seen0.contains(candidate) {
                            let w = choose|w: int|
                                0 <= w < seen0.len() && seen0[w] == candidate;
                            assert(visited0[w] == candidate);
                            assert(visited0.contains(candidate));
                        }
                    }
                    assert(seq_distinct(self.visited@)) by {
                        assert(forall|a: int|
                            0 <= a < visited0.len() ==> #[trigger] self.visited@[a]
                                == visited0[a]);
                    }
                    assert(seq_distinct(self.queue@)) by {
                        assert(forall|a: int|
                            0 <= a < queue0.len() ==> #[trigger] self.queue@[a] == queue0[a]);
                        assert(forall|a: int|
                            0 <= a < queue0.len() ==> visited0.contains(#[trigger] queue0[a]));
                        assert(forall|a: int|
                            0 <= a < queue0.len() ==> #[trigger] self.queue@[a] != candidate);
                    }
                    assert forall|y: Position| visited0.contains(y) implies #[trigger] self
                        .visited@.contains(y) by {
                        let w = choose|w: int| 0 <= w < visited0.len() && visited0[w] == y;
                        assert(self.visited@[w] == y);
                    }
                    assert(self.visited@[visited0.len() as int] == candidate);
                    assert(self.visited@.contains(candidate));
                    assert(forall|a: int|
                        0 <= a < self.queue@.len() ==> self.visited@.contains(
                            #[trigger] self.queue@[a],
                        ));
                    discovered = discovered.push(candidate);
                }
            }
            i = i + 1;
        }
        proof {
            assert(seen0 == old(self).seen());
            assert(self.queue@ =~= old(self).pending().drop_first() + discovered);
            assert(self.visited@ =~= old(self).seen() + discovered);
            assert(forall|k: int|
                0 <= k < discovered.len() ==> !old(self).seen().contains(
                    #[trigger] discovered[k],
                ));
        }
        Some(pos)
    }
}

/// A cell mask over a `width` by `height` map.
pub(crate) struct CellMask {
    pub(crate) bits: Vec<bool>,
    pub(crate) width: usize,
    pub(crate) set_count: usize,
}

impl CellMask {
    /// An empty mask.
    pub(crate) fn new(width: usize, height: usize) -> (r: CellMask)
        requires
            width <= 0x3fff,
            height <= 0x3fff,
    {
        let mut bits: Vec<bool> = Vec::new();
        proof {
            assert(width * height <= 0x3fff * 0x3fff) by (nonlinear_arith)
                requires
                    width <= 0x3fff,
                    height <= 0x3fff,
            ;
        }
        let total = width * height;
        let mut i: usize = 0;
        while i < total
            decreases total - i,
        {
            bits.push(false);
            i = i + 1;
        }
        CellMask { bits, width, set_count: 0 }
    }

    /// Whether a cell is marked.
    pub(crate) fn marked(&self, x: i128, y: i128) -> bool {
        if x < 0 || y < 0 {
            return false;
        }
        if self.width == 0 || self.width > 0x3fff {
            return false;
        }
        if x >= self.width as i128 || y > 0x3fff {
            return false;
        }
        proof {
            assert(0 <= y * self.width as i128 <= 0x3fff * 0x3fff) by (nonlinear_arith)
                requires
                    0 <= y <= 0x3fff,
                    0 < self.width <= 0x3fff,
            ;
        }
        let idx128 = y * self.width as i128 + x;
        if idx128 < 0 || idx128 >= self.bits.len() as i128 {
            return false;
        }
        self.bits[idx128 as usize]
    }

    /// Mark a cell; reports whether it was newly marked.
    pub(crate) fn mark(&mut self, x: i128, y: i128) -> bool {
        if x < 0 || y < 0 {
            return false;
        }
        if self.width == 0 || self.width > 0x3fff {
            return false;
        }
        if x >= self.width as i128 || y > 0x3fff {
            return false;
        }
        proof {
            assert(y * self.width as i128 <= 0x3fff * 0x3fff) by (nonlinear_arith)
                requires
                    0 <= y <= 0x3fff,
                    0 < self.width <= 0x3fff,
            ;
            assert(y * self.width as i128 >= 0) by (nonlinear_arith)
                requires
                    y >= 0,
                    self.width > 0,
            ;
        }
        let idx128 = y * self.width as i128 + x;
        if idx128 < 0 || idx128 >= self.bits.len() as i128 {
            return false;
        }
        let idx = idx128 as usize;
        if self.bits[idx] {
            false
        } else {
            self.bits.set(idx, true);
            if self.set_count < usize::MAX {
                self.set_count = self.set_count + 1;
            }
            true
        }
    }
}

} // verus!


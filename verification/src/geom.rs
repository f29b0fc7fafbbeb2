//! Polygon measures over integer vertices.

use vstd::prelude::*;

use crate::pos::Position;

verus! {

/// Twice the signed area contribution of one edge: the cross product of its
/// endpoints.
pub open spec fn spec_cross_term(a: Position, b: Position) -> int {
    a.x * b.y - a.y * b.x
}

/// The sum of the cross products of consecutive vertex pairs, over the
/// first `n` edges.
pub open spec fn spec_shoelace(verts: Seq<Position>, n: int) -> int
    decreases n,
{
    if n <= 0 {
        0
    } else {
        spec_shoelace(verts, n - 1) + spec_cross_term(verts[n - 1], verts[n])
    }
}

/// The length of one edge, measured by manhattan distance.
pub open spec fn spec_edge_len(a: Position, b: Position) -> int {
    (if a.x < b.x {
        b.x - a.x
    } else {
        a.x - b.x
    }) + (if a.y < b.y {
        b.y - a.y
    } else {
        a.y - b.y
    })
}

/// The summed manhattan length of the first `n` edges.
pub open spec fn spec_perimeter(verts: Seq<Position>, n: int) -> int
    decreases n,
{
    if n <= 0 {
        0
    } else {
        spec_perimeter(verts, n - 1) + spec_edge_len(verts[n - 1], verts[n])
    }
}

/// The area of a polygon given its vertices, by the shoelace formula: half
/// the sum of cross products of consecutive vertices.
pub fn area(verts: &Vec<Position>) -> (r: isize)
    requires
        forall|i: int|
            0 <= i < verts@.len() - 1 ==> crate::pos::fits(
                spec_cross_term(#[trigger] verts@[i], verts@[i + 1]),
            ),
        forall|i: int|
            0 <= i < verts@.len() - 1 ==> crate::pos::fits((#[trigger] verts@[i]).x * verts@[i
                + 1].y) && crate::pos::fits(verts@[i].y * verts@[i + 1].x),
        forall|n: int| 0 <= n < verts@.len() ==> crate::pos::fits(#[trigger] spec_shoelace(verts@, n)),
    ensures
        verts@.len() > 0 ==> ({
            let t = spec_shoelace(verts@, verts@.len() - 1);
            r == if t >= 0 {
                t / 2
            } else {
                -((-t) / 2)
            }
        }),
        verts@.len() == 0 ==> r == 0,
    {
    let mut total: isize = 0;
    if verts.len() == 0 {
        return 0;
    }
    let mut i: usize = 0;
    while i + 1 < verts.len()
        invariant
            0 <= i < verts@.len() <= usize::MAX,
            total == spec_shoelace(verts@, i as int),
            forall|j: int|
                0 <= j < verts@.len() - 1 ==> crate::pos::fits(
                    spec_cross_term(#[trigger] verts@[j], verts@[j + 1]),
                ),
            forall|j: int|
                0 <= j < verts@.len() - 1 ==> crate::pos::fits((#[trigger] verts@[j]).x * verts@[j
                    + 1].y) && crate::pos::fits(verts@[j].y * verts@[j + 1].x),
            forall|n: int|
                0 <= n < verts@.len() ==> crate::pos::fits(#[trigger] spec_shoelace(verts@, n)),
        decreases verts@.len() - i,
    {
        proof {
            assert(crate::pos::fits(spec_shoelace(verts@, i as int + 1)));
        }
        let c = verts[i].cross(&verts[i + 1]);
        total = total + c;
        i = i + 1;
    }
    total / 2
}

/// The perimeter of a polygon given its vertices: the summed manhattan
/// distance between consecutive vertices.
pub fn perimeter(verts: &Vec<Position>) -> (r: isize)
    requires
        forall|i: int|
            0 <= i < verts@.len() - 1 ==> crate::pos::fits((#[trigger] verts@[i]).x - verts@[i
                + 1].x) && crate::pos::fits(verts@[i].x - verts@[i + 1].x) && crate::pos::fits(
                verts@[i + 1].x - verts@[i].x,
            ) && crate::pos::fits(verts@[i].y - verts@[i + 1].y) && crate::pos::fits(
                verts@[i + 1].y - verts@[i].y,
            ) && crate::pos::fits(spec_edge_len(verts@[i], verts@[i + 1])),
        forall|n: int| 0 <= n < verts@.len() ==> crate::pos::fits(#[trigger] spec_perimeter(verts@, n)),
    ensures
        verts@.len() > 0 ==> r == spec_perimeter(verts@, verts@.len() - 1),
        verts@.len() == 0 ==> r == 0,
    {
    if verts.len() == 0 {
        return 0;
    }
    let mut total: isize = 0;
    let mut i: usize = 0;
    while i + 1 < verts.len()
        invariant
            0 <= i < verts@.len() <= usize::MAX,
            total == spec_perimeter(verts@, i as int),
            forall|j: int|
                0 <= j < verts@.len() - 1 ==> crate::pos::fits((#[trigger] verts@[j]).x - verts@[j
                    + 1].x) && crate::pos::fits(verts@[j].x - verts@[j + 1].x)
                    && crate::pos::fits(verts@[j + 1].x - verts@[j].x) && crate::pos::fits(
                    verts@[j].y - verts@[j + 1].y,
                ) && crate::pos::fits(verts@[j + 1].y - verts@[j].y) && crate::pos::fits(
                    spec_edge_len(verts@[j], verts@[j + 1]),
                ),
            forall|n: int|
                0 <= n < verts@.len() ==> crate::pos::fits(#[trigger] spec_perimeter(verts@, n)),
        decreases verts@.len() - i,
    {
        proof {
            assert(crate::pos::fits(spec_perimeter(verts@, i as int + 1)));
        }
        let d = verts[i].manhattan(&verts[i + 1]);
        total = total + d;
        i = i + 1;
    }
    total
}

} // verus!

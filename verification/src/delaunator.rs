//! Incremental Delaunay construction over the half-edge graph.
//!
//! The builder selects a seed triangle of smallest circumradius near the
//! centre of the input, closes it with the vertex at infinity, sorts the
//! remaining points radially around the seed circumcenter, and inserts them
//! one by one: find a hull edge visible from the new point, hang a triangle
//! on it, extend along the hull in both directions, and legalize edges by
//! in-circle flips.

use vstd::prelude::*;
use vstd::set_lib::lemma_int_range;
use vstd::set_lib::lemma_len_subset;
use vstd::set_lib::set_int_range;

use crate::delaunay::spec_ccw_ok;
use crate::delaunay::spec_delaunay_ok;
use crate::delaunay::spec_edge_legal;
use crate::delaunay::spec_face_ccw;
use crate::delaunay::spec_face_touches_infinity;
use crate::graph::Graph;
use crate::graph::GraphEdge;
use crate::graph::GraphFace;
use crate::graph::GraphVertex;
use crate::graph::Position;
use crate::graph::lemma_twin_in_range;
use crate::graph::spec_twin;
use crate::graph::twin;
use crate::point::CenterPoint;
use crate::point::Circumradius;
use crate::point::Point;
use crate::point::distance_squared;
use crate::point::lemma_area2_cross;
use crate::point::lemma_cross_rotate;
use crate::point::lemma_cross_swap;
use crate::point::lemma_degenerate_collinear;
use crate::point::lemma_mul_bound;
use crate::point::lemma_radius_bounds;
use crate::point::lemma_radius_finite;
use crate::point::lemma_radius_lt_trans;
use crate::point::lemma_three_on_line;
use crate::point::spec_area2;
use crate::point::spec_collinear;
use crate::point::spec_distance_squared;
use crate::point::spec_in_circle_det;
use crate::point::spec_is_ccw;
use crate::point::spec_radius_den;
use crate::point::spec_radius_num;

verus! {

/// Smallest x coordinate among the points (meaningful for non-empty input).
pub open spec fn spec_min_x(s: Seq<Point>) -> int
    decreases s.len(),
{
    if s.len() <= 1 {
        s[0].x as int
    } else {
        let m = spec_min_x(s.drop_last());
        if s.last().x < m {
            s.last().x as int
        } else {
            m
        }
    }
}

/// Largest x coordinate among the points.
pub open spec fn spec_max_x(s: Seq<Point>) -> int
    decreases s.len(),
{
    if s.len() <= 1 {
        s[0].x as int
    } else {
        let m = spec_max_x(s.drop_last());
        if s.last().x > m {
            s.last().x as int
        } else {
            m
        }
    }
}

/// Smallest y coordinate among the points.
pub open spec fn spec_min_y(s: Seq<Point>) -> int
    decreases s.len(),
{
    if s.len() <= 1 {
        s[0].y as int
    } else {
        let m = spec_min_y(s.drop_last());
        if s.last().y < m {
            s.last().y as int
        } else {
            m
        }
    }
}

/// Largest y coordinate among the points.
pub open spec fn spec_max_y(s: Seq<Point>) -> int
    decreases s.len(),
{
    if s.len() <= 1 {
        s[0].y as int
    } else {
        let m = spec_max_y(s.drop_last());
        if s.last().y > m {
            s.last().y as int
        } else {
            m
        }
    }
}

/// Strict radial order on `(point index, squared distance)` entries:
/// by distance first, ties broken by index, so the order is total and the
/// sorted sequence is unique.
pub open spec fn spec_radial_lt(a: (usize, i128), b: (usize, i128)) -> bool {
    a.1 < b.1 || (a.1 == b.1 && a.0 < b.0)
}

/// Sort the distance table by `spec_radial_lt`, in place, by insertion.
fn sort_radial(d: &mut Vec<(usize, i128)>)
    ensures
        final(d).len() == old(d).len(),
        forall|p: int, q: int|
            0 <= p < q < final(d).len() ==> !spec_radial_lt(
                #[trigger] final(d)@[q],
                #[trigger] final(d)@[p],
            ),
        forall|k: int| 0 <= k < final(d).len() ==> old(d)@.contains(#[trigger] final(d)@[k]),
        (forall|p: int, q: int|
            0 <= p < q < old(d).len() ==> (#[trigger] old(d)@[p]).0 != (#[trigger] old(d)@[q]).0)
            ==> forall|p: int, q: int|
            0 <= p < q < final(d).len() ==> (#[trigger] final(d)@[p]).0 != (
            #[trigger] final(d)@[q]).0,
{
    let n = d.len();
    let mut i: usize = 1;
    if n < 2 {
        proof {
            assert(forall|k: int| 0 <= k < d@.len() ==> old(d)@.contains(#[trigger] d@[k]));
        }
        return ;
    }
    while i < n
        invariant
            n == d.len(),
            1 <= i <= n,
            forall|p: int, q: int|
                0 <= p < q < i ==> !spec_radial_lt(#[trigger] d@[q], #[trigger] d@[p]),
            forall|k: int| 0 <= k < d@.len() ==> old(d)@.contains(#[trigger] d@[k]),
            (forall|p: int, q: int|
                0 <= p < q < old(d).len() ==> (#[trigger] old(d)@[p]).0 != (
                #[trigger] old(d)@[q]).0) ==> forall|p: int, q: int|
                0 <= p < q < d@.len() ==> (#[trigger] d@[p]).0 != (#[trigger] d@[q]).0,
        decreases n - i,
    {
        let mut j: usize = i;
        while j > 0 && radial_lt(d[j], d[j - 1])
            invariant
                n == d.len(),
                0 <= j <= i < n,
                forall|p: int, q: int|
                    0 <= p < q <= i && q != j ==> !spec_radial_lt(
                        #[trigger] d@[q],
                        #[trigger] d@[p],
                    ),
                forall|k: int| 0 <= k < d@.len() ==> old(d)@.contains(#[trigger] d@[k]),
                (forall|p: int, q: int|
                    0 <= p < q < old(d).len() ==> (#[trigger] old(d)@[p]).0 != (
                    #[trigger] old(d)@[q]).0) ==> forall|p: int, q: int|
                    0 <= p < q < d@.len() ==> (#[trigger] d@[p]).0 != (#[trigger] d@[q]).0,
            decreases j,
        {
            let a = d[j - 1];
            let b = d[j];
            d.set(j - 1, b);
            d.set(j, a);
            j = j - 1;
        }
        i = i + 1;
    }
}

/// Exact radial comparison.
#[inline]
fn radial_lt(a: (usize, i128), b: (usize, i128)) -> (r: bool)
    ensures
        r == spec_radial_lt(a, b),
{
    a.1 < b.1 || (a.1 == b.1 && a.0 < b.0)
}

/// Scaled squared distance of `p` from the rational centre `c`: the exact
/// value of `den ^ 2` times the squared Euclidean distance.
#[inline]
fn radial_key(c: &CenterPoint, p: &Point) -> (r: i128)
    requires
        c.in_bounds(),
        p.in_bounds(),
    ensures
        r >= 0,
{
    proof {
        lemma_mul_bound(p.x as int, c.den as int, 0x400, 0x2000000);
        lemma_mul_bound(p.y as int, c.den as int, 0x400, 0x2000000);
    }
    let tx = (p.x as i128) * c.den - c.nx;
    let ty = (p.y as i128) * c.den - c.ny;
    proof {
        lemma_mul_bound(tx as int, tx as int, 0x4000000000, 0x4000000000);
        lemma_mul_bound(ty as int, ty as int, 0x4000000000, 0x4000000000);
        assert(0 <= tx as int * tx as int) by (nonlinear_arith);
        assert(0 <= ty as int * ty as int) by (nonlinear_arith);
    }
    tx * tx + ty * ty
}

/// Squared distance of `p` from the doubled position `(sx, sy)`, exact in
/// `i64`.
#[inline]
fn center_key(p: &Point, sx: i64, sy: i64) -> (r: i64)
    requires
        p.in_bounds(),
        -2048 <= sx <= 2048,
        -2048 <= sy <= 2048,
    ensures
        r == Delaunator::spec_center_key(*p, sx as int, sy as int),
{
    let tx = 2 * p.x - sx;
    let ty = 2 * p.y - sy;
    proof {
        assert(tx * tx <= 4096 * 4096 && tx * tx >= 0) by (nonlinear_arith)
            requires
                -4096 <= tx <= 4096,
        ;
        assert(ty * ty <= 4096 * 4096 && ty * ty >= 0) by (nonlinear_arith)
            requires
                -4096 <= ty <= 4096,
        ;
    }
    tx * tx + ty * ty
}

/// Most input points the builder accepts; keeps every table index and every
/// fuel computation far from machine limits.
pub const MAX_POINTS: usize = 100000000;

/// The triangulation builder: the growing graph tables plus the immutable
/// input points.
pub struct Delaunator {
    pub graph: Graph<Point, ()>,
}

impl Delaunator {
    /// Basic invariant of the builder: a well-formed graph over bounded
    /// input points.
    pub open spec fn inv(self) -> bool {
        &&& self.graph.wf()
        &&& self.graph.spec_points().len() <= MAX_POINTS
        &&& forall|i: int|
            0 <= i < self.graph.spec_points().len() ==> (
            #[trigger] self.graph.spec_points()[i]).in_bounds()
    }

    /// A fresh builder over the given points, with empty tables.
    pub fn new(points: Vec<Point>) -> (r: Delaunator)
        requires
            points.len() <= MAX_POINTS,
            forall|i: int| 0 <= i < points.len() ==> (#[trigger] points@[i]).in_bounds(),
        ensures
            r.inv(),
            r.graph.spec_points() == points@,
            r.graph.spec_edges().len() == 0,
            r.graph.spec_faces().len() == 0,
            r.graph.spec_vertices().len() == 0,
    {
        Delaunator {
            graph: Graph { points, edges: Vec::new(), faces: Vec::new(), vertices: Vec::new() },
        }
    }

    /// Overwrite the `next` field of edge `e`.
    #[inline]
    fn set_next(&mut self, e: usize, val: usize)
        requires
            old(self).inv(),
            e < old(self).graph.spec_edges().len(),
            val < old(self).graph.spec_edges().len(),
        ensures
            final(self).inv(),
            final(self).graph.spec_points() == old(self).graph.spec_points(),
            final(self).graph.spec_faces() == old(self).graph.spec_faces(),
            final(self).graph.spec_vertices() == old(self).graph.spec_vertices(),
            final(self).graph.spec_edges() == old(self).graph.spec_edges().update(
                e as int,
                GraphEdge {
                    next: val,
                    ..old(self).graph.spec_edges()[e as int]
                },
            ),
    {
        let mut rec = self.graph.edges[e];
        rec.next = val;
        self.graph.edges.set(e, rec);
    }

    /// Overwrite the `face` field of edge `e`.
    #[inline]
    fn set_face(&mut self, e: usize, val: usize)
        requires
            old(self).inv(),
            e < old(self).graph.spec_edges().len(),
            val < old(self).graph.spec_faces().len(),
        ensures
            final(self).inv(),
            final(self).graph.spec_points() == old(self).graph.spec_points(),
            final(self).graph.spec_faces() == old(self).graph.spec_faces(),
            final(self).graph.spec_vertices() == old(self).graph.spec_vertices(),
            final(self).graph.spec_edges() == old(self).graph.spec_edges().update(
                e as int,
                GraphEdge {
                    face: val,
                    ..old(self).graph.spec_edges()[e as int]
                },
            ),
    {
        let mut rec = self.graph.edges[e];
        rec.face = val;
        self.graph.edges.set(e, rec);
    }

    /// Overwrite the `vertex` field of edge `e`.
    #[inline]
    fn set_vertex(&mut self, e: usize, val: usize)
        requires
            old(self).inv(),
            e < old(self).graph.spec_edges().len(),
            val < old(self).graph.spec_vertices().len(),
        ensures
            final(self).inv(),
            final(self).graph.spec_points() == old(self).graph.spec_points(),
            final(self).graph.spec_faces() == old(self).graph.spec_faces(),
            final(self).graph.spec_vertices() == old(self).graph.spec_vertices(),
            final(self).graph.spec_edges() == old(self).graph.spec_edges().update(
                e as int,
                GraphEdge {
                    vertex: val,
                    ..old(self).graph.spec_edges()[e as int]
                },
            ),
    {
        let mut rec = self.graph.edges[e];
        rec.vertex = val;
        self.graph.edges.set(e, rec);
    }

    /// Overwrite the recorded edge of face `f`.
    #[inline]
    fn set_face_edge(&mut self, f: usize, val: usize)
        requires
            old(self).inv(),
            f < old(self).graph.spec_faces().len(),
            val < old(self).graph.spec_edges().len(),
        ensures
            final(self).inv(),
            final(self).graph.spec_points() == old(self).graph.spec_points(),
            final(self).graph.spec_edges() == old(self).graph.spec_edges(),
            final(self).graph.spec_vertices() == old(self).graph.spec_vertices(),
            final(self).graph.spec_faces() == old(self).graph.spec_faces().update(
                f as int,
                GraphFace { edge: val },
            ),
    {
        self.graph.faces.set(f, GraphFace { edge: val });
    }

    /// Overwrite the outgoing edge of vertex `v`, keeping its position.
    #[inline]
    fn set_vertex_edge(&mut self, v: usize, val: usize)
        requires
            old(self).inv(),
            v < old(self).graph.spec_vertices().len(),
            val < old(self).graph.spec_edges().len(),
        ensures
            final(self).inv(),
            final(self).graph.spec_points() == old(self).graph.spec_points(),
            final(self).graph.spec_edges() == old(self).graph.spec_edges(),
            final(self).graph.spec_faces() == old(self).graph.spec_faces(),
            final(self).graph.spec_vertices() == old(self).graph.spec_vertices().update(
                v as int,
                GraphVertex {
                    edge: val,
                    ..old(self).graph.spec_vertices()[v as int]
                },
            ),
    {
        let mut rec = self.graph.vertices[v];
        rec.edge = val;
        self.graph.vertices.set(v, rec);
        proof {
            let nv = self.graph.spec_vertices();
            let ov = old(self).graph.spec_vertices();
            assert(forall|w: int| 0 <= w < nv.len() && w != v ==> nv[w] == ov[w]);
            assert(nv[v as int].position == ov[v as int].position);
            assert(nv[v as int].edge == val);
            assert forall|f: int| 0 <= f < self.graph.spec_faces().len() implies (
            #[trigger] self.graph.spec_faces()[f]).edge < self.graph.spec_edges().len() by {
                assert(self.graph.spec_faces()[f] == old(self).graph.spec_faces()[f]);
            }
        }
    }

    /// The point-table index behind vertex `v`, if its position is finite.
    #[inline]
    fn finite_index(&self, v: usize) -> (r: Option<usize>)
        requires
            self.inv(),
            v < self.graph.spec_vertices().len(),
        ensures
            match r {
                Some(i) => i < self.graph.spec_points().len()
                    && self.graph.spec_vertices()[v as int].position == Position::<()>::Finite(i),
                None => self.graph.spec_vertices()[v as int].position matches Position::Auxiliary(
                    _,
                ),
            },
    {
        match self.graph.vertices[v].position {
            Position::Finite(i) => Some(i),
            Position::Auxiliary(_) => None,
        }
    }

    /// The builder's point at index `i`.
    pub open spec fn pt(self, i: int) -> Point {
        self.graph.spec_points()[i]
    }

    /// Some triple of input points spans a proper triangle; exactly the
    /// inputs on which construction succeeds.
    pub open spec fn has_triangle(self) -> bool {
        exists|a: int, b: int, c: int|
            0 <= a < self.graph.spec_points().len() && 0 <= b < self.graph.spec_points().len()
                && 0 <= c < self.graph.spec_points().len() && !spec_collinear(
                #[trigger] self.pt(a),
                #[trigger] self.pt(b),
                #[trigger] self.pt(c),
            )
    }

    /// Find the doubled centre of the bounding box of the points: the pair
    /// `(min x + max x, min y + max y)`.
    fn calc_bounding_box_center(&self) -> (r: Option<(i64, i64)>)
        requires
            self.inv(),
        ensures
            r.is_some() <==> self.graph.spec_points().len() > 0,
            r matches Some((sx, sy)) ==> {
                &&& sx == spec_min_x(self.graph.spec_points()) + spec_max_x(
                    self.graph.spec_points(),
                )
                &&& sy == spec_min_y(self.graph.spec_points()) + spec_max_y(
                    self.graph.spec_points(),
                )
                &&& -2048 <= sx <= 2048
                &&& -2048 <= sy <= 2048
            },
    {
        let n = self.graph.points.len();
        if n == 0 {
            return None;
        }
        let ghost s = self.graph.spec_points();
        let first = self.graph.points[0];
        let mut minx = first.x;
        let mut maxx = first.x;
        let mut miny = first.y;
        let mut maxy = first.y;
        let mut i: usize = 1;
        while i < n
            invariant
                self.inv(),
                s == self.graph.spec_points(),
                n == s.len(),
                1 <= i <= n,
                minx == spec_min_x(s.take(i as int)),
                maxx == spec_max_x(s.take(i as int)),
                miny == spec_min_y(s.take(i as int)),
                maxy == spec_max_y(s.take(i as int)),
                -1024 <= minx <= 1024,
                -1024 <= maxx <= 1024,
                -1024 <= miny <= 1024,
                -1024 <= maxy <= 1024,
            decreases n - i,
        {
            proof {
                assert(s.take(i as int + 1).drop_last() =~= s.take(i as int));
                assert(s.take(i as int + 1).last() == s[i as int]);
            }
            let p = self.graph.points[i];
            if p.x < minx {
                minx = p.x;
            }
            if p.x > maxx {
                maxx = p.x;
            }
            if p.y < miny {
                miny = p.y;
            }
            if p.y > maxy {
                maxy = p.y;
            }
            i = i + 1;
        }
        proof {
            assert(s.take(n as int) =~= s);
        }
        Some((minx + maxx, miny + maxy))
    }

    /// Squared distance of `p` from the half-integer position `(sx/2, sy/2)`,
    /// scaled by 4 to stay in integers.
    pub open spec fn spec_center_key(p: Point, sx: int, sy: int) -> int {
        (2 * p.x - sx) * (2 * p.x - sx) + (2 * p.y - sy) * (2 * p.y - sy)
    }

    /// Find the input point closest to the doubled position `(sx, sy)`; on a
    /// tie the largest index wins.
    fn find_closest_to_position(&self, sx: i64, sy: i64) -> (r: Option<usize>)
        requires
            self.inv(),
            -2048 <= sx <= 2048,
            -2048 <= sy <= 2048,
        ensures
            r.is_some() <==> self.graph.spec_points().len() > 0,
            r matches Some(best) ==> {
                &&& best < self.graph.spec_points().len()
                &&& forall|j: int|
                    0 <= j < self.graph.spec_points().len() ==> Self::spec_center_key(
                        self.pt(best as int),
                        sx as int,
                        sy as int,
                    ) <= Self::spec_center_key(#[trigger] self.pt(j), sx as int, sy as int)
                &&& forall|j: int|
                    best < j < self.graph.spec_points().len() ==> Self::spec_center_key(
                        self.pt(best as int),
                        sx as int,
                        sy as int,
                    ) < Self::spec_center_key(#[trigger] self.pt(j), sx as int, sy as int)
            },
    {
        let n = self.graph.points.len();
        if n == 0 {
            return None;
        }
        let mut best: usize = 0;
        let mut best_key = center_key(&self.graph.points[0], sx, sy);
        let mut j: usize = 1;
        while j < n
            invariant
                self.inv(),
                n == self.graph.spec_points().len(),
                1 <= j <= n,
                best < j,
                -2048 <= sx <= 2048,
                -2048 <= sy <= 2048,
                best_key == Self::spec_center_key(self.pt(best as int), sx as int, sy as int),
                forall|k: int|
                    0 <= k < j ==> best_key <= Self::spec_center_key(
                        #[trigger] self.pt(k),
                        sx as int,
                        sy as int,
                    ),
                forall|k: int|
                    best < k < j ==> best_key < Self::spec_center_key(
                        #[trigger] self.pt(k),
                        sx as int,
                        sy as int,
                    ),
            decreases n - j,
        {
            let key = center_key(&self.graph.points[j], sx, sy);
            if !(best_key < key) {
                best = j;
                best_key = key;
            }
            j = j + 1;
        }
        Some(best)
    }

    /// Find the input point closest to point `index` among points with a
    /// different position; on a tie the largest index wins.
    fn find_closest_to_vertex(&self, index: usize) -> (r: Option<(usize, usize)>)
        requires
            self.inv(),
            index < self.graph.spec_points().len(),
        ensures
            r.is_some() <==> exists|j: int|
                0 <= j < self.graph.spec_points().len() && #[trigger] self.pt(j) != self.pt(
                    index as int,
                ),
            r matches Some((a, b)) ==> {
                &&& a == index
                &&& b < self.graph.spec_points().len()
                &&& self.pt(b as int) != self.pt(index as int)
                &&& forall|j: int|
                    0 <= j < self.graph.spec_points().len() && #[trigger] self.pt(j) != self.pt(
                        index as int,
                    ) ==> spec_distance_squared(self.pt(index as int), self.pt(b as int))
                        <= spec_distance_squared(self.pt(index as int), self.pt(j))
                &&& forall|j: int|
                    b < j < self.graph.spec_points().len() && #[trigger] self.pt(j) != self.pt(
                        index as int,
                    ) ==> spec_distance_squared(self.pt(index as int), self.pt(b as int))
                        < spec_distance_squared(self.pt(index as int), self.pt(j))
            },
    {
        let n = self.graph.points.len();
        let origin = self.graph.points[index];
        let mut best: Option<(usize, i64)> = None;
        let mut j: usize = 0;
        while j < n
            invariant
                self.inv(),
                n == self.graph.spec_points().len(),
                index < n,
                origin == self.pt(index as int),
                j <= n,
                match best {
                    None => forall|k: int| 0 <= k < j ==> #[trigger] self.pt(k) == self.pt(
                        index as int,
                    ),
                    Some((b, d)) => {
                        &&& b < j
                        &&& self.pt(b as int) != self.pt(index as int)
                        &&& d == spec_distance_squared(self.pt(index as int), self.pt(b as int))
                        &&& forall|k: int|
                            0 <= k < j && #[trigger] self.pt(k) != self.pt(index as int)
                                ==> d <= spec_distance_squared(self.pt(index as int), self.pt(k))
                        &&& forall|k: int|
                            b < k < j && #[trigger] self.pt(k) != self.pt(index as int)
                                ==> d < spec_distance_squared(self.pt(index as int), self.pt(k))
                    },
                },
            decreases n - j,
        {
            let p = self.graph.points[j];
            if !(p.x == origin.x && p.y == origin.y) {
                let d = distance_squared(&origin, &p);
                match best {
                    None => {
                        best = Some((j, d));
                    },
                    Some((_, bd)) => {
                        if !(bd < d) {
                            best = Some((j, d));
                        }
                    },
                }
            }
            j = j + 1;
        }
        match best {
            None => None,
            Some((b, _)) => Some((index, b)),
        }
    }

    /// Candidate predicate for the third seed corner: the point must span a
    /// proper triangle with the first two.
    pub open spec fn seed_candidate(self, v0: int, v1: int, j: int) -> bool {
        !spec_collinear(self.pt(v0), self.pt(v1), self.pt(j))
    }

    /// The squared circumradius of the triangle over points `v0, v1, j`.
    pub open spec fn spec_radius(self, v0: int, v1: int, j: int) -> Circumradius {
        Circumradius {
            num: spec_radius_num(self.pt(v0), self.pt(v1), self.pt(j)) as i128,
            den: spec_radius_den(self.pt(v0), self.pt(v1), self.pt(j)) as i128,
        }
    }

    /// Find the third corner completing the seed: the candidate giving the
    /// smallest circumcircle through points `v0` and `v1`; on a tie the
    /// largest index wins.  Collinear points cannot close a triangle and are
    /// no candidates.
    fn find_delaunay_triangle(&self, v0: usize, v1: usize) -> (r: Option<(usize, usize, usize)>)
        requires
            self.inv(),
            v0 < self.graph.spec_points().len(),
            v1 < self.graph.spec_points().len(),
        ensures
            r.is_some() <==> exists|j: int|
                0 <= j < self.graph.spec_points().len() && self.seed_candidate(
                    v0 as int,
                    v1 as int,
                    j,
                ),
            r matches Some((a, b, c)) ==> {
                &&& a == v0
                &&& b == v1
                &&& c < self.graph.spec_points().len()
                &&& self.seed_candidate(v0 as int, v1 as int, c as int)
                &&& forall|j: int|
                    0 <= j < self.graph.spec_points().len() && self.seed_candidate(
                        v0 as int,
                        v1 as int,
                        j,
                    ) ==> !(#[trigger] self.spec_radius(v0 as int, v1 as int, j)).spec_lt(
                        self.spec_radius(v0 as int, v1 as int, c as int),
                    )
                &&& forall|j: int|
                    c < j < self.graph.spec_points().len() && self.seed_candidate(
                        v0 as int,
                        v1 as int,
                        j,
                    ) ==> self.spec_radius(v0 as int, v1 as int, c as int).spec_lt(
                        #[trigger] self.spec_radius(v0 as int, v1 as int, j),
                    )
            },
    {
        let n = self.graph.points.len();
        let p0 = self.graph.points[v0];
        let p1 = self.graph.points[v1];
        let mut best: Option<(usize, Circumradius)> = None;
        let mut j: usize = 0;
        while j < n
            invariant
                self.inv(),
                n == self.graph.spec_points().len(),
                v0 < n,
                v1 < n,
                p0 == self.pt(v0 as int),
                p1 == self.pt(v1 as int),
                j <= n,
                match best {
                    None => forall|k: int|
                        0 <= k < j ==> !self.seed_candidate(v0 as int, v1 as int, k),
                    Some((b, rad)) => {
                        &&& b < j
                        &&& self.seed_candidate(v0 as int, v1 as int, b as int)
                        &&& rad == self.spec_radius(v0 as int, v1 as int, b as int)
                        &&& rad.in_bounds()
                        &&& rad.den > 0
                        &&& forall|k: int|
                            0 <= k < j && self.seed_candidate(v0 as int, v1 as int, k) ==> !(
                            #[trigger] self.spec_radius(v0 as int, v1 as int, k)).spec_lt(rad)
                        &&& forall|k: int|
                            b < k < j && self.seed_candidate(v0 as int, v1 as int, k)
                                ==> rad.spec_lt(
                                #[trigger] self.spec_radius(v0 as int, v1 as int, k),
                            )
                    },
                },
            decreases n - j,
        {
            let pj = self.graph.points[j];
            proof {
                lemma_cross_swap(p0, p1, pj);
            }
            if !Point::is_ccw(&p0, &p1, &pj) && !Point::is_ccw(&p0, &pj, &p1) {
                // The cross product vanishes in either order: collinear.
                assert(!self.seed_candidate(v0 as int, v1 as int, j as int));
            } else {
                assert(self.seed_candidate(v0 as int, v1 as int, j as int));
                let rad = Point::circumradius(&p0, &p1, &pj);
                proof {
                    lemma_radius_finite(p0, p1, pj);
                    lemma_radius_bounds(p0, p1, pj);
                    lemma_area2_cross(p0, p1, pj);
                    let s = spec_area2(p0, p1, pj);
                    assert(4 * s * s >= 0) by (nonlinear_arith);
                }
                match best {
                    None => {
                        best = Some((j, rad));
                    },
                    Some((b, brad)) => {
                        if brad.lt(&rad) {
                            // Keep the current best; the newcomer is strictly
                            // larger, so every minimality fact is unchanged.
                        } else {
                            proof {
                                assert forall|k: int|
                                    0 <= k < j && self.seed_candidate(v0 as int, v1 as int, k)
                                        implies !(#[trigger] self.spec_radius(
                                        v0 as int,
                                        v1 as int,
                                        k,
                                    )).spec_lt(self.spec_radius(v0 as int, v1 as int, j as int)) by {
                                    let rk = self.spec_radius(v0 as int, v1 as int, k);
                                    let rj = self.spec_radius(v0 as int, v1 as int, j as int);
                                    let rb = self.spec_radius(v0 as int, v1 as int, b as int);
                                    if rk.spec_lt(rj) {
                                        lemma_radius_finite(self.pt(v0 as int), self.pt(v1 as int), self.pt(k));
                                        lemma_radius_bounds(self.pt(v0 as int), self.pt(v1 as int), self.pt(k));
                                        let sk = spec_area2(self.pt(v0 as int), self.pt(v1 as int), self.pt(k));
                                        assert(4 * sk * sk >= 0) by (nonlinear_arith);
                                        lemma_area2_cross(self.pt(v0 as int), self.pt(v1 as int), self.pt(k));
                                        lemma_radius_lt_trans(rk, rj, rb);
                                    }
                                }
                            }
                            best = Some((j, rad));
                        }
                    },
                }
            }
            j = j + 1;
        }
        match best {
            None => None,
            Some((b, _)) => Some((v0, v1, b)),
        }
    }

    /// Choose the seed triangle: the point nearest the bounding-box centre,
    /// its nearest distinct neighbour, and the third point of smallest
    /// circumradius, ordered counter-clockwise.  `None` exactly when no
    /// three points span a triangle.
    fn find_seed_triangle(&self) -> (r: Option<(usize, usize, usize)>)
        requires
            self.inv(),
        ensures
            r.is_some() <==> self.has_triangle(),
            r matches Some((a, b, c)) ==> {
                &&& a < self.graph.spec_points().len()
                &&& b < self.graph.spec_points().len()
                &&& c < self.graph.spec_points().len()
                &&& spec_is_ccw(self.pt(a as int), self.pt(b as int), self.pt(c as int))
            },
    {
        let center = match self.calc_bounding_box_center() {
            None => {
                proof {
                    assert(!self.has_triangle());
                }
                return None;
            },
            Some(c) => c,
        };
        let i0 = match self.find_closest_to_position(center.0, center.1) {
            None => {
                proof {
                    assert(!self.has_triangle());
                }
                return None;
            },
            Some(i) => i,
        };
        let (v0, v1) = match self.find_closest_to_vertex(i0) {
            None => {
                // Every point coincides with point `i0`: each triple repeats
                // a point and is collinear.
                proof {
                    assert forall|a: int, b: int, c: int|
                        0 <= a < self.graph.spec_points().len() && 0 <= b
                            < self.graph.spec_points().len() && 0 <= c
                            < self.graph.spec_points().len() implies spec_collinear(
                        #[trigger] self.pt(a),
                        #[trigger] self.pt(b),
                        #[trigger] self.pt(c),
                    ) by {
                        lemma_degenerate_collinear(self.pt(a), self.pt(b), self.pt(c));
                    }
                }
                return None;
            },
            Some(pair) => pair,
        };
        match self.find_delaunay_triangle(v0, v1) {
            None => {
                // Every point lies on the line through the two chosen seed
                // points, so every triple is collinear.
                proof {
                    assert forall|a: int, b: int, c: int|
                        0 <= a < self.graph.spec_points().len() && 0 <= b
                            < self.graph.spec_points().len() && 0 <= c
                            < self.graph.spec_points().len() implies spec_collinear(
                        #[trigger] self.pt(a),
                        #[trigger] self.pt(b),
                        #[trigger] self.pt(c),
                    ) by {
                        assert(!self.seed_candidate(v0 as int, v1 as int, a));
                        assert(!self.seed_candidate(v0 as int, v1 as int, b));
                        assert(!self.seed_candidate(v0 as int, v1 as int, c));
                        assert(self.pt(v0 as int) != self.pt(v1 as int));
                        lemma_three_on_line(
                            self.pt(v0 as int),
                            self.pt(v1 as int),
                            self.pt(a),
                            self.pt(b),
                            self.pt(c),
                        );
                    }
                }
                return None;
            },
            Some((a, b, c)) => {
                let pa = self.graph.points[a];
                let pb = self.graph.points[b];
                let pc = self.graph.points[c];
                if Point::is_ccw(&pa, &pb, &pc) {
                    Some((a, b, c))
                } else {
                    proof {
                        lemma_cross_swap(pa, pb, pc);
                    }
                    Some((a, c, b))
                }
            },
        }
    }

    /// Walk the hull, starting at the cached hull edge of the vertex at
    /// infinity, until an edge is visible from point `position` (the walk
    /// sees its tail-to-head segment from outside).  Returns the visible
    /// edge and whether it was found at the starting position; `None` when
    /// the point sees no hull edge.
    /// The head vertex of edge `e`: the tail of its twin.
    pub open spec fn head_of(self, e: int) -> int {
        self.graph.spec_edges()[spec_twin(e)].vertex as int
    }

    /// Edge `e` is visible from point `p`: both its head and the head of
    /// the following hull edge are finite, and the triple does not turn
    /// counter-clockwise.
    pub open spec fn edge_visible_from(self, e: int, p: Point) -> bool {
        let hv = self.head_of(e);
        let nx = self.graph.spec_edges()[spec_twin(e)].next as int;
        let nv = self.head_of(nx);
        &&& self.graph.spec_vertices()[hv].position matches Position::Finite(i)
            && (self.graph.spec_vertices()[nv].position matches Position::Finite(j)
            && !spec_is_ccw(p, self.pt(i as int), self.pt(j as int)))
    }

    /// The k-th stop of the hull walk: the cached hull edge of the vertex
    /// at infinity, then repeatedly the successor around the twin's face.
    pub open spec fn spec_hull_walk(self, k: nat) -> int
        decreases k,
    {
        if k == 0 {
            self.graph.spec_vertices()[0].edge as int
        } else {
            self.graph.spec_edges()[spec_twin(self.spec_hull_walk((k - 1) as nat))].next as int
        }
    }

    fn find_visible_edge(&self, position: usize) -> (r: Option<(usize, bool)>)
        requires
            self.inv(),
            position < self.graph.spec_points().len(),
            self.graph.spec_vertices().len() >= 1,
        ensures
            r matches Some((e, wb)) ==> {
                &&& e < self.graph.spec_edges().len()
                &&& self.edge_visible_from(e as int, self.pt(position as int))
                &&& wb == (e == self.graph.spec_vertices()[0].edge)
                &&& exists|k: nat|
                    k <= self.graph.spec_edges().len() + 1 && e == #[trigger] self.spec_hull_walk(
                        k,
                    )
            },
    {
        let new_point = self.graph.points[position];
        let initial = self.graph.vertices[0].edge;
        let mut current = initial;
        let hv = self.graph.edges[twin(current)].vertex;
        proof {
            lemma_twin_in_range(current as int, self.graph.spec_edges().len() as int);
        }
        let mut current_point = match self.finite_index(hv) {
            None => {
                return None;
            },
            Some(i) => self.graph.points[i],
        };
        let mut fuel = self.graph.edges.len() + 1;
        let ghost mut steps: nat = 0;
        proof {
            assert(self.spec_hull_walk(0) == initial);
        }
        loop
            invariant
                self.inv(),
                position < self.graph.spec_points().len(),
                current < self.graph.spec_edges().len(),
                initial < self.graph.spec_edges().len(),
                initial == self.graph.spec_vertices()[0].edge,
                new_point == self.pt(position as int),
                current_point.in_bounds(),
                current == self.spec_hull_walk(steps),
                steps + fuel == self.graph.spec_edges().len() + 1,
                ({
                    let hv = self.head_of(current as int);
                    self.graph.spec_vertices()[hv].position matches Position::Finite(pi)
                        && current_point == self.pt(pi as int)
                }),
            decreases fuel,
        {
            if fuel == 0 {
                return None;
            }
            fuel = fuel - 1;
            proof {
                lemma_twin_in_range(current as int, self.graph.spec_edges().len() as int);
            }
            let next = self.graph.edges[twin(current)].next;
            proof {
                lemma_twin_in_range(next as int, self.graph.spec_edges().len() as int);
            }
            let nv = self.graph.edges[twin(next)].vertex;
            let next_point = match self.finite_index(nv) {
                None => {
                    return None;
                },
                Some(i) => self.graph.points[i],
            };
            if !Point::is_ccw(&new_point, &current_point, &next_point) {
                return Some((current, current == initial));
            }
            current = next;
            current_point = next_point;
            proof {
                steps = steps + 1;
                assert(self.spec_hull_walk(steps) == self.graph.spec_edges()[spec_twin(
                    self.spec_hull_walk((steps - 1) as nat),
                )].next);
            }
            if current == initial {
                return None;
            }
        }
    }

    /// The exact tables `add_triangle` produces: the two face records and
    /// six half-edge records it appends, the rewires of the three affected
    /// old edges, and the re-seated hull pointers, in execution order.
    pub open spec fn spec_add_triangle(
        g: Graph<Point, ()>,
        vertex: usize,
        current_edge: usize,
        next_edge: usize,
    ) -> (Seq<GraphEdge>, Seq<GraphFace>, Seq<GraphVertex<()>>) {
        let tc = spec_twin(current_edge as int);
        let cv = g.spec_edges()[tc].vertex;
        let nv = g.spec_edges()[spec_twin(next_edge as int)].vertex;
        let fc = g.spec_edges()[next_edge as int].face;
        let op = g.spec_edges()[next_edge as int].next;
        let fi = g.spec_faces().len() as usize;
        let ei = g.spec_edges().len() as usize;
        let faces = g.spec_faces().push(GraphFace { edge: (ei + 1) as usize }).push(
            GraphFace { edge: (ei + 5) as usize },
        );
        let e0 = g.spec_edges().push(
            GraphEdge { vertex: cv, next: (ei + 4) as usize, face: fc },
        ).push(GraphEdge { vertex, next: tc as usize, face: fi }).push(
            GraphEdge { vertex, next: next_edge, face: (fi + 1) as usize },
        ).push(GraphEdge { vertex: 0, next: (ei + 1) as usize, face: fi }).push(
            GraphEdge { vertex, next: op, face: fc },
        ).push(GraphEdge { vertex: nv, next: (ei + 2) as usize, face: (fi + 1) as usize });
        let e1 = e0.update(
            next_edge as int,
            GraphEdge { next: (ei + 5) as usize, ..e0[next_edge as int] },
        );
        let e2 = e1.update(tc, GraphEdge { next: (ei + 3) as usize, ..e1[tc] });
        let e3 = e2.update(op as int, GraphEdge { next: ei, ..e2[op as int] });
        let e4 = e3.update(tc, GraphEdge { face: fi, ..e3[tc] });
        let e5 = e4.update(
            next_edge as int,
            GraphEdge { face: (fi + 1) as usize, ..e4[next_edge as int] },
        );
        let v1 = g.spec_vertices().update(
            vertex as int,
            GraphVertex { edge: (ei + 1) as usize, ..g.spec_vertices()[vertex as int] },
        );
        let v2 = v1.update(0, GraphVertex { edge: (ei + 3) as usize, ..v1[0] });
        (e5, faces, v2)
    }

    /// Hang a new triangle from vertex `vertex` onto the visible hull edge
    /// pair `(current_edge, next_edge)`: two new faces and six new
    /// half-edges close the triangle and re-seat the hull.  Returns the edge
    /// opposite the new finite edge, the seed for legalization.
    fn add_triangle(&mut self, vertex: usize, current_edge: usize, next_edge: usize) -> (r: usize)
        requires
            old(self).inv(),
            vertex < old(self).graph.spec_vertices().len(),
            current_edge < old(self).graph.spec_edges().len(),
            next_edge < old(self).graph.spec_edges().len(),
            old(self).graph.spec_edges().len() + 6 <= usize::MAX,
            old(self).graph.spec_faces().len() + 2 <= usize::MAX,
        ensures
            final(self).inv(),
            final(self).graph.spec_points() == old(self).graph.spec_points(),
            final(self).graph.spec_edges().len() == old(self).graph.spec_edges().len() + 6,
            final(self).graph.spec_faces().len() == old(self).graph.spec_faces().len() + 2,
            final(self).graph.spec_vertices().len() == old(self).graph.spec_vertices().len(),
            forall|v: int|
                0 <= v < old(self).graph.spec_vertices().len()
                    ==> (#[trigger] final(self).graph.spec_vertices()[v]).position == old(
                    self,
                ).graph.spec_vertices()[v].position,
            r == old(self).graph.spec_edges()[next_edge as int].next,
            r < old(self).graph.spec_edges().len(),
            ({
                let t = Self::spec_add_triangle(old(self).graph, vertex, current_edge, next_edge);
                &&& final(self).graph.spec_edges() == t.0
                &&& final(self).graph.spec_faces() == t.1
                &&& final(self).graph.spec_vertices() == t.2
            }),
    {
        let current_vertex = self.graph.edges[twin(current_edge)].vertex;
        proof {
            lemma_twin_in_range(current_edge as int, self.graph.spec_edges().len() as int);
            lemma_twin_in_range(next_edge as int, self.graph.spec_edges().len() as int);
        }
        let next_vertex = self.graph.edges[twin(next_edge)].vertex;
        let face = self.graph.edges[next_edge].face;
        let opposite_edge = self.graph.edges[next_edge].next;

        let new_current_face = self.graph.faces.len();
        let new_next_face = new_current_face + 1;
        let edge = self.graph.edges.len();

        self.graph.faces.push(GraphFace::new(edge + 1));
        self.graph.faces.push(GraphFace::new(edge + 5));

        self.graph.edges.push(GraphEdge::new(current_vertex, edge + 4, face));
        self.graph.edges.push(GraphEdge::new(vertex, twin(current_edge), new_current_face));
        self.graph.edges.push(GraphEdge::new(vertex, next_edge, new_next_face));
        self.graph.edges.push(GraphEdge::new(0, edge + 1, new_current_face));
        self.graph.edges.push(GraphEdge::new(vertex, opposite_edge, face));
        self.graph.edges.push(GraphEdge::new(next_vertex, edge + 2, new_next_face));

        let mut rec = self.graph.edges[next_edge];
        rec.next = edge + 5;
        self.graph.edges.set(next_edge, rec);

        let tc = twin(current_edge);
        let mut rec = self.graph.edges[tc];
        rec.next = edge + 3;
        self.graph.edges.set(tc, rec);

        let mut rec = self.graph.edges[opposite_edge];
        rec.next = edge;
        self.graph.edges.set(opposite_edge, rec);

        let mut rec = self.graph.edges[tc];
        rec.face = new_current_face;
        self.graph.edges.set(tc, rec);

        let mut rec = self.graph.edges[next_edge];
        rec.face = new_next_face;
        self.graph.edges.set(next_edge, rec);

        let mut rec = self.graph.vertices[vertex];
        rec.edge = edge + 1;
        self.graph.vertices.set(vertex, rec);

        let mut rec = self.graph.vertices[0];
        rec.edge = edge + 3;
        self.graph.vertices.set(0, rec);

        proof {
            let t = Self::spec_add_triangle(old(self).graph, vertex, current_edge, next_edge);
            assert(self.graph.spec_edges() =~= t.0);
            assert(self.graph.spec_faces() =~= t.1);
            assert(self.graph.spec_vertices() =~= t.2);
            let oe = old(self).graph.spec_edges();
            let ne = self.graph.spec_edges();
            assert(ne.len() == oe.len() + 6);
            assert forall|i: int| 0 <= i < ne.len() implies {
                &&& (#[trigger] ne[i]).vertex < self.graph.spec_vertices().len()
                &&& ne[i].next < ne.len()
                &&& ne[i].face < self.graph.spec_faces().len()
            } by {
                if i < oe.len() {
                    assert(oe[i].vertex < self.graph.spec_vertices().len());
                }
            }
            assert forall|f: int| 0 <= f < self.graph.spec_faces().len() implies (
            #[trigger] self.graph.spec_faces()[f]).edge < ne.len() by {
                if f < old(self).graph.spec_faces().len() {
                    assert(self.graph.spec_faces()[f] == old(self).graph.spec_faces()[f]);
                }
            }
            assert forall|v: int| 0 <= v < self.graph.spec_vertices().len() implies {
                &&& (#[trigger] self.graph.spec_vertices()[v]).edge < ne.len()
                &&& (self.graph.spec_vertices()[v].position matches Position::Finite(p) ==> p
                    < self.graph.spec_points().len())
            } by {
                if v != vertex && v != 0 {
                    assert(self.graph.spec_vertices()[v] == old(
                        self,
                    ).graph.spec_vertices()[v]);
                }
            }
        }
        opposite_edge
    }

    /// Vertex positions all agree with `other`'s.
    pub open spec fn positions_match(self, other: Delaunator) -> bool {
        &&& self.graph.spec_vertices().len() == other.graph.spec_vertices().len()
        &&& forall|v: int|
            0 <= v < self.graph.spec_vertices().len()
                ==> (#[trigger] self.graph.spec_vertices()[v]).position
                == other.graph.spec_vertices()[v].position
    }

    /// One step of legalization on edge `e`: the tables after the step and
    /// the edges newly exposed to revisiting.  A flip happens exactly when
    /// the apex across `e` is a finite vertex strictly inside the
    /// circumcircle of the triangle left of `e`; otherwise the tables are
    /// untouched.  The update chain mirrors the in-place rewiring, write
    /// for write.
    #[verifier::opaque]
    pub open spec fn spec_legalize_step(
        t: (Seq<GraphEdge>, Seq<GraphFace>, Seq<GraphVertex<()>>),
        points: Seq<Point>,
        e: usize,
    ) -> ((Seq<GraphEdge>, Seq<GraphFace>, Seq<GraphVertex<()>>), Seq<usize>) {
        let edges = t.0;
        let t1e0 = spec_twin(e as int) as usize;
        let t1e1 = edges[t1e0 as int].next;
        let pv = edges[spec_twin(t1e1 as int)].vertex;
        if pv == 0 {
            (t, Seq::empty())
        } else {
            let t0e1 = edges[e as int].next;
            let t0e2 = edges[t0e1 as int].next;
            let va = edges[t1e0 as int].vertex;
            let vb = edges[e as int].vertex;
            let v0 = edges[spec_twin(t0e1 as int)].vertex;
            let v1 = edges[spec_twin(t1e1 as int)].vertex;
            match (
                t.2[v0 as int].position,
                t.2[va as int].position,
                t.2[vb as int].position,
                t.2[v1 as int].position,
            ) {
                (
                    Position::Finite(i0),
                    Position::Finite(ia),
                    Position::Finite(ib),
                    Position::Finite(i1),
                ) => {
                    if spec_in_circle_det(
                        points[i0 as int],
                        points[ia as int],
                        points[ib as int],
                        points[i1 as int],
                    ) < 0 {
                        let t1e2 = edges[t1e1 as int].next;
                        let tf0 = edges[t0e2 as int].face;
                        let tf1 = edges[t1e2 as int].face;
                        let vs1 = t.2.update(
                            va as int,
                            GraphVertex { edge: t0e1, ..t.2[va as int] },
                        );
                        let vs2 = vs1.update(
                            vb as int,
                            GraphVertex { edge: t1e1, ..vs1[vb as int] },
                        );
                        let es1 = edges.update(
                            t0e2 as int,
                            GraphEdge { next: t1e1, ..edges[t0e2 as int] },
                        );
                        let es2 = es1.update(
                            t1e2 as int,
                            GraphEdge { next: t0e1, ..es1[t1e2 as int] },
                        );
                        let nv1 = es2[spec_twin(t1e1 as int)].vertex;
                        let es3 = es2.update(
                            t1e0 as int,
                            GraphEdge { vertex: nv1, ..es2[t1e0 as int] },
                        );
                        let nv0 = es3[spec_twin(t0e1 as int)].vertex;
                        let es4 = es3.update(
                            e as int,
                            GraphEdge { vertex: nv0, ..es3[e as int] },
                        );
                        let es5 = es4.update(
                            t1e0 as int,
                            GraphEdge { next: t0e2, ..es4[t1e0 as int] },
                        );
                        let es6 = es5.update(
                            e as int,
                            GraphEdge { next: t1e2, ..es5[e as int] },
                        );
                        let es7 = es6.update(
                            t0e1 as int,
                            GraphEdge { next: e, ..es6[t0e1 as int] },
                        );
                        let es8 = es7.update(
                            t1e1 as int,
                            GraphEdge { next: t1e0, ..es7[t1e1 as int] },
                        );
                        let es9 = es8.update(
                            t0e2 as int,
                            GraphEdge { face: tf1, ..es8[t0e2 as int] },
                        );
                        let es10 = es9.update(
                            t1e2 as int,
                            GraphEdge { face: tf0, ..es9[t1e2 as int] },
                        );
                        let fs1 = t.1.update(tf0 as int, GraphFace { edge: t0e1 });
                        let fs2 = fs1.update(tf1 as int, GraphFace { edge: t1e1 });
                        ((es10, fs2, vs2), seq![t1e2, t1e1])
                    } else {
                        (t, Seq::empty())
                    }
                },
                _ => (t, Seq::empty()),
            }
        }
    }

    /// The result of repeated legalization steps: pop the last pending
    /// edge, apply one step, queue what it exposed, until the work list or
    /// the fuel runs out.
    pub open spec fn spec_legalize(
        t: (Seq<GraphEdge>, Seq<GraphFace>, Seq<GraphVertex<()>>),
        points: Seq<Point>,
        stack: Seq<usize>,
        fuel: nat,
    ) -> (Seq<GraphEdge>, Seq<GraphFace>, Seq<GraphVertex<()>>)
        decreases fuel,
    {
        if fuel == 0 || stack.len() == 0 {
            t
        } else {
            let e = stack.last();
            let step = Self::spec_legalize_step(t, points, e);
            Self::spec_legalize(step.0, points, stack.drop_last() + step.1, (fuel - 1) as nat)
        }
    }

    /// Legalize edge `first` and everything it exposes: while the apex of
    /// the neighbouring triangle lies strictly inside the circumcircle of
    /// the triangle across the edge, flip the diagonal in place and revisit
    /// the two edges newly exposed.  Edges at the vertex at infinity are
    /// never flipped.  A generous fuel bound replaces the termination
    /// argument of the flip recursion, which rests on a geometric measure;
    /// the final tables are exactly what `spec_legalize` computes.
    fn legalize(&mut self, first: usize)
        requires
            old(self).inv(),
            first < old(self).graph.spec_edges().len(),
            old(self).graph.spec_edges().len() <= 0x40000000,
        ensures
            final(self).inv(),
            final(self).graph.spec_points() == old(self).graph.spec_points(),
            final(self).graph.spec_edges().len() == old(self).graph.spec_edges().len(),
            final(self).graph.spec_faces().len() == old(self).graph.spec_faces().len(),
            final(self).positions_match(*old(self)),
            ({
                let m = old(self).graph.spec_edges().len();
                let t = Self::spec_legalize(
                    (
                        old(self).graph.spec_edges(),
                        old(self).graph.spec_faces(),
                        old(self).graph.spec_vertices(),
                    ),
                    old(self).graph.spec_points(),
                    seq![first],
                    (m * m + 64) as nat,
                );
                &&& final(self).graph.spec_edges() == t.0
                &&& final(self).graph.spec_faces() == t.1
                &&& final(self).graph.spec_vertices() == t.2
            }),
    {
        let mut stack: Vec<usize> = Vec::new();
        stack.push(first);
        let m = self.graph.edges.len() as u64;
        proof {
            assert(m * m <= 0x40000000 * 0x40000000) by (nonlinear_arith)
                requires
                    0 <= m <= 0x40000000,
            ;
        }
        let mut fuel: u64 = m * m + 64;
        let ghost points = self.graph.spec_points();
        let ghost target = Self::spec_legalize(
            (self.graph.spec_edges(), self.graph.spec_faces(), self.graph.spec_vertices()),
            points,
            stack@,
            fuel as nat,
        );
        proof {
            assert(stack@ =~= seq![first]);
        }
        while stack.len() > 0 && fuel > 0
            invariant
                self.inv(),
                self.graph.spec_points() == old(self).graph.spec_points(),
                points == old(self).graph.spec_points(),
                self.graph.spec_edges().len() == old(self).graph.spec_edges().len(),
                self.graph.spec_faces().len() == old(self).graph.spec_faces().len(),
                self.positions_match(*old(self)),
                forall|k: int|
                    0 <= k < stack.len() ==> #[trigger] stack@[k] < self.graph.spec_edges().len(),
                target == Self::spec_legalize(
                    (
                        self.graph.spec_edges(),
                        self.graph.spec_faces(),
                        self.graph.spec_vertices(),
                    ),
                    points,
                    stack@,
                    fuel as nat,
                ),
            decreases fuel,
        {
            let ghost pre = (
                self.graph.spec_edges(),
                self.graph.spec_faces(),
                self.graph.spec_vertices(),
            );
            let ghost pre_stack = stack@;
            let ghost pre_fuel = fuel;
            fuel = fuel - 1;
            let t0e0 = stack.pop().unwrap();
            proof {
                lemma_twin_in_range(t0e0 as int, self.graph.spec_edges().len() as int);
            }
            let t1e0 = twin(t0e0);
            let t1e1 = self.graph.edges[t1e0].next;
            proof {
                lemma_twin_in_range(t1e1 as int, self.graph.spec_edges().len() as int);
            }
            let p_vertex = self.graph.edges[twin(t1e1)].vertex;
            if p_vertex != 0 {
                let t0e1 = self.graph.edges[t0e0].next;
                let t0e2 = self.graph.edges[t0e1].next;
                proof {
                    lemma_twin_in_range(t0e1 as int, self.graph.spec_edges().len() as int);
                }
                let va = self.graph.edges[t1e0].vertex;
                let vb = self.graph.edges[t0e0].vertex;
                let v0 = self.graph.edges[twin(t0e1)].vertex;
                let v1 = self.graph.edges[twin(t1e1)].vertex;

                let flip = match (
                    self.finite_index(v0),
                    self.finite_index(va),
                    self.finite_index(vb),
                    self.finite_index(v1),
                ) {
                    (Some(i0), Some(ia), Some(ib), Some(i1)) => Point::in_circle(
                        &self.graph.points[i0],
                        &self.graph.points[ia],
                        &self.graph.points[ib],
                        &self.graph.points[i1],
                    ),
                    _ => false,
                };
                if flip {
                    let t1e2 = self.graph.edges[t1e1].next;
                    let t0 = self.graph.edges[t0e2].face;
                    let t1 = self.graph.edges[t1e2].face;

                    self.set_vertex_edge(va, t0e1);
                    self.set_vertex_edge(vb, t1e1);

                    self.set_next(t0e2, t1e1);
                    self.set_next(t1e2, t0e1);

                    proof {
                        lemma_twin_in_range(t1e1 as int, self.graph.spec_edges().len() as int);
                        lemma_twin_in_range(t0e1 as int, self.graph.spec_edges().len() as int);
                    }
                    let new_t1e0_vertex = self.graph.edges[twin(t1e1)].vertex;
                    self.set_vertex(t1e0, new_t1e0_vertex);
                    let new_t0e0_vertex = self.graph.edges[twin(t0e1)].vertex;
                    self.set_vertex(t0e0, new_t0e0_vertex);

                    self.set_next(t1e0, t0e2);
                    self.set_next(t0e0, t1e2);
                    self.set_next(t0e1, t0e0);
                    self.set_next(t1e1, t1e0);

                    self.set_face(t0e2, t1);
                    self.set_face(t1e2, t0);

                    self.set_face_edge(t0, t0e1);
                    self.set_face_edge(t1, t1e1);

                    stack.push(t1e2);
                    stack.push(t1e1);
                }
            }
            proof {
                reveal(Delaunator::spec_legalize_step);
                let step = Self::spec_legalize_step(pre, points, t0e0);
                assert(self.graph.spec_edges() =~= step.0.0);
                assert(self.graph.spec_faces() =~= step.0.1);
                assert(self.graph.spec_vertices() =~= step.0.2);
                assert(stack@ =~= pre_stack.drop_last() + step.1);
                assert(Self::spec_legalize(pre, points, pre_stack, pre_fuel as nat)
                    == Self::spec_legalize(
                    step.0,
                    points,
                    pre_stack.drop_last() + step.1,
                    (pre_fuel - 1) as nat,
                ));
            }
        }
    }

    /// The vertex at infinity sits at index 0 with an auxiliary position;
    /// every later vertex carries a finite position.
    pub open spec fn delaunay_positions(self) -> bool {
        &&& self.graph.spec_vertices().len() >= 1
        &&& self.graph.spec_vertices()[0].position matches Position::Auxiliary(_)
        &&& forall|v: int|
            1 <= v < self.graph.spec_vertices().len()
                ==> (#[trigger] self.graph.spec_vertices()[v]).position matches Position::Finite(
                _,
            )
    }

    /// Run the construction: choose the seed, sort radially, insert every
    /// point, legalizing as the hull grows.  Succeeds exactly when some
    /// triple of input points spans a proper triangle; on failure the tables
    /// stay empty.
    #[verifier::rlimit(100)]
    pub fn process(&mut self) -> (r: Result<(), crate::Error>)
        requires
            old(self).inv(),
            old(self).graph.spec_edges().len() == 0,
            old(self).graph.spec_faces().len() == 0,
            old(self).graph.spec_vertices().len() == 0,
        ensures
            final(self).inv(),
            final(self).graph.spec_points() == old(self).graph.spec_points(),
            r.is_ok() <==> old(self).has_triangle(),
            r.is_ok() ==> final(self).graph.euler_counts(),
            r.is_ok() ==> final(self).graph.spec_vertices().len() <= old(
                self,
            ).graph.spec_points().len() + 1,
            r.is_ok() ==> final(self).delaunay_positions(),
            r.is_err() ==> final(self).graph.spec_edges().len() == 0
                && final(self).graph.spec_faces().len() == 0
                && final(self).graph.spec_vertices().len() == 0,
            r.is_err() ==> r == Result::<(), crate::Error>::Err(crate::Error::DegenerateInput),
    {
        let (i0, i1, i2) = match self.find_seed_triangle() {
            None => {
                return Err(crate::Error::DegenerateInput);
            },
            Some(t) => t,
        };
        self.add_seed_triangle(i0, i1, i2);

        let n = self.graph.points.len();
        let center = Point::circumcenter(
            &self.graph.points[i0],
            &self.graph.points[i1],
            &self.graph.points[i2],
        );

        let mut dists: Vec<(usize, i128)> = Vec::new();
        let mut i: usize = 0;
        while i < n
            invariant
                self.inv(),
                n == self.graph.spec_points().len(),
                center.in_bounds(),
                i <= n,
                dists.len() == i,
                forall|k: int| 0 <= k < i ==> (#[trigger] dists@[k]).0 == k,
            decreases n - i,
        {
            let key = radial_key(&center, &self.graph.points[i]);
            dists.push((i, key));
            i = i + 1;
        }
        let ghost pre_sort = dists@;
        proof {
            assert(forall|k: int| 0 <= k < pre_sort.len() ==> (#[trigger] pre_sort[k]).0 < n);
        }
        sort_radial(&mut dists);

        let ghost mut used: Set<int> = Set::empty();
        let mut i: usize = 0;
        while i < dists.len()
            invariant
                self.inv(),
                n == self.graph.spec_points().len(),
                n <= MAX_POINTS,
                self.graph.spec_points() == old(self).graph.spec_points(),
                forall|k: int| 0 <= k < pre_sort.len() ==> (#[trigger] pre_sort[k]).0 < n,
                forall|k: int| 0 <= k < dists@.len() ==> pre_sort.contains(#[trigger] dists@[k]),
                dists.len() == n,
                i0 < n,
                i1 < n,
                i2 < n,
                spec_is_ccw(self.pt(i0 as int), self.pt(i1 as int), self.pt(i2 as int)),
                forall|p: int, q: int|
                    0 <= p < q < dists@.len() ==> (#[trigger] dists@[p]).0 != (
                    #[trigger] dists@[q]).0,
                i <= dists.len(),
                self.graph.euler_counts(),
                self.graph.spec_vertices().len() <= 4 + i,
                used.finite(),
                self.graph.spec_vertices().len() <= 4 + used.len(),
                forall|x: int|
                    #[trigger] used.contains(x) ==> 0 <= x < n && x != i0 && x != i1 && x != i2,
                forall|x: int|
                    #[trigger] used.contains(x) ==> exists|k: int|
                        0 <= k < i && (#[trigger] dists@[k]).0 == x,
                self.delaunay_positions(),
            decreases dists.len() - i,
        {
            let new_point = dists[i].0;
            proof {
                assert(pre_sort.contains(dists@[i as int]));
                let k = choose|k: int| 0 <= k < pre_sort.len() && pre_sort[k] == dists@[i as int];
                assert(pre_sort[k].0 < n);
            }
            let mut skip = new_point == i0 || new_point == i1 || new_point == i2;
            if !skip {
                // A re-occurrence of a seed corner's position is a duplicate
                // even when the radial sort parts it from its twin.
                let b = self.graph.points[new_point];
                let s0 = self.graph.points[i0];
                let s1 = self.graph.points[i1];
                let s2 = self.graph.points[i2];
                if (b.x == s0.x && b.y == s0.y) || (b.x == s1.x && b.y == s1.y) || (b.x == s2.x
                    && b.y == s2.y) {
                    skip = true;
                }
            }
            if !skip && i > 0 {
                let prev = dists[i - 1].0;
                proof {
                    assert(pre_sort.contains(dists@[i as int - 1]));
                    let k = choose|k: int|
                        0 <= k < pre_sort.len() && pre_sort[k] == dists@[i as int - 1];
                    assert(pre_sort[k].0 < n);
                }
                let a = self.graph.points[prev];
                let b = self.graph.points[new_point];
                if a.x == b.x && a.y == b.y {
                    skip = true;
                }
            }
            if !skip {
                proof {
                    if used.contains(new_point as int) {
                        let k = choose|k: int| 0 <= k < i && (#[trigger] dists@[k]).0
                            == new_point as int;
                        assert(dists@[k].0 == dists@[i as int].0);
                        assert(false);
                    }
                }
                self.insert_point(new_point);
                proof {
                    used = used.insert(new_point as int);
                }
            }
            i = i + 1;
        }
        proof {
            // The three seed corners are distinct indices, so at most
            // `n - 3` further indices were ever inserted.
            lemma_degenerate_collinear(
                self.pt(i0 as int),
                self.pt(i1 as int),
                self.pt(i2 as int),
            );
            lemma_int_range(0, n as int);
            let s = set_int_range(0, n as int).remove(i0 as int).remove(i1 as int).remove(
                i2 as int,
            );
            assert(s.len() == n - 3);
            assert(used.subset_of(s));
            lemma_len_subset(used, s);
        }
        Ok(())
    }

    /// Insert one point into the triangulation: find a visible hull edge,
    /// hang a triangle on it, then extend forward and backward along the
    /// hull while further edges are visible.  A point that sees no hull
    /// edge is skipped without a trace.
    fn insert_point(&mut self, new_point: usize)
        requires
            old(self).inv(),
            old(self).graph.spec_points().len() <= MAX_POINTS,
            new_point < old(self).graph.spec_points().len(),
            old(self).graph.euler_counts(),
            old(self).graph.spec_vertices().len() <= old(self).graph.spec_points().len() + 4,
            old(self).delaunay_positions(),
        ensures
            final(self).inv(),
            final(self).graph.spec_points() == old(self).graph.spec_points(),
            final(self).graph.euler_counts(),
            final(self).delaunay_positions(),
            final(self).graph.spec_vertices().len() <= old(self).graph.spec_vertices().len() + 1,
    {
        let (edge, walk_back) = match self.find_visible_edge(new_point) {
            None => {
                return ;
            },
            Some(pair) => pair,
        };
        let new_point_pos = self.graph.points[new_point];

        proof {
            lemma_twin_in_range(edge as int, self.graph.spec_edges().len() as int);
        }
        let mut current = edge;
        let mut next = self.graph.edges[twin(current)].next;
        proof {
            lemma_twin_in_range(next as int, self.graph.spec_edges().len() as int);
        }
        let nv = self.graph.edges[twin(next)].vertex;
        let mut next_point = match self.finite_index(nv) {
            None => {
                return ;
            },
            Some(ix) => self.graph.points[ix],
        };
        let q = self.graph.edges[current].next;
        let mut previous = twin(self.graph.edges[q].next);

        let vertex = self.graph.vertices.len();
        self.graph.vertices.push(GraphVertex::new(0, Position::Finite(new_point)));

        proof {
            assert(self.graph.spec_edges().len() + 6 <= usize::MAX);
            assert(self.graph.spec_faces().len() + 2 <= usize::MAX);
        }
        let e = self.add_triangle(vertex, current, next);
        proof {
            assert(self.graph.spec_edges().len() <= 0x40000000);
        }
        self.legalize(e);

        let new_edge = self.graph.vertices[0].edge;

        let ghost fixed_vlen = self.graph.spec_vertices().len();
        let mut fuel = self.graph.edges.len();
        loop
            invariant
                self.inv(),
                self.graph.spec_points() == old(self).graph.spec_points(),
                self.graph.euler_counts(),
                self.graph.spec_vertices().len() == fixed_vlen,
                fixed_vlen == old(self).graph.spec_vertices().len() + 1,
                old(self).graph.spec_vertices().len() <= old(self).graph.spec_points().len() + 4,
                self.delaunay_positions(),
                self.graph.spec_points().len() <= MAX_POINTS,
                next < self.graph.spec_edges().len(),
                new_edge < self.graph.spec_edges().len(),
                vertex < self.graph.spec_vertices().len(),
                next_point.in_bounds(),
                new_point_pos.in_bounds(),
            decreases fuel,
        {
            if fuel == 0 {
                break ;
            }
            fuel = fuel - 1;

            current = next;
            let current_point = next_point;
            proof {
                lemma_twin_in_range(current as int, self.graph.spec_edges().len() as int);
            }
            next = self.graph.edges[twin(current)].next;
            proof {
                lemma_twin_in_range(next as int, self.graph.spec_edges().len() as int);
            }
            let nv2 = self.graph.edges[twin(next)].vertex;
            next_point = match self.finite_index(nv2) {
                None => {
                    break ;
                },
                Some(ix) => self.graph.points[ix],
            };
            if Point::is_ccw(&new_point_pos, &current_point, &next_point) {
                break ;
            }
            let edge_1 = self.graph.edges[next].next;
            let edge_2 = self.graph.edges[current].next;
            let face_1 = self.graph.edges[next].face;
            let face_2 = self.graph.edges[current].face;

            self.set_next(twin(new_edge), next);
            self.set_face(edge_2, face_1);
            self.set_face_edge(face_2, current);
            self.set_vertex(twin(current), vertex);
            let hv = self.graph.edges[twin(next)].vertex;
            self.set_vertex(current, hv);
            self.set_next(twin(current), edge_1);
            self.set_next(current, twin(new_edge));
            self.set_face(next, face_2);
            self.set_next(next, current);
            self.set_next(edge_2, twin(current));
            self.set_next(edge_1, edge_2);

            proof {
                assert(self.graph.spec_edges().len() <= 0x40000000);
            }
            self.legalize(edge_1);
        }

        if walk_back {
            let mut current = edge;
            proof {
                lemma_twin_in_range(current as int, self.graph.spec_edges().len() as int);
            }
            let cv = self.graph.edges[twin(current)].vertex;
            let mut current_point = match self.finite_index(cv) {
                None => {
                    return ;
                },
                Some(ix) => self.graph.points[ix],
            };
            proof {
                lemma_twin_in_range(previous as int, self.graph.spec_edges().len() as int);
            }
            let pv = self.graph.edges[twin(previous)].vertex;
            let mut previous_point = match self.finite_index(pv) {
                None => {
                    return ;
                },
                Some(ix) => self.graph.points[ix],
            };

            let mut fuel = self.graph.edges.len();
            loop
                invariant
                    self.inv(),
                    self.graph.spec_points() == old(self).graph.spec_points(),
                    self.graph.euler_counts(),
                    self.graph.spec_vertices().len() == fixed_vlen,
                    fixed_vlen == old(self).graph.spec_vertices().len() + 1,
                    old(self).graph.spec_vertices().len() <= old(self).graph.spec_points().len() + 4,
                    self.delaunay_positions(),
                    self.graph.spec_points().len() <= MAX_POINTS,
                    current < self.graph.spec_edges().len(),
                    previous < self.graph.spec_edges().len(),
                    new_edge < self.graph.spec_edges().len(),
                    vertex < self.graph.spec_vertices().len(),
                    current_point.in_bounds(),
                    previous_point.in_bounds(),
                    new_point_pos.in_bounds(),
                decreases fuel,
            {
                if fuel == 0 {
                    break ;
                }
                fuel = fuel - 1;

                if Point::is_ccw(&new_point_pos, &previous_point, &current_point) {
                    break ;
                }
                let edge_1 = self.graph.edges[new_edge].next;
                let edge_2 = self.graph.edges[current].next;
                let face_1 = self.graph.edges[new_edge].face;
                let face_2 = self.graph.edges[current].face;

                self.set_next(twin(previous), new_edge);
                self.set_face(edge_2, face_1);
                self.set_face_edge(face_2, current);
                let pvx = self.graph.edges[twin(previous)].vertex;
                self.set_vertex(twin(current), pvx);
                self.set_vertex(current, vertex);
                self.set_next(twin(current), edge_1);
                self.set_next(current, twin(previous));
                self.set_face(new_edge, face_2);
                self.set_next(new_edge, current);
                self.set_next(edge_2, twin(current));
                self.set_next(edge_1, edge_2);

                proof {
                    assert(self.graph.spec_edges().len() <= 0x40000000);
                }
                self.legalize(edge_2);

                current = previous;
                current_point = previous_point;
                let q2 = self.graph.edges[current].next;
                previous = twin(self.graph.edges[q2].next);
                proof {
                    lemma_twin_in_range(previous as int, self.graph.spec_edges().len() as int);
                }
                let pv2 = self.graph.edges[twin(previous)].vertex;
                previous_point = match self.finite_index(pv2) {
                    None => {
                        break ;
                    },
                    Some(ix) => self.graph.points[ix],
                };
            }
        }
    }

    /// The geometry the installed seed satisfies: the one finite face is
    /// counter-clockwise, the three hull faces touch the vertex at
    /// infinity, and every edge is Delaunay-legal.
    #[verifier::opaque]
    pub open spec fn spec_seed_geometry(g: Graph<Point, ()>) -> bool {
        &&& spec_ccw_ok(g)
        &&& spec_delaunay_ok(g)
        &&& spec_face_touches_infinity(g, 0)
        &&& !spec_face_touches_infinity(g, 1)
        &&& spec_face_touches_infinity(g, 2)
        &&& spec_face_touches_infinity(g, 3)
    }

    /// Install the seed triangle: the vertex at infinity, three finite
    /// vertices, the inner face, three hull faces, and twelve half-edges in
    /// a closed, fully paired configuration.
    fn add_seed_triangle(&mut self, v0: usize, v1: usize, v2: usize)
        requires
            old(self).inv(),
            old(self).graph.spec_edges().len() == 0,
            old(self).graph.spec_faces().len() == 0,
            old(self).graph.spec_vertices().len() == 0,
            v0 < old(self).graph.spec_points().len(),
            v1 < old(self).graph.spec_points().len(),
            v2 < old(self).graph.spec_points().len(),
            spec_is_ccw(
                old(self).pt(v0 as int),
                old(self).pt(v1 as int),
                old(self).pt(v2 as int),
            ),
        ensures
            final(self).inv(),
            final(self).graph.spec_points() == old(self).graph.spec_points(),
            final(self).graph.spec_edges().len() == 12,
            final(self).graph.spec_faces().len() == 4,
            final(self).graph.spec_vertices().len() == 4,
            final(self).graph.spec_vertices()[0].position matches Position::Auxiliary(_),
            final(self).graph.spec_vertices()[1].position == Position::<()>::Finite(v2),
            final(self).graph.spec_vertices()[2].position == Position::<()>::Finite(v1),
            final(self).graph.spec_vertices()[3].position == Position::<()>::Finite(v0),
            final(self).graph.twin_separation(),
            final(self).graph.all_faces_triangular(),
            final(self).graph.vertex_consistent(),
            Self::spec_seed_geometry(final(self).graph),
    {
        self.graph.vertices.push(GraphVertex::new(3, Position::Auxiliary(())));
        self.graph.vertices.push(GraphVertex::new(0, Position::Finite(v2)));
        self.graph.vertices.push(GraphVertex::new(7, Position::Finite(v1)));
        self.graph.vertices.push(GraphVertex::new(1, Position::Finite(v0)));

        self.graph.faces.push(GraphFace::new(1));
        self.graph.faces.push(GraphFace::new(0));
        self.graph.faces.push(GraphFace::new(7));
        self.graph.faces.push(GraphFace::new(9));

        self.graph.edges.push(GraphEdge::new(1, 6, 1));
        self.graph.edges.push(GraphEdge::new(3, 2, 0));
        self.graph.edges.push(GraphEdge::new(1, 4, 0));
        self.graph.edges.push(GraphEdge::new(0, 9, 3));
        self.graph.edges.push(GraphEdge::new(0, 1, 0));
        self.graph.edges.push(GraphEdge::new(3, 10, 2));
        self.graph.edges.push(GraphEdge::new(3, 8, 1));
        self.graph.edges.push(GraphEdge::new(2, 5, 2));
        self.graph.edges.push(GraphEdge::new(2, 0, 1));
        self.graph.edges.push(GraphEdge::new(1, 11, 3));
        self.graph.edges.push(GraphEdge::new(0, 7, 2));
        self.graph.edges.push(GraphEdge::new(2, 3, 3));
        proof {
            reveal(Delaunator::spec_seed_geometry);
            reveal(crate::delaunay::spec_face_ccw);
            reveal(crate::delaunay::spec_edge_legal);
            // The inner face lists its corners in the rotation (v2, v0, v1),
            // which keeps the seed's counter-clockwise orientation.
            lemma_cross_rotate(
                self.pt(v0 as int),
                self.pt(v1 as int),
                self.pt(v2 as int),
            );
            assert(spec_face_ccw(self.graph, 1));
            assert forall|f: int| 0 <= f < 4 implies #[trigger] spec_face_ccw(self.graph, f) by {
                if f != 1 {
                    assert(spec_face_ccw(self.graph, f));
                }
            }
            assert forall|e: int| 0 <= e < 12 implies #[trigger] spec_edge_legal(
                self.graph,
                e,
            ) by {
                assert(spec_edge_legal(self.graph, e));
            }
        }
    }
}

} // verus!

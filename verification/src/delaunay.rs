//! The Delaunay facade: owns the graph a successful construction produced
//! and exposes the read-only cursor interface, together with runtime checks
//! of the geometric triangulation properties.

use vstd::prelude::*;

use crate::Error;
use crate::delaunator::Delaunator;
use crate::delaunator::MAX_POINTS;
use crate::graph::Graph;
use crate::graph::Position;
use crate::graph::lemma_twin_in_range;
use crate::graph::spec_twin;
use crate::graph::twin;
use crate::point::Point;
use crate::point::spec_collinear;
use crate::point::spec_in_circle_det;
use crate::point::spec_is_ccw;

verus! {

/// Some triple of the points spans a proper (non-collinear) triangle.
pub open spec fn spec_spans_triangle(s: Seq<Point>) -> bool {
    exists|a: int, b: int, c: int|
        0 <= a < s.len() && 0 <= b < s.len() && 0 <= c < s.len() && !spec_collinear(
            #[trigger] s[a],
            #[trigger] s[b],
            #[trigger] s[c],
        )
}

/// The position of vertex `v`, if it is finite.
pub open spec fn spec_finite_point(g: Graph<Point, ()>, v: int) -> Option<Point> {
    match g.spec_vertices()[v].position {
        Position::Finite(i) => Some(g.spec_points()[i as int]),
        Position::Auxiliary(_) => None,
    }
}

/// The three corner vertices of face `f`, read along its `next` cycle.
pub open spec fn spec_face_corners(g: Graph<Point, ()>, f: int) -> (int, int, int) {
    let e0 = g.spec_faces()[f].edge as int;
    let e1 = g.spec_edges()[e0].next as int;
    let e2 = g.spec_edges()[e1].next as int;
    (
        g.spec_edges()[e0].vertex as int,
        g.spec_edges()[e1].vertex as int,
        g.spec_edges()[e2].vertex as int,
    )
}

/// Face `f` is counter-clockwise, whenever all of its corners are finite.
#[verifier::opaque]
pub open spec fn spec_face_ccw(g: Graph<Point, ()>, f: int) -> bool {
    let (v0, v1, v2) = spec_face_corners(g, f);
    match (spec_finite_point(g, v0), spec_finite_point(g, v1), spec_finite_point(g, v2)) {
        (Some(p0), Some(p1), Some(p2)) => spec_is_ccw(p0, p1, p2),
        _ => true,
    }
}

/// Every finite face of the graph is counter-clockwise.
pub open spec fn spec_ccw_ok(g: Graph<Point, ()>) -> bool {
    forall|f: int| 0 <= f < g.spec_faces().len() ==> #[trigger] spec_face_ccw(g, f)
}

/// One of the three corners of face `f` is the vertex at infinity: the
/// face is a hull triangle.
pub open spec fn spec_face_touches_infinity(g: Graph<Point, ()>, f: int) -> bool {
    let (v0, v1, v2) = spec_face_corners(g, f);
    v0 == 0 || v1 == 0 || v2 == 0
}

/// The four vertices the in-circle test of edge `e` reads: the apex of the
/// triangle left of `e`, the two endpoints of `e`, and the apex of the
/// triangle right of `e`.
pub open spec fn spec_edge_quad(g: Graph<Point, ()>, e: int) -> (int, int, int, int) {
    let t1e0 = spec_twin(e);
    let t1e1 = g.spec_edges()[t1e0].next as int;
    let t0e1 = g.spec_edges()[e].next as int;
    (
        g.spec_edges()[spec_twin(t0e1)].vertex as int,
        g.spec_edges()[t1e0].vertex as int,
        g.spec_edges()[e].vertex as int,
        g.spec_edges()[spec_twin(t1e1)].vertex as int,
    )
}

/// Edge `e` meets the Delaunay criterion: when both adjacent triangles are
/// finite, the far apex does not lie strictly inside the circumcircle of
/// the near triangle.
#[verifier::opaque]
pub open spec fn spec_edge_legal(g: Graph<Point, ()>, e: int) -> bool {
    let (v0, va, vb, v1) = spec_edge_quad(g, e);
    match (
        spec_finite_point(g, v0),
        spec_finite_point(g, va),
        spec_finite_point(g, vb),
        spec_finite_point(g, v1),
    ) {
        (Some(p0), Some(pa), Some(pb), Some(p1)) => spec_in_circle_det(p0, pa, pb, p1) >= 0,
        _ => true,
    }
}

/// Every edge of the graph meets the Delaunay criterion.
pub open spec fn spec_delaunay_ok(g: Graph<Point, ()>) -> bool {
    forall|e: int| 0 <= e < g.spec_edges().len() ==> #[trigger] spec_edge_legal(g, e)
}

/// A Delaunay triangulation: a well-formed graph with Euler counts, the
/// vertex at infinity at index 0, and every input point within the
/// fixed-point range.
pub struct Delaunay {
    graph: Graph<Point, ()>,
}

impl Delaunay {
    /// The underlying graph.
    pub closed spec fn spec_graph(self) -> Graph<Point, ()> {
        self.graph
    }

    /// What every `Delaunay` value guarantees.
    #[verifier::type_invariant]
    pub closed spec fn type_inv(self) -> bool {
        &&& self.graph.wf()
        &&& self.graph.euler_counts()
        &&& self.graph.spec_points().len() <= MAX_POINTS
        &&& forall|i: int|
            0 <= i < self.graph.spec_points().len() ==> (
            #[trigger] self.graph.spec_points()[i]).in_bounds()
        &&& self.graph.spec_vertices()[0].position matches Position::Auxiliary(_)
        &&& forall|v: int|
            1 <= v < self.graph.spec_vertices().len()
                ==> (#[trigger] self.graph.spec_vertices()[v]).position matches Position::Finite(
                _,
            )
    }

    /// Triangulate the given points.  Inputs without any non-collinear
    /// triple are rejected with `DegenerateInput`, and exactly those.  A
    /// successful result provably satisfies every structural and geometric
    /// triangulation invariant: the construction ends by running the
    /// verified checkers, and reports `StructuralInvariantViolation` — the
    /// bug guard that no input is known to reach — if any were to fail.
    pub fn from(points: Vec<Point>) -> (r: Result<Delaunay, Error>)
        requires
            points.len() <= MAX_POINTS,
            forall|i: int| 0 <= i < points.len() ==> (#[trigger] points@[i]).in_bounds(),
        ensures
            r == Result::<Delaunay, Error>::Err(Error::DegenerateInput) <==> !spec_spans_triangle(
                points@,
            ),
            r matches Ok(d) ==> {
                &&& d.spec_graph().spec_points() == points@
                &&& d.spec_graph().wf()
                &&& d.spec_graph().euler_counts()
                &&& d.spec_graph().spec_vertices().len() <= points@.len() + 1
                &&& d.spec_graph().twin_separation()
                &&& d.spec_graph().all_faces_triangular()
                &&& d.spec_graph().vertex_consistent()
                &&& spec_ccw_ok(d.spec_graph())
                &&& spec_delaunay_ok(d.spec_graph())
            },
    {
        let ghost pts = points@;
        let mut builder = Delaunator::new(points);
        let ghost pre = builder;
        match builder.process() {
            Ok(()) => {
                proof {
                    assert(pre.has_triangle());
                    let (a, b, c) = choose|a: int, b: int, c: int|
                        0 <= a < pre.graph.spec_points().len() && 0 <= b
                            < pre.graph.spec_points().len() && 0 <= c
                            < pre.graph.spec_points().len() && !spec_collinear(
                            #[trigger] pre.pt(a),
                            #[trigger] pre.pt(b),
                            #[trigger] pre.pt(c),
                        );
                    assert(!spec_collinear(pts[a], pts[b], pts[c]));
                }
                let d = Delaunay { graph: builder.graph };
                let sound = d.graph().check_twin_separation()
                    && d.graph().check_faces_triangular() && d.graph().check_vertex_consistency()
                    && d.check_ccw_faces() && d.check_delaunay_property();
                if sound {
                    Ok(d)
                } else {
                    Err(Error::StructuralInvariantViolation)
                }
            },
            Err(e) => {
                proof {
                    if spec_spans_triangle(pts) {
                        let (a, b, c) = choose|a: int, b: int, c: int|
                            0 <= a < pts.len() && 0 <= b < pts.len() && 0 <= c < pts.len()
                                && !spec_collinear(
                                #[trigger] pts[a],
                                #[trigger] pts[b],
                                #[trigger] pts[c],
                            );
                        assert(!spec_collinear(pre.pt(a), pre.pt(b), pre.pt(c)));
                        assert(pre.has_triangle());
                    }
                }
                Err(e)
            },
        }
    }

    /// Read-only access to the graph, with its invariants exposed.
    pub fn graph(&self) -> (r: &Graph<Point, ()>)
        ensures
            *r == self.spec_graph(),
            r.wf(),
            r.euler_counts(),
            forall|i: int|
                0 <= i < r.spec_points().len() ==> (#[trigger] r.spec_points()[i]).in_bounds(),
    {
        proof {
            use_type_invariant(self);
        }
        &self.graph
    }

    /// Runtime check that every finite face is counter-clockwise.
    pub fn check_ccw_faces(&self) -> (r: bool)
        ensures
            r == spec_ccw_ok(self.spec_graph()),
    {
        proof {
            use_type_invariant(self);
        }
        let g = &self.graph;
        let mut f: usize = 0;
        while f < g.faces.len()
            invariant
                g.wf(),
                *g == self.spec_graph(),
                forall|i: int|
                    0 <= i < g.spec_points().len() ==> (#[trigger] g.spec_points()[i]).in_bounds(),
                f <= g.spec_faces().len(),
                forall|k: int| 0 <= k < f ==> #[trigger] spec_face_ccw(*g, k),
            decreases g.spec_faces().len() - f,
        {
            let e0 = g.faces[f].edge;
            let e1 = g.edges[e0].next;
            let e2 = g.edges[e1].next;
            let v0 = g.edges[e0].vertex;
            let v1 = g.edges[e1].vertex;
            let v2 = g.edges[e2].vertex;
            let ok = match (
                g.vertices[v0].position,
                g.vertices[v1].position,
                g.vertices[v2].position,
            ) {
                (Position::Finite(i0), Position::Finite(i1), Position::Finite(i2)) => Point::is_ccw(
                    &g.points[i0],
                    &g.points[i1],
                    &g.points[i2],
                ),
                _ => true,
            };
            proof {
                reveal(spec_face_ccw);
                assert(ok == spec_face_ccw(*g, f as int));
            }
            if !ok {
                return false;
            }
            f = f + 1;
        }
        true
    }

    /// Runtime check of the Delaunay criterion over every edge.
    pub fn check_delaunay_property(&self) -> (r: bool)
        ensures
            r == spec_delaunay_ok(self.spec_graph()),
    {
        proof {
            use_type_invariant(self);
        }
        let g = &self.graph;
        let mut e: usize = 0;
        while e < g.edges.len()
            invariant
                g.wf(),
                *g == self.spec_graph(),
                forall|i: int|
                    0 <= i < g.spec_points().len() ==> (#[trigger] g.spec_points()[i]).in_bounds(),
                e <= g.spec_edges().len(),
                forall|k: int| 0 <= k < e ==> #[trigger] spec_edge_legal(*g, k),
            decreases g.spec_edges().len() - e,
        {
            proof {
                lemma_twin_in_range(e as int, g.spec_edges().len() as int);
            }
            let t1e0 = twin(e);
            let t1e1 = g.edges[t1e0].next;
            let t0e1 = g.edges[e].next;
            proof {
                lemma_twin_in_range(t1e1 as int, g.spec_edges().len() as int);
                lemma_twin_in_range(t0e1 as int, g.spec_edges().len() as int);
            }
            let v0 = g.edges[twin(t0e1)].vertex;
            let va = g.edges[t1e0].vertex;
            let vb = g.edges[e].vertex;
            let v1 = g.edges[twin(t1e1)].vertex;
            let ok = match (
                g.vertices[v0].position,
                g.vertices[va].position,
                g.vertices[vb].position,
                g.vertices[v1].position,
            ) {
                (
                    Position::Finite(i0),
                    Position::Finite(ia),
                    Position::Finite(ib),
                    Position::Finite(i1),
                ) => !Point::in_circle(&g.points[i0], &g.points[ia], &g.points[ib], &g.points[i1]),
                _ => true,
            };
            proof {
                reveal(spec_edge_legal);
                assert(ok == spec_edge_legal(*g, e as int));
            }
            if !ok {
                return false;
            }
            e = e + 1;
        }
        true
    }
}

} // verus!

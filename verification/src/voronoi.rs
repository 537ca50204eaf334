//! The Voronoi diagram, built as the dual of a Delaunay triangulation in
//! one pass over the half-edge tables.
//!
//! Every Delaunay edge turns into a Voronoi edge by a pure rename of its
//! fields, so the twin pairing survives untouched; every Delaunay vertex
//! becomes a Voronoi face; every Delaunay face becomes a Voronoi vertex,
//! placed at the face's circumcenter when all three corners are finite, and
//! carrying the outward normal of the hull edge otherwise.

use vstd::prelude::*;

use crate::Error;
use crate::delaunay::Delaunay;
use crate::delaunay::spec_face_corners;
use crate::delaunay::spec_finite_point;
use crate::graph::Graph;
use crate::graph::GraphEdge;
use crate::graph::GraphFace;
use crate::graph::GraphVertex;
use crate::graph::Position;
use crate::graph::lemma_twin_in_range;
use crate::graph::spec_twin;
use crate::graph::twin;
use crate::point::CenterPoint;
use crate::point::Point;
use crate::point::Vector;
use crate::point::lemma_cross_swap;
use crate::point::spec_circumcenter;
use crate::point::spec_collinear;

verus! {

/// All three corners of Delaunay face `f` are finite and span a proper
/// triangle, so its circumcenter exists: the face becomes a finite Voronoi
/// vertex.
pub open spec fn spec_face_center_ready(g: Graph<Point, ()>, f: int) -> bool {
    let (v0, v1, v2) = spec_face_corners(g, f);
    match (spec_finite_point(g, v0), spec_finite_point(g, v1), spec_finite_point(g, v2)) {
        (Some(p0), Some(p1), Some(p2)) => !spec_collinear(p0, p1, p2),
        _ => false,
    }
}

/// The circumcenter that Delaunay face `f` contributes.
pub open spec fn spec_face_center(g: Graph<Point, ()>, f: int) -> CenterPoint {
    let (v0, v1, v2) = spec_face_corners(g, f);
    match (spec_finite_point(g, v0), spec_finite_point(g, v1), spec_finite_point(g, v2)) {
        (Some(p0), Some(p1), Some(p2)) => spec_circumcenter(p0, p1, p2),
        _ => CenterPoint { nx: 0, ny: 0, den: 1 },
    }
}

/// Exactly one corner of Delaunay face `f` is the vertex at infinity: the
/// face is a hull triangle and becomes an unbounded Voronoi vertex.
pub open spec fn spec_face_normal_ready(g: Graph<Point, ()>, f: int) -> bool {
    let (v0, v1, v2) = spec_face_corners(g, f);
    match (spec_finite_point(g, v0), spec_finite_point(g, v1), spec_finite_point(g, v2)) {
        (Some(_), Some(_), None) => true,
        (None, Some(_), Some(_)) => true,
        (Some(_), None, Some(_)) => true,
        _ => false,
    }
}

/// The outward normal of the hull edge of face `f`, read from its two
/// finite corners `a, b` in cycle order: `(y_a - y_b, x_b - x_a)`.
pub open spec fn spec_face_normal(g: Graph<Point, ()>, f: int) -> Vector {
    let (v0, v1, v2) = spec_face_corners(g, f);
    match (spec_finite_point(g, v0), spec_finite_point(g, v1), spec_finite_point(g, v2)) {
        (Some(a), Some(b), None) => Vector { x: (a.y - b.y) as i64, y: (b.x - a.x) as i64 },
        (None, Some(a), Some(b)) => Vector { x: (a.y - b.y) as i64, y: (b.x - a.x) as i64 },
        (Some(b), None, Some(a)) => Vector { x: (a.y - b.y) as i64, y: (b.x - a.x) as i64 },
        _ => Vector { x: 0, y: 0 },
    }
}

/// Face `f` fits neither case: fewer than two finite corners, or three
/// finite corners on one line.  Impossible for a triangulation that honours
/// the structural invariants.
pub open spec fn spec_face_bad(g: Graph<Point, ()>, f: int) -> bool {
    !spec_face_center_ready(g, f) && !spec_face_normal_ready(g, f)
}

/// Some Delaunay face is structurally broken.
pub open spec fn spec_dual_fails(g: Graph<Point, ()>) -> bool {
    exists|f: int| 0 <= f < g.spec_faces().len() && #[trigger] spec_face_bad(g, f)
}

/// The Voronoi diagram over the circumcenters of a triangulation.
pub struct Voronoi {
    graph: Graph<CenterPoint, Vector>,
}

impl Voronoi {
    /// The underlying graph.
    pub closed spec fn spec_graph(self) -> Graph<CenterPoint, Vector> {
        self.graph
    }

    /// What every `Voronoi` value guarantees.
    #[verifier::type_invariant]
    pub closed spec fn type_inv(self) -> bool {
        self.graph.wf()
    }

    /// Read-only access to the graph.
    pub fn graph(&self) -> (r: &Graph<CenterPoint, Vector>)
        ensures
            *r == self.spec_graph(),
            r.wf(),
    {
        proof {
            use_type_invariant(self);
        }
        &self.graph
    }

    /// Build the dual of a Delaunay triangulation.  The edge and face
    /// tables are pure renames of the Delaunay tables; every Delaunay face
    /// becomes one Voronoi vertex.  Fails only on a structurally broken
    /// face, which no triangulation of this crate produces.
    pub fn from(delaunay: &Delaunay) -> (r: Result<Voronoi, Error>)
        ensures
            r.is_ok() <==> !spec_dual_fails(delaunay.spec_graph()),
            r matches Err(e) ==> e == Error::StructuralInvariantViolation,
            r matches Ok(v) ==> {
                let d = delaunay.spec_graph();
                let vg = v.spec_graph();
                &&& vg.spec_edges().len() == d.spec_edges().len()
                &&& vg.spec_faces().len() == d.spec_vertices().len()
                &&& vg.spec_vertices().len() == d.spec_faces().len()
                &&& vg.wf()
                &&& forall|i: int|
                    0 <= i < d.spec_edges().len() ==> #[trigger] vg.spec_edges()[i] == (GraphEdge {
                        vertex: d.spec_edges()[spec_twin(i)].face,
                        next: spec_twin(d.spec_edges()[i].next as int) as usize,
                        face: d.spec_edges()[spec_twin(i)].vertex,
                    })
                &&& forall|w: int|
                    0 <= w < d.spec_vertices().len() ==> (#[trigger] vg.spec_faces()[w]).edge
                        == d.spec_vertices()[w].edge
                &&& forall|f: int|
                    0 <= f < d.spec_faces().len() && spec_face_center_ready(d, f)
                        ==> ((#[trigger] vg.spec_vertices()[f]).position matches Position::Finite(
                        _,
                    ))
                &&& forall|f: int|
                    0 <= f < d.spec_faces().len()
                        ==> ((#[trigger] vg.spec_vertices()[f]).position matches Position::Finite(
                        p,
                    ) ==> p < vg.spec_points().len() && vg.spec_points()[p as int]
                        == spec_face_center(d, f))
                &&& forall|f: int|
                    0 <= f < d.spec_faces().len() && spec_face_normal_ready(d, f)
                        ==> (#[trigger] vg.spec_vertices()[f]).position == Position::<
                        Vector,
                    >::Auxiliary(spec_face_normal(d, f))
            },
    {
        let g = delaunay.graph();
        let ghost d = *g;

        let mut edges: Vec<GraphEdge> = Vec::new();
        let mut i: usize = 0;
        while i < g.edges.len()
            invariant
                g.wf(),
                d == *g,
                d == delaunay.spec_graph(),
                i <= g.spec_edges().len(),
                edges.len() == i,
                forall|k: int|
                    0 <= k < i ==> #[trigger] edges@[k] == (GraphEdge {
                        vertex: d.spec_edges()[spec_twin(k)].face,
                        next: spec_twin(d.spec_edges()[k].next as int) as usize,
                        face: d.spec_edges()[spec_twin(k)].vertex,
                    }),
            decreases g.spec_edges().len() - i,
        {
            proof {
                lemma_twin_in_range(i as int, g.spec_edges().len() as int);
            }
            let t = twin(i);
            edges.push(GraphEdge::new(g.edges[t].face, twin(g.edges[i].next), g.edges[t].vertex));
            i = i + 1;
        }

        let mut faces: Vec<GraphFace> = Vec::new();
        let mut w: usize = 0;
        while w < g.vertices.len()
            invariant
                g.wf(),
                d == *g,
                d == delaunay.spec_graph(),
                w <= g.spec_vertices().len(),
                faces.len() == w,
                forall|k: int|
                    0 <= k < w ==> (#[trigger] faces@[k]).edge == d.spec_vertices()[k].edge,
            decreases g.spec_vertices().len() - w,
        {
            faces.push(GraphFace::new(g.vertices[w].edge));
            w = w + 1;
        }

        let mut points: Vec<CenterPoint> = Vec::new();
        let mut vertices: Vec<GraphVertex<Vector>> = Vec::new();
        let mut f: usize = 0;
        while f < g.faces.len()
            invariant
                g.wf(),
                d == *g,
                d == delaunay.spec_graph(),
                forall|k: int|
                    0 <= k < d.spec_points().len() ==> (#[trigger] d.spec_points()[k]).in_bounds(),
                f <= g.spec_faces().len(),
                vertices.len() == f,
                forall|k: int| 0 <= k < f ==> !spec_face_bad(d, k),
                forall|k: int|
                    0 <= k < f ==> (#[trigger] vertices@[k]).edge < d.spec_edges().len(),
                forall|k: int|
                    0 <= k < f && spec_face_center_ready(d, k)
                        ==> (#[trigger] vertices@[k]).position matches Position::Finite(_),
                forall|k: int|
                    0 <= k < f ==> ((#[trigger] vertices@[k]).position matches Position::Finite(p)
                        ==> p < points@.len() && points@[p as int] == spec_face_center(d, k)),
                forall|k: int|
                    0 <= k < f && spec_face_normal_ready(d, k)
                        ==> (#[trigger] vertices@[k]).position == Position::<Vector>::Auxiliary(
                        spec_face_normal(d, k),
                    ),
                forall|k: int|
                    0 <= k < f ==> ((#[trigger] vertices@[k]).position matches Position::Finite(p)
                        ==> p < points@.len()),
            decreases g.spec_faces().len() - f,
        {
            let e0 = g.faces[f].edge;
            let e1 = g.edges[e0].next;
            let e2 = g.edges[e1].next;
            let v0 = g.edges[e0].vertex;
            let v1 = g.edges[e1].vertex;
            let v2 = g.edges[e2].vertex;
            let te0 = twin(e0);
            proof {
                lemma_twin_in_range(e0 as int, g.spec_edges().len() as int);
            }
            match (g.vertices[v0].position, g.vertices[v1].position, g.vertices[v2].position) {
                (Position::Finite(i0), Position::Finite(i1), Position::Finite(i2)) => {
                    let p0 = g.points[i0];
                    let p1 = g.points[i1];
                    let p2 = g.points[i2];
                    proof {
                        lemma_cross_swap(p0, p1, p2);
                    }
                    if !Point::is_ccw(&p0, &p1, &p2) && !Point::is_ccw(&p0, &p2, &p1) {
                        proof {
                            assert(spec_face_bad(d, f as int));
                            assert(spec_dual_fails(d));
                            assert(d == delaunay.spec_graph());
                        }
                        return Err(Error::StructuralInvariantViolation);
                    }
                    let c = Point::circumcenter(&p0, &p1, &p2);
                    let idx = points.len();
                    points.push(c);
                    vertices.push(GraphVertex::new(te0, Position::Finite(idx)));
                    proof {
                        assert(spec_face_center_ready(d, f as int));
                        assert(vertices@[f as int].position == Position::<Vector>::Finite(idx));
                        assert(points@[idx as int] == spec_face_center(d, f as int));
                    }
                },
                (Position::Finite(i0), Position::Finite(i1), Position::Auxiliary(_)) => {
                    let a = g.points[i0];
                    let b = g.points[i1];
                    vertices.push(
                        GraphVertex::new(te0, Position::Auxiliary(Vector::new(a.y - b.y, b.x - a.x))),
                    );
                },
                (Position::Auxiliary(_), Position::Finite(i1), Position::Finite(i2)) => {
                    let a = g.points[i1];
                    let b = g.points[i2];
                    vertices.push(
                        GraphVertex::new(te0, Position::Auxiliary(Vector::new(a.y - b.y, b.x - a.x))),
                    );
                },
                (Position::Finite(i0), Position::Auxiliary(_), Position::Finite(i2)) => {
                    let a = g.points[i2];
                    let b = g.points[i0];
                    vertices.push(
                        GraphVertex::new(te0, Position::Auxiliary(Vector::new(a.y - b.y, b.x - a.x))),
                    );
                },
                _ => {
                    proof {
                        assert(spec_face_bad(d, f as int));
                        assert(spec_dual_fails(d));
                        assert(d == delaunay.spec_graph());
                    }
                    return Err(Error::StructuralInvariantViolation);
                },
            }
            f = f + 1;
        }

        let graph = Graph { points, edges, faces, vertices };
        proof {
            assert forall|k: int| 0 <= k < graph.spec_edges().len() implies {
                &&& (#[trigger] graph.spec_edges()[k]).vertex < graph.spec_vertices().len()
                &&& graph.spec_edges()[k].next < graph.spec_edges().len()
                &&& graph.spec_edges()[k].face < graph.spec_faces().len()
            } by {
                lemma_twin_in_range(k, d.spec_edges().len() as int);
                lemma_twin_in_range(d.spec_edges()[k].next as int, d.spec_edges().len() as int);
            }
        }
        proof {
            assert(d == delaunay.spec_graph());
            assert(!spec_dual_fails(d));
        }
        Ok(Voronoi { graph })
    }
}

} // verus!

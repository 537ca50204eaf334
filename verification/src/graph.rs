//! The half-edge graph: three parallel index tables plus read-only cursors.
//!
//! Edges are allocated in pairs, and the twin of edge `i` is `i ^ 1`.  Edge
//! `i` originates at `edges[i].vertex`; `edges[i].next` is the next edge
//! around the same face; `edges[i].face` is that face.  `faces[f].edge` is
//! one edge of face `f`, and `vertices[v].edge` is one edge leaving `v`.
//!
//! A vertex position is a tagged union: `Finite` holds an index into the
//! point table, `Auxiliary` carries the payload type `T` (unit for the
//! Delaunay vertex at infinity, an outward direction for unbounded Voronoi
//! features).

use vstd::prelude::*;

verus! {

/// One half-edge record.
#[derive(Clone, Copy, Debug, PartialEq, Eq, Structural)]
pub struct GraphEdge {
    pub vertex: usize,
    pub next: usize,
    pub face: usize,
}

impl GraphEdge {
    #[inline]
    pub fn new(vertex: usize, next: usize, face: usize) -> (r: GraphEdge)
        ensures
            r == (GraphEdge { vertex, next, face }),
    {
        GraphEdge { vertex, next, face }
    }
}

/// One face record: a single incident edge.
#[derive(Clone, Copy, Debug, PartialEq, Eq, Structural)]
pub struct GraphFace {
    pub edge: usize,
}

impl GraphFace {
    #[inline]
    pub fn new(edge: usize) -> (r: GraphFace)
        ensures
            r == (GraphFace { edge }),
    {
        GraphFace { edge }
    }
}

/// A vertex position: an index into the point table, or an auxiliary payload.
#[derive(Clone, Copy, Debug)]
pub enum Position<T> {
    Finite(usize),
    Auxiliary(T),
}

/// One vertex record: an outgoing edge and a position.
#[derive(Clone, Copy, Debug)]
pub struct GraphVertex<T> {
    pub edge: usize,
    pub position: Position<T>,
}

impl<T> GraphVertex<T> {
    #[inline]
    pub fn new(edge: usize, position: Position<T>) -> (r: GraphVertex<T>)
        ensures
            r.edge == edge,
            r.position == position,
    {
        GraphVertex { edge, position }
    }
}

/// A resolved vertex position: the point itself, or the auxiliary payload.
#[derive(Clone, Copy, Debug)]
pub enum Placement<P, T> {
    Finite(P),
    Auxiliary(T),
}

/// The twin of half-edge `i` under pair allocation.
pub open spec fn spec_twin(i: int) -> int {
    if i % 2 == 0 {
        i + 1
    } else {
        i - 1
    }
}

/// Pairing is an involution: the twin of the twin of `i` is `i` again.
pub proof fn lemma_twin_involution(i: int)
    requires
        0 <= i,
    ensures
        spec_twin(spec_twin(i)) == i,
{
}

/// `i ^ 1` computes the twin.
proof fn lemma_xor_one(i: usize)
    ensures
        i % 2 == 0 ==> i ^ 1 == i + 1,
        i % 2 != 0 ==> i ^ 1 == i - 1,
{
    assert((i % 2 == 0 ==> i ^ 1 == i + 1) && (i % 2 != 0 ==> i ^ 1 == i - 1))
        by (bit_vector);
}

/// The twin of an edge index stays inside an even-length table.
pub proof fn lemma_twin_in_range(i: int, len: int)
    requires
        0 <= i < len,
        len % 2 == 0,
    ensures
        0 <= spec_twin(i) < len,
{
}

/// Exact twin computation.
#[inline]
pub fn twin(i: usize) -> (r: usize)
    ensures
        r == spec_twin(i as int),
{
    proof {
        lemma_xor_one(i);
    }
    i ^ 1
}

/// The half-edge graph over points of type `P` with auxiliary payload `T`.
#[derive(Debug)]
pub struct Graph<P, T> {
    pub points: Vec<P>,

    pub edges: Vec<GraphEdge>,
    pub faces: Vec<GraphFace>,
    pub vertices: Vec<GraphVertex<T>>,
}

impl<P: Copy, T: Copy> Graph<P, T> {
    /// The point table as a sequence.
    pub open spec fn spec_points(self) -> Seq<P> {
        self.points@
    }

    /// The edge table as a sequence.
    pub open spec fn spec_edges(self) -> Seq<GraphEdge> {
        self.edges@
    }

    /// The face table as a sequence.
    pub open spec fn spec_faces(self) -> Seq<GraphFace> {
        self.faces@
    }

    /// The vertex table as a sequence.
    pub open spec fn spec_vertices(self) -> Seq<GraphVertex<T>> {
        self.vertices@
    }

    /// Every cross-reference of every table lands inside its target table,
    /// and edges come in twin pairs.
    pub open spec fn wf(self) -> bool {
        &&& self.spec_edges().len() % 2 == 0
        &&& forall|i: int|
            0 <= i < self.spec_edges().len() ==> {
                &&& (#[trigger] self.spec_edges()[i]).vertex < self.spec_vertices().len()
                &&& self.spec_edges()[i].next < self.spec_edges().len()
                &&& self.spec_edges()[i].face < self.spec_faces().len()
            }
        &&& forall|f: int|
            0 <= f < self.spec_faces().len() ==> (#[trigger] self.spec_faces()[f]).edge
                < self.spec_edges().len()
        &&& forall|v: int|
            0 <= v < self.spec_vertices().len() ==> {
                &&& (#[trigger] self.spec_vertices()[v]).edge < self.spec_edges().len()
                &&& (self.spec_vertices()[v].position matches Position::Finite(p) ==> p
                    < self.spec_points().len())
            }
    }

    /// The Euler counts of a closed triangulation over `vertex_count`
    /// vertices (the vertex at infinity included).
    pub open spec fn euler_counts(self) -> bool {
        &&& self.spec_vertices().len() >= 4
        &&& self.spec_faces().len() == 2 * self.spec_vertices().len() - 4
        &&& self.spec_edges().len() == 6 * self.spec_vertices().len() - 12
    }

    /// The Euler relation: a closed triangulation of `n` finite vertices
    /// (one fewer than the table holds, for the vertex at infinity) has
    /// `n + 1` vertices, `2n - 2` faces and `3n - 3` undirected edges.
    pub proof fn lemma_euler_relation(self)
        requires
            self.euler_counts(),
        ensures
            ({
                let n = self.spec_vertices().len() - 1;
                &&& self.spec_vertices().len() == n + 1
                &&& self.spec_faces().len() == 2 * n - 2
                &&& self.spec_edges().len() / 2 == 3 * n - 3
            }),
    {
    }

    /// Every edge and its twin separate two distinct faces and join two
    /// distinct vertices.
    pub open spec fn twin_separation(self) -> bool {
        forall|i: int|
            0 <= i < self.spec_edges().len() ==> {
                &&& (#[trigger] self.spec_edges()[i]).face != self.spec_edges()[spec_twin(i)].face
                &&& self.spec_edges()[i].vertex != self.spec_edges()[spec_twin(i)].vertex
            }
    }

    /// The `next` cycle of face `f` closes after exactly three edges, all of
    /// which name `f` as their face.
    pub open spec fn face_cycle_ok(self, f: int) -> bool {
        let e0 = self.spec_faces()[f].edge as int;
        let e1 = self.spec_edges()[e0].next as int;
        let e2 = self.spec_edges()[e1].next as int;
        &&& self.spec_edges()[e0].face == f
        &&& self.spec_edges()[e1].face == f
        &&& self.spec_edges()[e2].face == f
        &&& e1 != e0
        &&& e2 != e0
        &&& self.spec_edges()[e2].next == e0
    }

    /// Every face cycle is a triangle.
    pub open spec fn all_faces_triangular(self) -> bool {
        forall|f: int| 0 <= f < self.spec_faces().len() ==> #[trigger] self.face_cycle_ok(f)
    }

    /// The k-th edge of face `f`'s cycle: the recorded edge, then repeated
    /// `next` steps.
    pub open spec fn spec_face_cycle_edge(self, f: int, k: nat) -> int
        decreases k,
    {
        if k == 0 {
            self.spec_faces()[f].edge as int
        } else {
            self.spec_edges()[self.spec_face_cycle_edge(f, (k - 1) as nat)].next as int
        }
    }

    /// The outgoing edge recorded at each vertex really leaves that vertex.
    pub open spec fn vertex_consistent(self) -> bool {
        forall|v: int|
            0 <= v < self.spec_vertices().len() ==> (#[trigger] self.spec_vertices()[v]).edge
                < self.spec_edges().len() && self.spec_edges()[self.spec_vertices()[v].edge as int].vertex
                == v
    }

    /// Number of undirected edges.
    #[inline]
    pub fn edge_count(&self) -> (r: usize)
        ensures
            r == self.spec_edges().len() / 2,
    {
        self.edges.len() / 2
    }

    #[inline]
    pub fn face_count(&self) -> (r: usize)
        ensures
            r == self.spec_faces().len(),
    {
        self.faces.len()
    }

    #[inline]
    pub fn vertex_count(&self) -> (r: usize)
        ensures
            r == self.spec_vertices().len(),
    {
        self.vertices.len()
    }

    #[inline]
    pub fn edge(&self, id: usize) -> (r: Edge<'_, P, T>)
        requires
            id < self.spec_edges().len(),
        ensures
            r.graph() == *self,
            r.edge_id() == id,
    {
        Edge { graph: self, id }
    }

    #[inline]
    pub fn face(&self, id: usize) -> (r: Face<'_, P, T>)
        requires
            id < self.spec_faces().len(),
        ensures
            r.graph() == *self,
            r.face_id() == id,
    {
        Face { graph: self, id }
    }

    #[inline]
    pub fn vertex(&self, id: usize) -> (r: Vertex<'_, P, T>)
        requires
            id < self.spec_vertices().len(),
        ensures
            r.graph() == *self,
            r.vertex_id() == id,
    {
        Vertex { graph: self, id }
    }

    /// One cursor per undirected edge, at the even half of each pair.
    pub fn edges(&self) -> (r: Vec<Edge<'_, P, T>>)
        ensures
            r.len() == self.spec_edges().len() / 2,
            forall|k: int|
                0 <= k < r.len() ==> (#[trigger] r@[k]).graph() == *self && r@[k].edge_id() == 2
                    * k,
    {
        let mut out: Vec<Edge<'_, P, T>> = Vec::new();
        let count = self.edges.len() / 2;
        let mut id: usize = 0;
        while id < count
            invariant
                id <= count,
                count == self.spec_edges().len() / 2,
                2 * count <= usize::MAX,
                out.len() == id,
                forall|k: int|
                    0 <= k < id ==> (#[trigger] out@[k]).graph() == *self && out@[k].edge_id()
                        == 2 * k,
            decreases count - id,
        {
            out.push(Edge { graph: self, id: 2 * id });
            id = id + 1;
        }
        out
    }

    /// One cursor per face.
    pub fn faces(&self) -> (r: Vec<Face<'_, P, T>>)
        ensures
            r.len() == self.spec_faces().len(),
            forall|k: int|
                0 <= k < r.len() ==> (#[trigger] r@[k]).graph() == *self && r@[k].face_id() == k,
    {
        let mut out: Vec<Face<'_, P, T>> = Vec::new();
        let mut id: usize = 0;
        while id < self.faces.len()
            invariant
                id <= self.spec_faces().len(),
                out.len() == id,
                forall|k: int|
                    0 <= k < id ==> (#[trigger] out@[k]).graph() == *self && out@[k].face_id()
                        == k,
            decreases self.spec_faces().len() - id,
        {
            out.push(Face { graph: self, id });
            id = id + 1;
        }
        out
    }

    /// One cursor per vertex.
    pub fn vertices(&self) -> (r: Vec<Vertex<'_, P, T>>)
        ensures
            r.len() == self.spec_vertices().len(),
            forall|k: int|
                0 <= k < r.len() ==> (#[trigger] r@[k]).graph() == *self && r@[k].vertex_id()
                    == k,
    {
        let mut out: Vec<Vertex<'_, P, T>> = Vec::new();
        let mut id: usize = 0;
        while id < self.vertices.len()
            invariant
                id <= self.spec_vertices().len(),
                out.len() == id,
                forall|k: int|
                    0 <= k < id ==> (#[trigger] out@[k]).graph() == *self && out@[k].vertex_id()
                        == k,
            decreases self.spec_vertices().len() - id,
        {
            out.push(Vertex { graph: self, id });
            id = id + 1;
        }
        out
    }

    /// Runtime check of `twin_separation`.
    pub fn check_twin_separation(&self) -> (r: bool)
        requires
            self.wf(),
        ensures
            r == self.twin_separation(),
    {
        let mut i: usize = 0;
        while i < self.edges.len()
            invariant
                self.wf(),
                i <= self.spec_edges().len(),
                forall|k: int|
                    0 <= k < i ==> (#[trigger] self.spec_edges()[k]).face
                        != self.spec_edges()[spec_twin(k)].face && self.spec_edges()[k].vertex
                        != self.spec_edges()[spec_twin(k)].vertex,
            decreases self.spec_edges().len() - i,
        {
            proof {
                lemma_twin_in_range(i as int, self.spec_edges().len() as int);
            }
            let t = twin(i);
            if self.edges[i].face == self.edges[t].face || self.edges[i].vertex
                == self.edges[t].vertex {
                return false;
            }
            i = i + 1;
        }
        true
    }

    /// Runtime check of `all_faces_triangular`.
    pub fn check_faces_triangular(&self) -> (r: bool)
        requires
            self.wf(),
        ensures
            r == self.all_faces_triangular(),
    {
        let mut f: usize = 0;
        while f < self.faces.len()
            invariant
                self.wf(),
                f <= self.spec_faces().len(),
                forall|k: int| 0 <= k < f ==> #[trigger] self.face_cycle_ok(k),
            decreases self.spec_faces().len() - f,
        {
            let e0 = self.faces[f].edge;
            let e1 = self.edges[e0].next;
            let e2 = self.edges[e1].next;
            let ok = self.edges[e0].face == f && self.edges[e1].face == f && self.edges[e2].face
                == f && e1 != e0 && e2 != e0 && self.edges[e2].next == e0;
            if !ok {
                proof {
                    assert(!self.face_cycle_ok(f as int));
                }
                return false;
            }
            f = f + 1;
        }
        true
    }

    /// Runtime check of `vertex_consistent`.
    pub fn check_vertex_consistency(&self) -> (r: bool)
        requires
            self.wf(),
        ensures
            r == self.vertex_consistent(),
    {
        let mut v: usize = 0;
        while v < self.vertices.len()
            invariant
                self.wf(),
                v <= self.spec_vertices().len(),
                forall|k: int|
                    0 <= k < v ==> (#[trigger] self.spec_vertices()[k]).edge
                        < self.spec_edges().len()
                        && self.spec_edges()[self.spec_vertices()[k].edge as int].vertex == k,
            decreases self.spec_vertices().len() - v,
        {
            if self.edges[self.vertices[v].edge].vertex != v {
                return false;
            }
            v = v + 1;
        }
        true
    }
}

/// Read-only cursor over one half-edge pair.
#[derive(Clone, Copy)]
pub struct Edge<'a, P, T> {
    pub(crate) graph: &'a Graph<P, T>,
    pub(crate) id: usize,
}

impl<'a, P: Copy, T: Copy> Edge<'a, P, T> {
    pub closed spec fn graph(self) -> Graph<P, T> {
        *self.graph
    }

    pub closed spec fn edge_id(self) -> int {
        self.id as int
    }

    /// Undirected edge index.
    #[inline]
    pub fn id(&self) -> (r: usize)
        ensures
            r == self.edge_id() / 2,
    {
        self.id / 2
    }

    /// Tail and head vertex of this half-edge.
    #[inline]
    pub fn vertices(&self) -> (r: (Vertex<'a, P, T>, Vertex<'a, P, T>))
        requires
            self.graph().wf(),
            self.edge_id() < self.graph().spec_edges().len(),
        ensures
            r.0.graph() == self.graph(),
            r.1.graph() == self.graph(),
            r.0.vertex_id() == self.graph().spec_edges()[self.edge_id()].vertex,
            r.1.vertex_id() == self.graph().spec_edges()[spec_twin(self.edge_id())].vertex,
    {
        proof {
            lemma_twin_in_range(self.id as int, self.graph().spec_edges().len() as int);
        }
        let t = twin(self.id);
        let left = Vertex { graph: self.graph, id: self.graph.edges[self.id].vertex };
        let right = Vertex { graph: self.graph, id: self.graph.edges[t].vertex };
        (left, right)
    }
}

/// Read-only cursor over one face.
#[derive(Clone, Copy)]
pub struct Face<'a, P, T> {
    pub(crate) graph: &'a Graph<P, T>,
    pub(crate) id: usize,
}

impl<'a, P: Copy, T: Copy> Face<'a, P, T> {
    pub closed spec fn graph(self) -> Graph<P, T> {
        *self.graph
    }

    pub closed spec fn face_id(self) -> int {
        self.id as int
    }

    #[inline]
    pub fn id(&self) -> (r: usize)
        ensures
            r == self.face_id(),
    {
        self.id
    }

    /// The edges of this face, following `next` from the face's recorded
    /// edge until the cycle closes.  A well-formed triangulation yields
    /// exactly three.
    pub fn edges(&self) -> (r: Vec<Edge<'a, P, T>>)
        requires
            self.graph().wf(),
            self.face_id() < self.graph().spec_faces().len(),
        ensures
            r.len() >= 1,
            forall|k: int|
                0 <= k < r.len() ==> (#[trigger] r@[k]).graph() == self.graph() && r@[k].edge_id()
                    < self.graph().spec_edges().len(),
            r@[0].edge_id() == self.graph().spec_faces()[self.face_id()].edge,
            forall|k: int|
                0 <= k < r.len() ==> (#[trigger] r@[k]).edge_id()
                    == self.graph().spec_face_cycle_edge(self.face_id(), k as nat),
            self.graph().face_cycle_ok(self.face_id()) ==> {
                let e0 = self.graph().spec_faces()[self.face_id()].edge as int;
                let e1 = self.graph().spec_edges()[e0].next as int;
                &&& r.len() == 3
                &&& r@[1].edge_id() == e1
                &&& r@[2].edge_id() == self.graph().spec_edges()[e1].next
            },
    {
        let start = self.graph.faces[self.id].edge;
        let mut out: Vec<Edge<'a, P, T>> = Vec::new();
        out.push(Edge { graph: self.graph, id: start });
        let mut current = self.graph.edges[start].next;
        proof {
            assert(self.graph().spec_face_cycle_edge(self.face_id(), 0) == start);
            assert(self.graph().spec_face_cycle_edge(self.face_id(), 1)
                == self.graph().spec_edges()[start as int].next);
        }
        let mut fuel: usize = self.graph.edges.len();
        while current != start && fuel > 0
            invariant
                self.graph().wf(),
                self.face_id() < self.graph().spec_faces().len(),
                start == self.graph().spec_faces()[self.face_id()].edge,
                current < self.graph().spec_edges().len(),
                out.len() >= 1,
                out.len() + fuel == self.graph().spec_edges().len() + 1,
                forall|k: int|
                    0 <= k < out.len() ==> (#[trigger] out@[k]).graph() == self.graph()
                        && out@[k].edge_id() < self.graph().spec_edges().len(),
                out@[0].edge_id() == start,
                forall|k: int|
                    0 <= k < out.len() ==> (#[trigger] out@[k]).edge_id()
                        == self.graph().spec_face_cycle_edge(self.face_id(), k as nat),
                current == self.graph().spec_face_cycle_edge(self.face_id(), out.len() as nat),
                self.graph().face_cycle_ok(self.face_id()) && out.len() == 1 ==> current
                    == self.graph().spec_edges()[start as int].next,
                self.graph().face_cycle_ok(self.face_id()) && out.len() == 2 ==> current
                    == self.graph().spec_edges()[self.graph().spec_edges()[start as int].next as int].next
                    && current != start,
                self.graph().face_cycle_ok(self.face_id()) ==> out.len() <= 3,
                self.graph().face_cycle_ok(self.face_id()) && out.len() == 3 ==> current == start,
                self.graph().face_cycle_ok(self.face_id()) && out.len() >= 2 ==> out@[1].edge_id()
                    == self.graph().spec_edges()[start as int].next,
                self.graph().face_cycle_ok(self.face_id()) && out.len() == 3 ==> out@[2].edge_id()
                    == self.graph().spec_edges()[self.graph().spec_edges()[start as int].next as int].next,
            decreases fuel,
        {
            out.push(Edge { graph: self.graph, id: current });
            current = self.graph.edges[current].next;
            proof {
                assert(self.graph().spec_face_cycle_edge(self.face_id(), out.len() as nat)
                    == self.graph().spec_edges()[self.graph().spec_face_cycle_edge(
                    self.face_id(),
                    (out.len() - 1) as nat,
                )].next);
            }
            fuel = fuel - 1;
        }
        out
    }

    /// The first endpoint of each edge of the face, in cycle order.
    pub fn vertices(&self) -> (r: Vec<Vertex<'a, P, T>>)
        requires
            self.graph().wf(),
            self.face_id() < self.graph().spec_faces().len(),
        ensures
            r.len() >= 1,
            forall|k: int|
                0 <= k < r.len() ==> (#[trigger] r@[k]).graph() == self.graph()
                    && r@[k].vertex_id() < self.graph().spec_vertices().len(),
            forall|k: int|
                0 <= k < r.len() ==> (#[trigger] r@[k]).vertex_id() == self.graph().spec_edges()[
                    self.graph().spec_face_cycle_edge(self.face_id(), k as nat)].vertex,
            self.graph().face_cycle_ok(self.face_id()) ==> r.len() == 3,
    {
        let edges = self.edges();
        let mut out: Vec<Vertex<'a, P, T>> = Vec::new();
        let mut k: usize = 0;
        while k < edges.len()
            invariant
                self.graph().wf(),
                k <= edges.len(),
                out.len() == k,
                self.face_id() < self.graph().spec_faces().len(),
                forall|j: int|
                    0 <= j < edges.len() ==> (#[trigger] edges@[j]).graph() == self.graph()
                        && edges@[j].edge_id() < self.graph().spec_edges().len(),
                forall|j: int|
                    0 <= j < edges.len() ==> (#[trigger] edges@[j]).edge_id()
                        == self.graph().spec_face_cycle_edge(self.face_id(), j as nat),
                forall|j: int|
                    0 <= j < k ==> (#[trigger] out@[j]).graph() == self.graph()
                        && out@[j].vertex_id() < self.graph().spec_vertices().len(),
                forall|j: int|
                    0 <= j < k ==> (#[trigger] out@[j]).vertex_id() == self.graph().spec_edges()[
                        self.graph().spec_face_cycle_edge(self.face_id(), j as nat)].vertex,
            decreases edges.len() - k,
        {
            let e = edges[k];
            out.push(Vertex { graph: self.graph, id: self.graph.edges[e.id].vertex });
            k = k + 1;
        }
        out
    }
}

/// Read-only cursor over one vertex.
#[derive(Clone, Copy)]
pub struct Vertex<'a, P, T> {
    pub(crate) graph: &'a Graph<P, T>,
    pub(crate) id: usize,
}

impl<'a, P: Copy, T: Copy> Vertex<'a, P, T> {
    pub closed spec fn graph(self) -> Graph<P, T> {
        *self.graph
    }

    pub closed spec fn vertex_id(self) -> int {
        self.id as int
    }

    #[inline]
    pub fn id(&self) -> (r: usize)
        ensures
            r == self.vertex_id(),
    {
        self.id
    }

    /// The position of this vertex, with finite positions resolved through
    /// the point table.
    #[inline]
    pub fn position(&self) -> (r: Placement<P, T>)
        requires
            self.graph().wf(),
            self.vertex_id() < self.graph().spec_vertices().len(),
        ensures
            match self.graph().spec_vertices()[self.vertex_id()].position {
                Position::Finite(i) => r == Placement::<P, T>::Finite(
                    self.graph().spec_points()[i as int],
                ),
                Position::Auxiliary(t) => r == Placement::<P, T>::Auxiliary(t),
            },
    {
        match self.graph.vertices[self.id].position {
            Position::Finite(i) => Placement::Finite(self.graph.points[i]),
            Position::Auxiliary(t) => Placement::Auxiliary(t),
        }
    }
}

} // verus!

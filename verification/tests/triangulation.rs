//! End-to-end scenarios for the triangulator and its Voronoi dual.

use triangulate::Delaunay;
use triangulate::Error;
use triangulate::Placement;
use triangulate::Point;
use triangulate::Voronoi;

/// A small deterministic generator for the seeded random scenario.
fn lcg(state: &mut u64) -> u64 {
    *state = state.wrapping_mul(6364136223846793005).wrapping_add(1442695040888963407);
    *state >> 33
}

fn points(coords: &[(i64, i64)]) -> Vec<Point> {
    coords.iter().map(|&(x, y)| Point::new(x, y)).collect()
}

/// The undirected finite edges of a graph, as unordered coordinate pairs.
fn finite_edges(d: &Delaunay) -> Vec<((i64, i64), (i64, i64))> {
    let g = d.graph();
    let mut out = Vec::new();
    for edge in g.edges() {
        let (tail, head) = edge.vertices();
        if let (Placement::Finite(a), Placement::Finite(b)) = (tail.position(), head.position()) {
            let pa = (a.x, a.y);
            let pb = (b.x, b.y);
            out.push(if pa <= pb { (pa, pb) } else { (pb, pa) });
        }
    }
    out
}

fn count_finite_faces(d: &Delaunay) -> usize {
    let g = d.graph();
    let mut n = 0;
    for face in g.faces() {
        let all_finite = face
            .vertices()
            .iter()
            .all(|v| matches!(v.position(), Placement::Finite(_)));
        if all_finite {
            n += 1;
        }
    }
    n
}

fn assert_structure(d: &Delaunay) {
    let g = d.graph();
    assert!(g.check_twin_separation());
    assert!(g.check_faces_triangular());
    assert!(g.check_vertex_consistency());
    assert!(d.check_ccw_faces());
    assert!(d.check_delaunay_property());
    // Euler relation over the table sizes.
    assert_eq!(g.face_count(), 2 * g.vertex_count() - 4);
    assert_eq!(g.edge_count(), 3 * g.vertex_count() - 6);
}

fn assert_duality(d: &Delaunay, v: &Voronoi) {
    assert_eq!(v.graph().edge_count(), d.graph().edge_count());
    assert_eq!(v.graph().face_count(), d.graph().vertex_count());
    assert_eq!(v.graph().vertex_count(), d.graph().face_count());
}

#[test]
fn square_two_triangles() {
    let d = Delaunay::from(points(&[(1, 1), (9, 1), (9, 9), (1, 9)])).unwrap();
    let g = d.graph();
    assert_eq!(g.vertex_count(), 5);
    assert_eq!(g.face_count(), 6);
    assert_eq!(g.edge_count(), 9);
    assert_eq!(count_finite_faces(&d), 2);
    assert_structure(&d);

    // Exactly one of the two diagonals appears; both are Delaunay here.
    let edges = finite_edges(&d);
    let diag1 = edges.iter().filter(|&&e| e == ((1, 1), (9, 9))).count();
    let diag2 = edges.iter().filter(|&&e| e == ((1, 9), (9, 1))).count();
    assert_eq!(diag1 + diag2, 1, "exactly one of the two diagonals");
    assert!(diag1 == 0 || diag2 == 0);
}

#[test]
fn single_triangle_counts_and_voronoi_center() {
    let input = points(&[(0, 0), (100, 0), (50, 87)]);
    let d = Delaunay::from(input.clone()).unwrap();
    let g = d.graph();
    assert_eq!(g.vertex_count(), 4);
    assert_eq!(g.face_count(), 4);
    assert_eq!(g.edge_count(), 6);
    assert_eq!(count_finite_faces(&d), 1);
    assert_structure(&d);

    // The Voronoi dual has a single finite vertex: the circumcenter.
    let v = Voronoi::from(&d).unwrap();
    assert_duality(&d, &v);
    let vg = v.graph();
    let mut centers = Vec::new();
    for vertex in vg.vertices() {
        if let Placement::Finite(c) = vertex.position() {
            centers.push(c);
        }
    }
    assert_eq!(centers.len(), 1);
    let expect = Point::circumcenter(&input[0], &input[1], &input[2]);
    assert_eq!(centers[0], expect);
}

#[test]
fn collinear_trio_rejected() {
    let r = Delaunay::from(points(&[(1, 5), (5, 5), (9, 5)]));
    assert!(matches!(r, Err(Error::DegenerateInput)));
}

#[test]
fn two_point_input_rejected() {
    let r = Delaunay::from(points(&[(2, 3), (7, 8)]));
    assert!(matches!(r, Err(Error::DegenerateInput)));
}

#[test]
fn empty_and_single_rejected() {
    assert!(matches!(Delaunay::from(Vec::new()), Err(Error::DegenerateInput)));
    assert!(matches!(
        Delaunay::from(points(&[(4, 4)])),
        Err(Error::DegenerateInput)
    ));
}

#[test]
fn coincident_points_rejected() {
    let r = Delaunay::from(points(&[(3, 3), (3, 3), (3, 3), (3, 3)]));
    assert!(matches!(r, Err(Error::DegenerateInput)));
}

#[test]
fn seeded_hundred_points_invariants() {
    let mut state = 42u64;
    let mut input = Vec::new();
    for _ in 0..100 {
        let x = (lcg(&mut state) % 1025) as i64;
        let y = (lcg(&mut state) % 1025) as i64;
        input.push(Point::new(x, y));
    }
    let d = Delaunay::from(input).unwrap();
    assert_structure(&d);
    // Resource bound: at most one vertex per input point, plus infinity.
    assert!(d.graph().vertex_count() <= 101);
    let v = Voronoi::from(&d).unwrap();
    assert_duality(&d, &v);
}

#[test]
fn duplicate_point_filtered() {
    let d = Delaunay::from(points(&[(2, 2), (2, 2), (8, 3), (4, 9)])).unwrap();
    let g = d.graph();
    // The duplicate has no effect: the result is the triangulation of the
    // three distinct points.
    assert_eq!(g.vertex_count(), 4);
    assert_eq!(g.face_count(), 4);
    assert_eq!(g.edge_count(), 6);
    assert_structure(&d);
}

#[test]
fn cursor_views() {
    let d = Delaunay::from(points(&[(0, 0), (100, 0), (50, 87)])).unwrap();
    let g = d.graph();

    // Every face cycle yields exactly three edges, each naming the face.
    for f in 0..g.face_count() {
        let face = g.face(f);
        assert_eq!(face.id(), f);
        assert_eq!(face.edges().len(), 3);
        assert_eq!(face.vertices().len(), 3);
    }

    // Undirected edge ids pair the two half-edges.
    let edges = g.edges();
    assert_eq!(edges.len(), g.edge_count());
    for (k, edge) in edges.iter().enumerate() {
        assert_eq!(edge.id(), k);
        let (tail, head) = edge.vertices();
        assert!(tail.id() < g.vertex_count());
        assert!(head.id() < g.vertex_count());
        assert_ne!(tail.id(), head.id());
    }

    assert_eq!(g.vertices().len(), g.vertex_count());
    assert_eq!(g.vertex(0).id(), 0);
    assert!(matches!(g.vertex(0).position(), Placement::Auxiliary(())));
}

#[test]
fn twin_closure_over_the_tables() {
    let d = Delaunay::from(points(&[(1, 1), (9, 1), (9, 9), (1, 9)])).unwrap();
    let g = d.graph();
    for i in 0..g.edges.len() {
        // The twin of the twin of an edge is the edge itself.
        assert_eq!(g.edges[i ^ 1 ^ 1], g.edges[i]);
        // An edge and its twin separate two distinct faces.
        assert_ne!(g.edges[i].face, g.edges[i ^ 1].face);
    }
}

#[test]
fn voronoi_centers_match_circumcenters() {
    let input = points(&[(1, 1), (9, 2), (7, 9), (2, 7), (5, 5)]);
    let d = Delaunay::from(input).unwrap();
    assert_structure(&d);
    let v = Voronoi::from(&d).unwrap();
    assert_duality(&d, &v);

    // Each finite Voronoi vertex is the circumcenter of the matching
    // Delaunay face.
    let g = d.graph();
    let vg = v.graph();
    assert_eq!(vg.vertex_count(), g.face_count());
    for f in 0..g.face_count() {
        let face = g.face(f);
        let corners: Vec<_> = face.vertices().iter().map(|w| w.position()).collect();
        let finite: Vec<Point> = corners
            .iter()
            .filter_map(|p| match p {
                Placement::Finite(q) => Some(*q),
                Placement::Auxiliary(_) => None,
            })
            .collect();
        match vg.vertex(f).position() {
            Placement::Finite(c) => {
                assert_eq!(finite.len(), 3);
                assert_eq!(c, Point::circumcenter(&finite[0], &finite[1], &finite[2]));
            }
            Placement::Auxiliary(_) => {
                assert_eq!(finite.len(), 2);
            }
        }
    }
}

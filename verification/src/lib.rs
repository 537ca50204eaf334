//! Planar Delaunay triangulation with a dual Voronoi construction, built on a
//! compact half-edge graph over fixed-point integer coordinates.
//!
//! Coordinates are integers in `[-COORD_LIMIT, COORD_LIMIT]`, with the unit
//! square mapping onto `[0, COORD_LIMIT]`.  At that scale every geometric
//! predicate — orientation, in-circle, circumradius comparison — is an exact
//! integer determinant, and circumcenters are kept as exact rationals, so
//! the whole construction is verified end to end with no rounding anywhere.
//!
//! [`Delaunay::from`] triangulates a point set, succeeding exactly when some
//! triple of the points spans a proper triangle; [`Voronoi::from`] derives
//! the dual diagram in one pass over the half-edge tables.

use vstd::prelude::*;

mod application;
mod delaunator;
mod delaunay;
mod graph;
mod point;
mod settings;
mod voronoi;

pub use crate::application::Application;
pub use crate::settings::Settings;
pub use crate::settings::default_number;
pub use crate::voronoi::Voronoi;

pub use crate::delaunator::Delaunator;
pub use crate::delaunator::MAX_POINTS;
pub use crate::delaunay::Delaunay;

pub use crate::graph::Edge;
pub use crate::graph::Face;
pub use crate::graph::Graph;
pub use crate::graph::GraphEdge;
pub use crate::graph::GraphFace;
pub use crate::graph::GraphVertex;
pub use crate::graph::Placement;
pub use crate::graph::Position;
pub use crate::graph::Vertex;
pub use crate::point::COORD_LIMIT;
pub use crate::point::CenterPoint;
pub use crate::point::Circumradius;
pub use crate::point::Point;
pub use crate::point::Vector;

verus! {

/// The domain error of the triangulator.
#[derive(Clone, Copy, Debug, PartialEq, Eq, Structural)]
pub enum Error {
    /// No seed triangle exists: fewer than three distinct points, or all of
    /// them collinear.
    DegenerateInput,
    /// A graph table contradicts the triangulation invariants; a bug guard,
    /// never expected on any input.
    StructuralInvariantViolation,
}

} // verus!

//! 2-D points and the geometric predicates of the triangulator.
//!
//! Coordinates are fixed-point integers: the unit square maps to
//! `[0, COORD_LIMIT]`, and every predicate is evaluated exactly in integer
//! arithmetic.  Circumcenters, which are rational for integer input, are kept
//! exactly as a numerator pair over a common positive denominator.

use vstd::prelude::*;

verus! {

/// Largest coordinate magnitude a point may carry.  The binding constraint
/// is the exact circumradius comparison: with coordinates up to `B` it
/// cross-multiplies numbers of order `B ^ 6` with squared areas of order
/// `B ^ 4`, so `B ^ 10` must stay inside `i128`; `B = 1024` is the largest
/// power of two that fits.
pub const COORD_LIMIT: i64 = 1024;

/// A point of the plane in fixed-point coordinates.
#[derive(Clone, Copy, Debug, PartialEq, Eq, Structural)]
pub struct Point {
    pub x: i64,
    pub y: i64,
}

impl Point {
    /// Both coordinates lie within the fixed-point range.
    pub open spec fn in_bounds(self) -> bool {
        -(COORD_LIMIT as int) <= self.x <= COORD_LIMIT as int
            && -(COORD_LIMIT as int) <= self.y <= COORD_LIMIT as int
    }

    #[inline]
    pub fn new(x: i64, y: i64) -> (r: Point)
        ensures
            r.x == x,
            r.y == y,
    {
        Point { x, y }
    }
}

/// Cross product `(b - a) x (c - b)` with the image convention: the y axis
/// grows downwards, so a strictly negative cross product means the triple
/// turns counter-clockwise.
pub open spec fn spec_cross(a: Point, b: Point, c: Point) -> int {
    (b.y - a.y) * (c.x - b.x) - (b.x - a.x) * (c.y - b.y)
}

/// The triple is counter-clockwise under the y-down convention.
pub open spec fn spec_is_ccw(a: Point, b: Point, c: Point) -> bool {
    spec_cross(a, b, c) < 0
}

/// The three points lie on one line.
pub open spec fn spec_collinear(a: Point, b: Point, c: Point) -> bool {
    spec_cross(a, b, c) == 0
}

/// `|x * y| <= ax * ay` whenever `|x| <= ax` and `|y| <= ay`.
pub proof fn lemma_mul_bound(x: int, y: int, ax: int, ay: int)
    requires
        -ax <= x <= ax,
        -ay <= y <= ay,
        0 <= ax,
        0 <= ay,
    ensures
        -(ax * ay) <= x * y <= ax * ay,
{
    assert(-(ax * ay) <= x * y <= ax * ay) by (nonlinear_arith)
        requires
            -ax <= x <= ax,
            -ay <= y <= ay,
            0 <= ax,
            0 <= ay,
    ;
}

/// The cross product of bounded points is itself bounded.
proof fn lemma_cross_bound(a: Point, b: Point, c: Point)
    requires
        a.in_bounds(),
        b.in_bounds(),
        c.in_bounds(),
    ensures
        -8388608 <= spec_cross(a, b, c) <= 8388608,
{
    lemma_mul_bound(b.y - a.y, c.x - b.x, 2048, 2048);
    lemma_mul_bound(b.x - a.x, c.y - b.y, 2048, 2048);
}

impl Point {
    /// Orientation predicate: true when `p0, p1, p2` turn counter-clockwise
    /// (y-down convention, strict).
    #[inline]
    pub fn is_ccw(p0: &Point, p1: &Point, p2: &Point) -> (r: bool)
        requires
            p0.in_bounds(),
            p1.in_bounds(),
            p2.in_bounds(),
        ensures
            r == spec_is_ccw(*p0, *p1, *p2),
    {
        proof {
            lemma_cross_bound(*p0, *p1, *p2);
            lemma_mul_bound(p1.y - p0.y, p2.x - p1.x, 2048, 2048);
            lemma_mul_bound(p1.x - p0.x, p2.y - p1.y, 2048, 2048);
        }
        (p1.y - p0.y) * (p2.x - p1.x) - (p1.x - p0.x) * (p2.y - p1.y) < 0
    }

    /// Equality at the fixed-point resolution: at integer coordinates a
    /// sub-unit delta cannot exist, so this is exact coordinate equality.
    #[inline]
    pub fn nearly_equals(p1: &Point, p2: &Point) -> (r: bool)
        ensures
            r == (p1.x == p2.x && p1.y == p2.y),
    {
        p1.x == p2.x && p1.y == p2.y
    }
}

/// A direction of the plane, in the same fixed-point scale as `Point`.
/// Semantically a vector, not a position: it carries the outward normal of
/// unbounded Voronoi edges.
#[derive(Clone, Copy, Debug, PartialEq, Eq, Structural)]
pub struct Vector {
    pub x: i64,
    pub y: i64,
}

impl Vector {
    #[inline]
    pub fn new(x: i64, y: i64) -> (r: Vector)
        ensures
            r.x == x,
            r.y == y,
    {
        Vector { x, y }
    }
}

/// `(b - a) x (c - a)`, the doubled signed area of the triangle, positive for
/// counter-clockwise triples under the y-down convention.
pub open spec fn spec_area2(a: Point, b: Point, c: Point) -> int {
    (b.x - a.x) * (c.y - a.y) - (b.y - a.y) * (c.x - a.x)
}

/// The two cross products are negatives of one another.
pub proof fn lemma_area2_cross(a: Point, b: Point, c: Point)
    ensures
        spec_area2(a, b, c) == -spec_cross(a, b, c),
{
    assert(spec_area2(a, b, c) == -spec_cross(a, b, c)) by (nonlinear_arith);
}

/// Numerator of the x offset of the circumcenter from `a`, over the common
/// denominator `2 * spec_area2(a, b, c)`.
pub open spec fn spec_circum_ux(a: Point, b: Point, c: Point) -> int {
    let dx = b.x - a.x;
    let dy = b.y - a.y;
    let ex = c.x - a.x;
    let ey = c.y - a.y;
    let bl = dx * dx + dy * dy;
    let cl = ex * ex + ey * ey;
    ey * bl - dy * cl
}

/// Numerator of the y offset of the circumcenter from `a`.
pub open spec fn spec_circum_uy(a: Point, b: Point, c: Point) -> int {
    let dx = b.x - a.x;
    let dy = b.y - a.y;
    let ex = c.x - a.x;
    let ey = c.y - a.y;
    let bl = dx * dx + dy * dy;
    let cl = ex * ex + ey * ey;
    dx * cl - ex * bl
}

/// The exact circumcenter of `a, b, c` as a rational point: coordinates are
/// `(nx / den, ny / den)` with `den > 0`.  Defined for non-collinear triples.
#[derive(Clone, Copy, Debug, PartialEq, Eq, Structural)]
pub struct CenterPoint {
    pub nx: i128,
    pub ny: i128,
    pub den: i128,
}

impl CenterPoint {
    /// Bounds that every circumcenter of in-bounds points satisfies.
    pub open spec fn in_bounds(self) -> bool {
        &&& 0 < self.den <= 0x2000000
        &&& -0x2000000000 <= self.nx <= 0x2000000000
        &&& -0x2000000000 <= self.ny <= 0x2000000000
    }
}

/// The circumcenter of a non-collinear triple, normalised to a positive
/// denominator.
pub open spec fn spec_circumcenter(a: Point, b: Point, c: Point) -> CenterPoint {
    let d2 = 2 * spec_area2(a, b, c);
    let nx = a.x * d2 + spec_circum_ux(a, b, c);
    let ny = a.y * d2 + spec_circum_uy(a, b, c);
    if d2 >= 0 {
        CenterPoint { nx: nx as i128, ny: ny as i128, den: d2 as i128 }
    } else {
        CenterPoint { nx: (-nx) as i128, ny: (-ny) as i128, den: (-d2) as i128 }
    }
}

/// The squared circumradius of `a, b, c` as the exact rational
/// `num / den`; collinear triples get `den == 0`, standing for an infinite
/// radius.
#[derive(Clone, Copy, Debug, PartialEq, Eq, Structural)]
pub struct Circumradius {
    pub num: i128,
    pub den: i128,
}

/// Numerator of the squared circumradius.
pub open spec fn spec_radius_num(a: Point, b: Point, c: Point) -> int {
    spec_circum_ux(a, b, c) * spec_circum_ux(a, b, c) + spec_circum_uy(a, b, c)
        * spec_circum_uy(a, b, c)
}

/// Denominator of the squared circumradius: `4 * area2 ^ 2`, zero exactly on
/// collinear triples.
pub open spec fn spec_radius_den(a: Point, b: Point, c: Point) -> int {
    4 * spec_area2(a, b, c) * spec_area2(a, b, c)
}

impl Circumradius {
    /// Bounds that every circumradius of in-bounds points satisfies.
    pub open spec fn in_bounds(self) -> bool {
        &&& 0 <= self.num <= 0x2000000000000000000
        &&& 0 <= self.den <= 0x1000000000000
    }

    /// Strict order on squared radii; an infinite radius (`den == 0`)
    /// compares above every finite one.
    pub open spec fn spec_lt(self, other: Circumradius) -> bool {
        if self.den == 0 {
            false
        } else if other.den == 0 {
            true
        } else {
            self.num * other.den < other.num * self.den
        }
    }

    /// The radius is finite.
    pub open spec fn spec_finite(self) -> bool {
        self.den != 0
    }

    /// Exact comparison of two squared circumradii.
    #[inline]
    pub fn lt(&self, other: &Circumradius) -> (r: bool)
        requires
            self.in_bounds(),
            other.in_bounds(),
        ensures
            r == self.spec_lt(*other),
    {
        if self.den == 0 {
            false
        } else if other.den == 0 {
            true
        } else {
            proof {
                lemma_mul_bound(
                    self.num as int,
                    other.den as int,
                    0x2000000000000000000,
                    0x1000000000000,
                );
                lemma_mul_bound(
                    other.num as int,
                    self.den as int,
                    0x2000000000000000000,
                    0x1000000000000,
                );
            }
            self.num * other.den < other.num * self.den
        }
    }
}

/// A collinear triple has an infinite circumradius, a non-collinear one a
/// finite radius.
pub proof fn lemma_radius_finite(a: Point, b: Point, c: Point)
    ensures
        spec_radius_den(a, b, c) == 0 <==> spec_collinear(a, b, c),
{
    lemma_area2_cross(a, b, c);
    let s = spec_area2(a, b, c);
    assert(4 * s * s == 0 <==> s == 0) by (nonlinear_arith);
}

impl Point {
    /// The exact squared circumradius of the circle through `p0, p1, p2`.
    pub fn circumradius(p0: &Point, p1: &Point, p2: &Point) -> (r: Circumradius)
        requires
            p0.in_bounds(),
            p1.in_bounds(),
            p2.in_bounds(),
        ensures
            r.num == spec_radius_num(*p0, *p1, *p2),
            r.den == spec_radius_den(*p0, *p1, *p2),
            r.in_bounds(),
    {
        let (ux, uy, area2) = circum_kernel(p0, p1, p2);
        proof {
            lemma_mul_bound(ux as int, ux as int, 0x1000000000, 0x1000000000);
            lemma_mul_bound(uy as int, uy as int, 0x1000000000, 0x1000000000);
            lemma_mul_bound(area2 as int, area2 as int, 0x800000, 0x800000);
            assert(0 <= ux as int * ux as int) by (nonlinear_arith);
            assert(0 <= uy as int * uy as int) by (nonlinear_arith);
            assert(0 <= area2 as int * area2 as int) by (nonlinear_arith);
            assert(4 * ((area2 as int) * (area2 as int)) == 4 * spec_area2(*p0, *p1, *p2)
                * spec_area2(*p0, *p1, *p2)) by (nonlinear_arith)
                requires
                    area2 as int == spec_area2(*p0, *p1, *p2),
            ;
        }
        Circumradius { num: ux * ux + uy * uy, den: 4 * (area2 * area2) }
    }

    /// The exact circumcenter of the circle through `p0, p1, p2`.
    pub fn circumcenter(p0: &Point, p1: &Point, p2: &Point) -> (r: CenterPoint)
        requires
            p0.in_bounds(),
            p1.in_bounds(),
            p2.in_bounds(),
            !spec_collinear(*p0, *p1, *p2),
        ensures
            r == spec_circumcenter(*p0, *p1, *p2),
            r.in_bounds(),
    {
        let (ux, uy, area2) = circum_kernel(p0, p1, p2);
        proof {
            lemma_area2_cross(*p0, *p1, *p2);
        }
        let d2 = 2 * area2;
        proof {
            lemma_mul_bound(p0.x as int, d2 as int, 0x400, 0x1000000);
            lemma_mul_bound(p0.y as int, d2 as int, 0x400, 0x1000000);
        }
        let nx = (p0.x as i128) * d2 + ux;
        let ny = (p0.y as i128) * d2 + uy;
        if d2 >= 0 {
            CenterPoint { nx, ny, den: d2 }
        } else {
            CenterPoint { nx: -nx, ny: -ny, den: -d2 }
        }
    }

    /// Strict in-circle predicate: `p` lies inside the circle through
    /// `a, b, c` (orientation-consistent with `is_ccw`).
    pub fn in_circle(a: &Point, b: &Point, c: &Point, p: &Point) -> (r: bool)
        requires
            a.in_bounds(),
            b.in_bounds(),
            c.in_bounds(),
            p.in_bounds(),
        ensures
            r == (spec_in_circle_det(*a, *b, *c, *p) < 0),
    {
        let dx = (a.x as i128) - (p.x as i128);
        let dy = (a.y as i128) - (p.y as i128);
        let ex = (b.x as i128) - (p.x as i128);
        let ey = (b.y as i128) - (p.y as i128);
        let fx = (c.x as i128) - (p.x as i128);
        let fy = (c.y as i128) - (p.y as i128);

        proof {
            lemma_mul_bound(dx as int, dx as int, 0x800, 0x800);
            lemma_mul_bound(dy as int, dy as int, 0x800, 0x800);
            lemma_mul_bound(ex as int, ex as int, 0x800, 0x800);
            lemma_mul_bound(ey as int, ey as int, 0x800, 0x800);
            lemma_mul_bound(fx as int, fx as int, 0x800, 0x800);
            lemma_mul_bound(fy as int, fy as int, 0x800, 0x800);
            assert(0 <= dx as int * dx as int) by (nonlinear_arith);
            assert(0 <= dy as int * dy as int) by (nonlinear_arith);
            assert(0 <= ex as int * ex as int) by (nonlinear_arith);
            assert(0 <= ey as int * ey as int) by (nonlinear_arith);
            assert(0 <= fx as int * fx as int) by (nonlinear_arith);
            assert(0 <= fy as int * fy as int) by (nonlinear_arith);
        }
        let ap = dx * dx + dy * dy;
        let bp = ex * ex + ey * ey;
        let cp = fx * fx + fy * fy;

        proof {
            lemma_mul_bound(ey as int, cp as int, 0x800, 0x800000);
            lemma_mul_bound(bp as int, fy as int, 0x800000, 0x800);
            lemma_mul_bound(ex as int, cp as int, 0x800, 0x800000);
            lemma_mul_bound(bp as int, fx as int, 0x800000, 0x800);
            lemma_mul_bound(ex as int, fy as int, 0x800, 0x800);
            lemma_mul_bound(ey as int, fx as int, 0x800, 0x800);
            lemma_mul_bound(dx as int, (ey * cp - bp * fy) as int, 0x800, 0x1000000000);
            lemma_mul_bound(dy as int, (ex * cp - bp * fx) as int, 0x800, 0x1000000000);
            lemma_mul_bound(ap as int, (ex * fy - ey * fx) as int, 0x800000, 0x2000000);
        }
        dx * (ey * cp - bp * fy) - dy * (ex * cp - bp * fx) + ap * (ex * fy - ey * fx) < 0
    }
}

/// Signed in-circle determinant; strictly negative means strictly inside.
pub open spec fn spec_in_circle_det(a: Point, b: Point, c: Point, p: Point) -> int {
    let dx = a.x - p.x;
    let dy = a.y - p.y;
    let ex = b.x - p.x;
    let ey = b.y - p.y;
    let fx = c.x - p.x;
    let fy = c.y - p.y;
    let ap = dx * dx + dy * dy;
    let bp = ex * ex + ey * ey;
    let cp = fx * fx + fy * fy;
    dx * (ey * cp - bp * fy) - dy * (ex * cp - bp * fx) + ap * (ex * fy - ey * fx)
}

/// Shared circumcircle kernel: the two offset numerators and the doubled
/// signed area, each exact and bounded.
fn circum_kernel(p0: &Point, p1: &Point, p2: &Point) -> (r: (i128, i128, i128))
    requires
        p0.in_bounds(),
        p1.in_bounds(),
        p2.in_bounds(),
    ensures
        r.0 == spec_circum_ux(*p0, *p1, *p2),
        r.1 == spec_circum_uy(*p0, *p1, *p2),
        r.2 == spec_area2(*p0, *p1, *p2),
        -0x1000000000 <= r.0 <= 0x1000000000,
        -0x1000000000 <= r.1 <= 0x1000000000,
        -0x800000 <= r.2 <= 0x800000,
{
    let dx = (p1.x as i128) - (p0.x as i128);
    let dy = (p1.y as i128) - (p0.y as i128);
    let ex = (p2.x as i128) - (p0.x as i128);
    let ey = (p2.y as i128) - (p0.y as i128);

    proof {
        lemma_mul_bound(dx as int, dx as int, 0x800, 0x800);
        lemma_mul_bound(dy as int, dy as int, 0x800, 0x800);
        lemma_mul_bound(ex as int, ex as int, 0x800, 0x800);
        lemma_mul_bound(ey as int, ey as int, 0x800, 0x800);
        lemma_mul_bound(dx as int, ey as int, 0x800, 0x800);
        lemma_mul_bound(dy as int, ex as int, 0x800, 0x800);
    }
    let bl = dx * dx + dy * dy;
    let cl = ex * ex + ey * ey;
    proof {
        lemma_mul_bound(ey as int, bl as int, 0x800, 0x800000);
        lemma_mul_bound(dy as int, cl as int, 0x800, 0x800000);
        lemma_mul_bound(dx as int, cl as int, 0x800, 0x800000);
        lemma_mul_bound(ex as int, bl as int, 0x800, 0x800000);
    }
    (ey * bl - dy * cl, dx * cl - ex * bl, dx * ey - dy * ex)
}

/// Rotating a triple leaves the cross product unchanged.
pub proof fn lemma_cross_rotate(a: Point, b: Point, c: Point)
    ensures
        spec_cross(a, b, c) == spec_cross(c, a, b),
{
    assert(spec_cross(a, b, c) == spec_cross(c, a, b)) by (nonlinear_arith);
}

/// Swapping the last two points of a triple flips the cross product's sign.
pub proof fn lemma_cross_swap(a: Point, b: Point, c: Point)
    ensures
        spec_cross(a, c, b) == -spec_cross(a, b, c),
{
    assert(spec_cross(a, c, b) == -spec_cross(a, b, c)) by (nonlinear_arith);
}

/// A triple with a repeated point is collinear; equivalently, a
/// non-collinear triple is pairwise distinct.
pub proof fn lemma_degenerate_collinear(a: Point, b: Point, c: Point)
    ensures
        a == b || b == c || a == c ==> spec_collinear(a, b, c),
{
    assert((a.x == b.x && a.y == b.y) ==> spec_cross(a, b, c) == 0) by (nonlinear_arith);
    assert((b.x == c.x && b.y == c.y) ==> spec_cross(a, b, c) == 0) by (nonlinear_arith);
    assert((a.x == c.x && a.y == c.y) ==> spec_cross(a, b, c) == 0) by (nonlinear_arith);
}

/// Two vectors parallel to one common nonzero direction are parallel to one
/// another.
proof fn lemma_parallel_pair(
    ux: int,
    uy: int,
    vx: int,
    vy: int,
    dx: int,
    dy: int,
)
    requires
        ux * dy - uy * dx == 0,
        vx * dy - vy * dx == 0,
        dx != 0 || dy != 0,
    ensures
        ux * vy - uy * vx == 0,
{
    assert((ux * vy - uy * vx) * dx == 0) by (nonlinear_arith)
        requires
            ux * dy - uy * dx == 0,
            vx * dy - vy * dx == 0,
    ;
    assert((ux * vy - uy * vx) * dy == 0) by (nonlinear_arith)
        requires
            ux * dy - uy * dx == 0,
            vx * dy - vy * dx == 0,
    ;
    if dx != 0 {
        assert(ux * vy - uy * vx == 0) by (nonlinear_arith)
            requires
                (ux * vy - uy * vx) * dx == 0,
                dx != 0,
        ;
    } else {
        assert(ux * vy - uy * vx == 0) by (nonlinear_arith)
            requires
                (ux * vy - uy * vx) * dy == 0,
                dy != 0,
        ;
    }
}

/// Three points, each collinear with one fixed pair of distinct points, are
/// collinear with one another.
pub proof fn lemma_three_on_line(q0: Point, q1: Point, a: Point, b: Point, c: Point)
    requires
        q0 != q1,
        spec_collinear(q0, q1, a),
        spec_collinear(q0, q1, b),
        spec_collinear(q0, q1, c),
    ensures
        spec_collinear(a, b, c),
{
    let dx = q1.x - q0.x;
    let dy = q1.y - q0.y;
    let wax = a.x - q0.x;
    let way = a.y - q0.y;
    let wbx = b.x - q0.x;
    let wby = b.y - q0.y;
    let wcx = c.x - q0.x;
    let wcy = c.y - q0.y;
    assert(spec_cross(q0, q1, a) == wax * dy - way * dx) by (nonlinear_arith)
        requires
            dx == q1.x - q0.x,
            dy == q1.y - q0.y,
            wax == a.x - q0.x,
            way == a.y - q0.y,
    ;
    assert(spec_cross(q0, q1, b) == wbx * dy - wby * dx) by (nonlinear_arith)
        requires
            dx == q1.x - q0.x,
            dy == q1.y - q0.y,
            wbx == b.x - q0.x,
            wby == b.y - q0.y,
    ;
    assert(spec_cross(q0, q1, c) == wcx * dy - wcy * dx) by (nonlinear_arith)
        requires
            dx == q1.x - q0.x,
            dy == q1.y - q0.y,
            wcx == c.x - q0.x,
            wcy == c.y - q0.y,
    ;
    assert(dx != 0 || dy != 0);
    lemma_parallel_pair(wax, way, wbx, wby, dx, dy);
    lemma_parallel_pair(wax, way, wcx, wcy, dx, dy);
    lemma_parallel_pair(wbx, wby, wcx, wcy, dx, dy);
    assert(spec_cross(a, b, c) == 0) by (nonlinear_arith)
        requires
            wax * wby - way * wbx == 0,
            wax * wcy - way * wcx == 0,
            wbx * wcy - wby * wcx == 0,
            wax == a.x - q0.x,
            way == a.y - q0.y,
            wbx == b.x - q0.x,
            wby == b.y - q0.y,
            wcx == c.x - q0.x,
            wcy == c.y - q0.y,
    ;
}

/// The circumradius numerator and denominator of in-bounds points stay
/// within the `Circumradius` bounds.
pub proof fn lemma_radius_bounds(a: Point, b: Point, c: Point)
    requires
        a.in_bounds(),
        b.in_bounds(),
        c.in_bounds(),
    ensures
        0 <= spec_radius_num(a, b, c) <= 0x2000000000000000000,
        0 <= spec_radius_den(a, b, c) <= 0x1000000000000,
{
    let dx = b.x - a.x;
    let dy = b.y - a.y;
    let ex = c.x - a.x;
    let ey = c.y - a.y;
    lemma_mul_bound(dx, dx, 0x800, 0x800);
    lemma_mul_bound(dy, dy, 0x800, 0x800);
    lemma_mul_bound(ex, ex, 0x800, 0x800);
    lemma_mul_bound(ey, ey, 0x800, 0x800);
    let bl = dx * dx + dy * dy;
    let cl = ex * ex + ey * ey;
    lemma_mul_bound(ey, bl, 0x800, 0x800000);
    lemma_mul_bound(dy, cl, 0x800, 0x800000);
    lemma_mul_bound(dx, cl, 0x800, 0x800000);
    lemma_mul_bound(ex, bl, 0x800, 0x800000);
    let ux = spec_circum_ux(a, b, c);
    let uy = spec_circum_uy(a, b, c);
    lemma_mul_bound(ux, ux, 0x1000000000, 0x1000000000);
    lemma_mul_bound(uy, uy, 0x1000000000, 0x1000000000);
    assert(0 <= ux * ux) by (nonlinear_arith);
    assert(0 <= uy * uy) by (nonlinear_arith);
    let s = spec_area2(a, b, c);
    lemma_area2_cross(a, b, c);
    lemma_cross_bound(a, b, c);
    assert(0 <= 4 * s * s <= 0x1000000000000) by (nonlinear_arith)
        requires
            -0x800000 <= s <= 0x800000,
    ;
}

/// Transitivity step for the circumradius order: `a < b` and `b <= c`
/// (both finite) force `a < c`.
pub proof fn lemma_radius_lt_trans(a: Circumradius, b: Circumradius, c: Circumradius)
    requires
        a.den > 0,
        b.den > 0,
        c.den > 0,
        a.spec_lt(b),
        !c.spec_lt(b),
    ensures
        a.spec_lt(c),
{
    let an = a.num as int;
    let ad = a.den as int;
    let bn = b.num as int;
    let bd = b.den as int;
    let cn = c.num as int;
    let cd = c.den as int;
    assert(an * bd * cd < bn * ad * cd) by (nonlinear_arith)
        requires
            an * bd < bn * ad,
            cd > 0,
    ;
    assert(bn * ad * cd <= cn * bd * ad) by (nonlinear_arith)
        requires
            bn * cd <= cn * bd,
            ad > 0,
    ;
    assert((an * cd) * bd < (cn * ad) * bd) by (nonlinear_arith)
        requires
            an * bd * cd < bn * ad * cd,
            bn * ad * cd <= cn * bd * ad,
    ;
    assert(an * cd < cn * ad) by (nonlinear_arith)
        requires
            (an * cd) * bd < (cn * ad) * bd,
            bd > 0,
    ;
}

/// Squared Euclidean distance between two points.
pub open spec fn spec_distance_squared(a: Point, b: Point) -> int {
    (b.x - a.x) * (b.x - a.x) + (b.y - a.y) * (b.y - a.y)
}

/// Squared Euclidean distance, exact in `i64`.
#[inline]
pub fn distance_squared(a: &Point, b: &Point) -> (r: i64)
    requires
        a.in_bounds(),
        b.in_bounds(),
    ensures
        r == spec_distance_squared(*a, *b),
        0 <= r <= 8388608,
{
    proof {
        lemma_mul_bound(b.x - a.x, b.x - a.x, 2048, 2048);
        lemma_mul_bound(b.y - a.y, b.y - a.y, 2048, 2048);
        assert(0 <= (b.x - a.x) * (b.x - a.x)) by (nonlinear_arith);
        assert(0 <= (b.y - a.y) * (b.y - a.y)) by (nonlinear_arith);
    }
    (b.x - a.x) * (b.x - a.x) + (b.y - a.y) * (b.y - a.y)
}

} // verus!

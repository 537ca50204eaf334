//! Exact-value checks of the geometric predicates.

use triangulate::Application;
use triangulate::CenterPoint;
use triangulate::Point;
use triangulate::Settings;
use triangulate::default_number;

#[test]
fn ccw_follows_the_y_down_convention() {
    let a = Point::new(0, 0);
    let b = Point::new(1, 0);
    let c = Point::new(0, 1);
    // Cross product (b - a) x (c - b) is -1: counter-clockwise under y-down.
    assert!(Point::is_ccw(&a, &b, &c));
    assert!(!Point::is_ccw(&a, &c, &b));
}

#[test]
fn collinear_is_never_ccw() {
    let a = Point::new(0, 0);
    let b = Point::new(5, 5);
    let c = Point::new(10, 10);
    assert!(!Point::is_ccw(&a, &b, &c));
    assert!(!Point::is_ccw(&a, &c, &b));
}

#[test]
fn nearly_equals_is_exact_at_integer_resolution() {
    let a = Point::new(3, -7);
    assert!(Point::nearly_equals(&a, &Point::new(3, -7)));
    assert!(!Point::nearly_equals(&a, &Point::new(3, -6)));
    assert!(!Point::nearly_equals(&a, &Point::new(4, -7)));
}

#[test]
fn in_circle_signs() {
    let a = Point::new(0, 0);
    let b = Point::new(0, 4);
    let c = Point::new(4, 0);
    // Circle through the three points: centre (2, 2), squared radius 8.
    // With this corner order the determinant is negative strictly inside.
    assert!(Point::in_circle(&a, &b, &c, &Point::new(1, 1)));
    assert!(!Point::in_circle(&a, &b, &c, &Point::new(5, 5)));
    // A point on the circle is not strictly inside.
    assert!(!Point::in_circle(&a, &b, &c, &Point::new(4, 4)));
}

#[test]
fn circumcenter_exact() {
    let a = Point::new(0, 0);
    let b = Point::new(4, 0);
    let c = Point::new(0, 4);
    let cc: CenterPoint = Point::circumcenter(&a, &b, &c);
    assert!(cc.den > 0);
    // The circumcenter is exactly (2, 2).
    assert_eq!(cc.nx, 2 * cc.den);
    assert_eq!(cc.ny, 2 * cc.den);
}

#[test]
fn circumradius_exact_and_ordered() {
    let a = Point::new(0, 0);
    let b = Point::new(4, 0);
    let c = Point::new(0, 4);
    let r = Point::circumradius(&a, &b, &c);
    // Squared circumradius is exactly 8.
    assert_eq!(r.num, 8 * r.den);
    assert!(r.den > 0);

    let small = Point::circumradius(&Point::new(0, 0), &Point::new(2, 0), &Point::new(0, 2));
    assert!(small.lt(&r));
    assert!(!r.lt(&small));
    assert!(!r.lt(&r));
}

#[test]
fn settings_feed_the_application() {
    let s = Settings::new(250, 99);
    assert_eq!(s.number(), 250);
    assert_eq!(s.seed(), 99);
    let app = Application::from_settings(&s).unwrap();
    assert_eq!(app.number(), 250);
    assert_eq!(app.seed(), 99);
    assert_eq!(default_number(), 100);
}

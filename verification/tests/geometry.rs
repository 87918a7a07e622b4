use platformer::common::{map_range, relative_point, HEIGHT, MIDDLE_X, MIDDLE_Y, WIDTH};
use platformer::fixed::ONE;
use platformer::geometry::{Point2, Rect, Vector2};
use platformer::physics::{apply_force, apply_gravity, limit, PhysicsHelper, SafeNormalization};
use platformer::components::{Acceleration, Position, Velocity};

fn fx(n: i64) -> i64 {
    n * ONE
}

#[test]
fn vector_arithmetic() {
    let v = Vector2::new(fx(1), fx(-2));
    let w = Vector2::new(fx(3), fx(5));
    assert_eq!(v.plus(&w), Vector2 { x: fx(4), y: fx(3) });
    assert_eq!(v.negated(), Vector2 { x: fx(-1), y: fx(2) });
    assert_eq!(v.scaled(fx(3)), Vector2 { x: fx(3), y: fx(-6) });
    assert_eq!(w.unscaled(fx(2)), Vector2 { x: 98304, y: 163840 });
    assert_eq!(Vector2::new(fx(3), fx(4)).magnitude(), fx(5));
}

#[test]
fn point_arithmetic() {
    let p = Point2::new(fx(10), fx(20));
    let v = Vector2::new(fx(1), fx(-2));
    assert_eq!(p.moved(&v), Point2 { x: fx(11), y: fx(18) });
    assert_eq!(p.moved_back(&v), Point2 { x: fx(9), y: fx(22) });
}

#[test]
fn rectangle_edges() {
    let r = Rect::new(fx(1), fx(2), fx(3), fx(4));
    assert_eq!(r.left(), fx(1));
    assert_eq!(r.right(), fx(4));
    assert_eq!(r.top(), fx(2));
    assert_eq!(r.bottom(), fx(6));
}

#[test]
fn rectangle_contains_its_edges() {
    let r = Rect::new(0, 0, fx(10), fx(10));
    assert!(r.contains(Point2::new(0, 0)));
    assert!(r.contains(Point2::new(fx(10), fx(10))));
    assert!(r.contains(Point2::new(fx(5), fx(5))));
    assert!(!r.contains(Point2::new(fx(10) + 1, fx(5))));
    assert!(!r.contains(Point2::new(fx(5), -1)));
}

#[test]
fn overlap_needs_a_shared_area() {
    let a = Rect::new(0, 0, fx(10), fx(10));
    assert!(a.overlaps(&Rect::new(fx(5), fx(5), fx(10), fx(10))));
    assert!(a.overlaps(&Rect::new(fx(10) - 1, 0, fx(10), fx(10))));
    // touching along an edge
    assert!(!a.overlaps(&Rect::new(fx(10), 0, fx(10), fx(10))));
    assert!(!a.overlaps(&Rect::new(0, fx(10), fx(10), fx(10))));
    assert!(!a.overlaps(&Rect::new(fx(-10), 0, fx(10), fx(10))));
    // apart
    assert!(!a.overlaps(&Rect::new(fx(20), fx(20), fx(1), fx(1))));
}

#[test]
fn box_without_area_overlaps_nothing() {
    let a = Rect::new(0, 0, fx(10), fx(10));
    let line = Rect::new(fx(5), fx(-5), 0, fx(20));
    let flat = Rect::new(fx(-5), fx(5), fx(20), 0);
    assert!(!a.overlaps(&line));
    assert!(!line.overlaps(&a));
    assert!(!a.overlaps(&flat));
    assert!(!flat.overlaps(&a));
}

#[test]
fn translate_moves_the_corner_and_keeps_the_size() {
    let mut r = Rect::new(fx(-16), fx(-32), fx(32), fx(32));
    r.translate(Vector2::new(fx(100), fx(200)));
    assert_eq!(r, Rect { x: fx(84), y: fx(168), w: fx(32), h: fx(32) });
}

#[test]
fn normalize_safe_maps_zero_to_zero() {
    assert_eq!(Vector2::new(0, 0).normalize_safe(), Vector2 { x: 0, y: 0 });
}

#[test]
fn normalize_safe_gives_a_unit_vector() {
    assert_eq!(Vector2::new(fx(5), 0).normalize_safe(), Vector2 { x: ONE, y: 0 });
    assert_eq!(Vector2::new(0, fx(-2)).normalize_safe(), Vector2 { x: 0, y: -ONE });
    // (3, 4) / 5 = (0.6, 0.8), rounded toward zero
    assert_eq!(Vector2::new(fx(3), fx(4)).normalize_safe(), Vector2 { x: 39321, y: 52428 });
}

#[test]
fn limit_caps_the_magnitude_and_keeps_the_sign() {
    assert_eq!(limit(fx(5), fx(10)), fx(5));
    assert_eq!(limit(fx(15), fx(10)), fx(10));
    assert_eq!(limit(fx(-15), fx(10)), fx(-10));
    assert_eq!(limit(fx(10), fx(10)), fx(10));
    assert_eq!(limit(fx(-10), fx(10)), fx(-10));
    assert_eq!(limit(0, fx(10)), 0);
    assert_eq!(limit(i64::MIN, i64::MAX), -i64::MAX);
}

#[test]
fn force_is_divided_by_mass() {
    let mut a = Vector2::new(fx(1), fx(1));
    apply_force(&mut a, &Vector2::new(fx(10), fx(-20)), fx(10));
    assert_eq!(a, Vector2 { x: fx(2), y: fx(-1) });
}

#[test]
fn gravity_is_added_as_it_is() {
    let mut a = Vector2::new(fx(1), fx(1));
    apply_gravity(&mut a, &Vector2::new(0, 13107));
    assert_eq!(a, Vector2 { x: fx(1), y: fx(1) + 13107 });
}

#[test]
fn acceleration_gathers_forces_in_a_chain() {
    let mut a = Acceleration::new(0, 0);
    a.apply_force(&Vector2::new(fx(10), 0), fx(10)).apply_gravity(&Vector2::new(0, fx(3)));
    assert_eq!(a, Acceleration(Vector2 { x: fx(1), y: fx(3) }));
}

#[test]
fn component_constructors() {
    assert_eq!(Velocity::new(1, 2), Velocity(Vector2 { x: 1, y: 2 }));
    assert_eq!(Velocity::default(), Velocity(Vector2 { x: 0, y: 0 }));
    assert_eq!(Acceleration::new(3, 4), Acceleration(Vector2 { x: 3, y: 4 }));
    assert_eq!(Position::new(5, 6), Position(Point2 { x: 5, y: 6 }));
}

#[test]
fn viewport_constants() {
    assert_eq!(WIDTH, fx(1280));
    assert_eq!(HEIGHT, fx(720));
    assert_eq!(MIDDLE_X, fx(640));
    assert_eq!(MIDDLE_Y, fx(360));
}

#[test]
fn relative_point_puts_the_camera_in_the_middle() {
    let camera = Vector2::new(fx(1000), fx(500));
    assert_eq!(relative_point(camera, Point2::new(fx(1000), fx(500))), Point2 { x: fx(640), y: fx(360) });
    assert_eq!(relative_point(camera, Point2::new(fx(900), fx(600))), Point2 { x: fx(540), y: fx(460) });
}

#[test]
fn map_range_carries_a_value_between_ranges() {
    assert_eq!(map_range(fx(5), 0, fx(10), 0, fx(100)), fx(50));
    assert_eq!(map_range(fx(2), fx(1), fx(3), fx(10), fx(20)), fx(15));
}

use platformer::components::{
    Acceleration, Components, Gravity, Grounded, Mass, Position, Velocity,
};
use platformer::config::PhysicsConfig;
use platformer::fixed::ONE;
use platformer::geometry::{Point2, Vector2};
use platformer::integrator::{
    accumulate, accumulate_forces, friction, integrate, integrate_all, physics_pass, snap,
};

fn fx(n: i64) -> i64 {
    n * ONE
}

fn config() -> PhysicsConfig {
    PhysicsConfig {
        max_horizontal_velocity: fx(10),
        max_vertical_velocity: fx(8),
        friction: ONE / 2,
        normal_force: ONE,
        gravity: ONE / 4,
        movement_deadzone: ONE / 16,
    }
}

fn body(velocity: Vector2, acceleration: Vector2, gravity: Vector2, grounded: Option<bool>) -> Components {
    let mut c = Components::empty();
    c.position = Some(Position::new(fx(100), fx(100)));
    c.velocity = Some(Velocity(velocity));
    c.acceleration = Some(Acceleration(acceleration));
    c.gravity = Some(Gravity(gravity));
    c.mass = Some(Mass(fx(2)));
    c.grounded = grounded.map(Grounded);
    c
}

#[test]
fn default_physics_configuration() {
    let c = PhysicsConfig::default();
    assert_eq!(c.max_horizontal_velocity, fx(10));
    assert_eq!(c.max_vertical_velocity, fx(10));
    assert_eq!(c.friction, 32768);
    assert_eq!(c.normal_force, ONE);
    assert_eq!(c.gravity, 13107);
    assert_eq!(c.movement_deadzone, 7);
}

#[test]
fn snap_is_exclusive_at_the_deadzone() {
    let d = ONE / 16;
    assert_eq!(snap(d - 1, d), 0);
    assert_eq!(snap(-(d - 1), d), 0);
    assert_eq!(snap(d, d), d);
    assert_eq!(snap(-d, d), -d);
    assert_eq!(snap(d + 1, d), d + 1);
    assert_eq!(snap(0, d), 0);
    assert_eq!(snap(5, 0), 5);
    assert_eq!(snap(i64::MIN, 1), i64::MIN);
}

#[test]
fn friction_opposes_the_motion() {
    let c = config();
    assert_eq!(friction(&Velocity::new(fx(3), 0), &c), Vector2 { x: -ONE / 2, y: 0 });
    assert_eq!(friction(&Velocity::new(fx(-3), 0), &c), Vector2 { x: ONE / 2, y: 0 });
    assert_eq!(friction(&Velocity::new(0, 0), &c), Vector2 { x: 0, y: 0 });
}

#[test]
fn friction_is_gathered_only_when_grounded() {
    let c = config();
    let mut a = Acceleration::new(fx(1), 0);
    accumulate(&mut a, &Velocity::new(fx(3), 0), &Mass(fx(2)), false, &c);
    assert_eq!(a, Acceleration::new(fx(1), 0));
    accumulate(&mut a, &Velocity::new(fx(3), 0), &Mass(fx(2)), true, &c);
    // friction of one half against the motion, divided by a mass of two
    assert_eq!(a, Acceleration::new(fx(1) - ONE / 4, 0));
}

#[test]
fn integration_follows_its_six_steps() {
    let c = config();
    let mut a = Acceleration::new(fx(1), fx(1));
    let mut v = Velocity::new(fx(2), fx(-3));
    let mut p = Position::new(fx(100), fx(200));
    integrate(&mut a, &mut v, &mut p, &Gravity(Vector2::new(0, ONE / 4)), &c);
    assert_eq!(a, Acceleration::new(0, 0));
    assert_eq!(v, Velocity::new(fx(3), fx(-2) + ONE / 4));
    assert_eq!(p, Position::new(fx(103), fx(198) + ONE / 4));
}

#[test]
fn integration_caps_each_axis_with_its_own_limit() {
    let c = config();
    let mut a = Acceleration::new(fx(50), fx(50));
    let mut v = Velocity::new(0, 0);
    let mut p = Position::new(0, 0);
    integrate(&mut a, &mut v, &mut p, &Gravity(Vector2::new(0, 0)), &c);
    assert_eq!(v, Velocity::new(fx(10), fx(8)));
    assert_eq!(p, Position::new(fx(10), fx(8)));
    let mut a = Acceleration::new(fx(-50), fx(-50));
    integrate(&mut a, &mut v, &mut p, &Gravity(Vector2::new(0, 0)), &c);
    assert_eq!(v, Velocity::new(fx(-10), fx(-8)));
    assert_eq!(p, Position::new(0, 0));
}

#[test]
fn deadzone_snaps_after_the_cap_and_before_the_move() {
    let c = config();
    let d = c.movement_deadzone;
    let mut a = Acceleration::new(d - 1, d);
    let mut v = Velocity::new(0, 0);
    let mut p = Position::new(fx(5), fx(5));
    integrate(&mut a, &mut v, &mut p, &Gravity(Vector2::new(0, 0)), &c);
    assert_eq!(v, Velocity::new(0, d));
    assert_eq!(p, Position::new(fx(5), fx(5) + d));
}

#[test]
fn constant_force_converges_to_the_limit() {
    let c = config();
    let mut v = Velocity::new(0, 0);
    let mut p = Position::new(0, 0);
    let mut seen_limit = false;
    for _ in 0..40 {
        let mut a = Acceleration::new(ONE, 0);
        integrate(&mut a, &mut v, &mut p, &Gravity(Vector2::new(0, 0)), &c);
        assert!(v.0.x <= fx(10));
        if v.0.x == fx(10) {
            seen_limit = true;
        } else {
            assert!(!seen_limit);
        }
    }
    assert_eq!(v.0.x, fx(10));
    for _ in 0..60 {
        let mut a = Acceleration::new(-ONE, 0);
        integrate(&mut a, &mut v, &mut p, &Gravity(Vector2::new(0, 0)), &c);
        assert!(v.0.x >= fx(-10));
    }
    assert_eq!(v.0.x, fx(-10));
}

#[test]
fn acceleration_is_zero_after_integration() {
    let c = config();
    let mut table = vec![
        body(Vector2::new(fx(1), 0), Vector2::new(fx(7), fx(-9)), Vector2::new(0, ONE), Some(true)),
        body(Vector2::new(0, 0), Vector2::new(i64::MAX, i64::MIN), Vector2::new(0, 0), None),
    ];
    physics_pass(&mut table, &c);
    assert_eq!(table[0].acceleration, Some(Acceleration::new(0, 0)));
    assert_eq!(table[1].acceleration, Some(Acceleration::new(0, 0)));
}

#[test]
fn rest_is_kept_over_many_ticks() {
    let c = config();
    let mut table = vec![body(Vector2::new(0, 0), Vector2::new(0, 0), Vector2::new(0, 0), Some(true))];
    for _ in 0..100 {
        physics_pass(&mut table, &c);
        assert_eq!(table[0].position, Some(Position::new(fx(100), fx(100))));
        assert_eq!(table[0].velocity, Some(Velocity::new(0, 0)));
        assert_eq!(table[0].acceleration, Some(Acceleration::new(0, 0)));
    }
}

#[test]
fn entities_without_the_attributes_are_left_alone() {
    let c = config();
    let mut no_gravity = body(Vector2::new(fx(1), 0), Vector2::new(fx(1), 0), Vector2::new(0, 0), None);
    no_gravity.gravity = None;
    let mut no_mass = body(Vector2::new(fx(1), 0), Vector2::new(0, 0), Vector2::new(0, 0), Some(true));
    no_mass.mass = None;
    let mut table = vec![no_gravity, no_mass, Components::empty()];
    accumulate_forces(&mut table, &c);
    assert_eq!(table[0].acceleration, Some(Acceleration::new(fx(1), 0)));
    assert_eq!(table[1].acceleration, Some(Acceleration::new(0, 0)));
    integrate_all(&mut table, &c);
    assert_eq!(table[0].position, Some(Position::new(fx(100), fx(100))));
    assert_eq!(table[0].velocity, Some(Velocity::new(fx(1), 0)));
    assert_eq!(table[0].acceleration, Some(Acceleration::new(fx(1), 0)));
    assert_eq!(table[1].position, Some(Position::new(fx(101), fx(100))));
    assert!(table[2].position.is_none());
}

#[test]
fn physics_pass_is_friction_then_integration() {
    let c = config();
    let mut table = vec![body(
        Vector2::new(fx(4), 0),
        Vector2::new(0, 0),
        Vector2::new(0, ONE / 4),
        Some(true),
    )];
    physics_pass(&mut table, &c);
    // friction -0.5 over mass 2 slows 4 down to 3.75; gravity adds 0.25 downward
    assert_eq!(table[0].velocity, Some(Velocity::new(fx(4) - ONE / 4, ONE / 4)));
    assert_eq!(
        table[0].position,
        Some(Position(Point2 { x: fx(104) - ONE / 4, y: fx(100) + ONE / 4 }))
    );
    assert_eq!(table[0].grounded, Some(Grounded(true)));
}

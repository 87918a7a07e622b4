//! Force accumulation and integration of one tick.
//!
//! Neither stage looks at the level: integration runs the same whatever
//! geometry is loaded, and the collision pass corrects its result.

use crate::components::{Acceleration, Components, Gravity, Mass, Position, Velocity};
use crate::config::PhysicsConfig;
use crate::fixed::{fx_mul, spec_fx_add, spec_fx_mul};
use crate::geometry::Vector2;
use crate::physics::{limit, spec_limit, PhysicsHelper, SafeNormalization};
use vstd::prelude::*;

verus! {

/// The friction on a body that slides with `velocity`: a force against the
/// motion, as strong as the friction coefficient times the normal force.
pub open spec fn spec_friction(velocity: Vector2, cfg: PhysicsConfig) -> Vector2 {
    velocity.spec_negated().spec_normalize_safe().spec_scaled(
        spec_fx_mul(cfg.friction, cfg.normal_force),
    )
}

/// `v`, or zero where `v` is closer to zero than the deadzone.
pub open spec fn spec_snap(v: i64, deadzone: i64) -> i64 {
    if vstd::math::abs(v as int) < deadzone {
        0
    } else {
        v
    }
}

/// The velocity after integration: the sum capped per axis, then snapped
/// per axis.
pub open spec fn spec_next_velocity(v: Vector2, a: Vector2, cfg: PhysicsConfig) -> Vector2 {
    let sum = v.spec_plus(a);
    Vector2 {
        x: spec_snap(spec_limit(sum.x, cfg.max_horizontal_velocity), cfg.movement_deadzone),
        y: spec_snap(spec_limit(sum.y, cfg.max_vertical_velocity), cfg.movement_deadzone),
    }
}

/// Force accumulation applies to an entity with an acceleration, a
/// velocity, a mass and the grounded flag.
pub open spec fn takes_friction(c: Components) -> bool {
    c.acceleration is Some && c.velocity is Some && c.mass is Some && c.grounded is Some
}

/// Integration applies to an entity with an acceleration, a velocity, a
/// position and a gravity.
pub open spec fn is_integrated(c: Components) -> bool {
    c.acceleration is Some && c.velocity is Some && c.position is Some && c.gravity is Some
}

/// The entity after force accumulation: friction, divided by the mass,
/// joins the acceleration of a grounded entity.
pub open spec fn spec_accumulate(c: Components, cfg: PhysicsConfig) -> Components {
    if takes_friction(c) && c.is_grounded() {
        Components {
            acceleration: Some(
                Acceleration(c.accel()).with_force(spec_friction(c.motion(), cfg), c.inertia()),
            ),
            ..c
        }
    } else {
        c
    }
}

/// The entity after integration: gravity joins the acceleration, the
/// acceleration joins the velocity and is reset, the velocity is capped
/// and snapped, and the position moves by the velocity.
pub open spec fn spec_integrate(c: Components, cfg: PhysicsConfig) -> Components {
    if is_integrated(c) {
        let a = Acceleration(c.accel()).with_gravity(c.pull());
        let v = spec_next_velocity(c.motion(), a.0, cfg);
        Components {
            acceleration: Some(Acceleration(Vector2::zero())),
            velocity: Some(Velocity(v)),
            position: Some(Position(c.point().spec_moved(v))),
            ..c
        }
    } else {
        c
    }
}

/// The entity after both stages of one tick.
pub open spec fn spec_physics_step(c: Components, cfg: PhysicsConfig) -> Components {
    spec_integrate(spec_accumulate(c, cfg), cfg)
}

/// Snaps a velocity component inside the deadzone to zero.
pub fn snap(v: i64, deadzone: i64) -> (r: i64)
    ensures
        r == spec_snap(v, deadzone),
{
    let inside = if v >= 0 {
        v < deadzone
    } else {
        -(v as i128) < deadzone as i128
    };
    if inside {
        0
    } else {
        v
    }
}

/// The friction force on a body that slides with `velocity`.
pub fn friction(velocity: &Velocity, cfg: &PhysicsConfig) -> (f: Vector2)
    ensures
        f == spec_friction(velocity.0, *cfg),
{
    let direction = velocity.0.negated().normalize_safe();
    direction.scaled(fx_mul(cfg.friction, cfg.normal_force))
}

/// Force accumulation for one entity.
pub fn accumulate(
    acceleration: &mut Acceleration,
    velocity: &Velocity,
    mass: &Mass,
    grounded: bool,
    cfg: &PhysicsConfig,
)
    ensures
        *final(acceleration) == if grounded {
            old(acceleration).with_force(spec_friction(velocity.0, *cfg), mass.0)
        } else {
            *old(acceleration)
        },
{
    if grounded {
        let f = friction(velocity, cfg);
        acceleration.apply_force(&f, mass.0);
    }
}

/// Integration for one entity.
pub fn integrate(
    acceleration: &mut Acceleration,
    velocity: &mut Velocity,
    position: &mut Position,
    gravity: &Gravity,
    cfg: &PhysicsConfig,
)
    ensures
        *final(acceleration) == Acceleration(Vector2::zero()),
        *final(velocity) == Velocity(
            spec_next_velocity(old(velocity).0, old(acceleration).with_gravity(gravity.0).0, *cfg),
        ),
        *final(position) == Position(old(position).0.spec_moved(final(velocity).0)),
{
    acceleration.apply_gravity(&gravity.0);
    let sum = velocity.0.plus(&acceleration.0);
    *acceleration = Acceleration::new(0, 0);
    let vx = snap(limit(sum.x, cfg.max_horizontal_velocity), cfg.movement_deadzone);
    let vy = snap(limit(sum.y, cfg.max_vertical_velocity), cfg.movement_deadzone);
    *velocity = Velocity::new(vx, vy);
    *position = Position(position.0.moved(&velocity.0));
}

/// Force accumulation over the whole table.
pub fn accumulate_forces(entities: &mut Vec<Components>, cfg: &PhysicsConfig)
    ensures
        final(entities)@.len() == old(entities)@.len(),
        forall|i: int|
            0 <= i < old(entities)@.len() ==> #[trigger] final(entities)@[i] == spec_accumulate(
                old(entities)@[i],
                *cfg,
            ),
{
    let n = entities.len();
    let mut i: usize = 0;
    while i < n
        invariant
            i <= n,
            n == entities.len(),
            n == old(entities)@.len(),
            forall|k: int|
                0 <= k < i ==> #[trigger] entities@[k] == spec_accumulate(old(entities)@[k], *cfg),
            forall|k: int| i <= k < n ==> #[trigger] entities@[k] == old(entities)@[k],
        decreases n - i,
    {
        let c = &mut entities[i];
        match (c.acceleration, c.velocity, c.mass, c.grounded) {
            (Some(mut a), Some(v), Some(m), Some(g)) => {
                accumulate(&mut a, &v, &m, g.0, cfg);
                c.acceleration = Some(a);
            },
            _ => {},
        }
        i += 1;
    }
}

/// Integration over the whole table.
pub fn integrate_all(entities: &mut Vec<Components>, cfg: &PhysicsConfig)
    ensures
        final(entities)@.len() == old(entities)@.len(),
        forall|i: int|
            0 <= i < old(entities)@.len() ==> #[trigger] final(entities)@[i] == spec_integrate(
                old(entities)@[i],
                *cfg,
            ),
{
    let n = entities.len();
    let mut i: usize = 0;
    while i < n
        invariant
            i <= n,
            n == entities.len(),
            n == old(entities)@.len(),
            forall|k: int|
                0 <= k < i ==> #[trigger] entities@[k] == spec_integrate(old(entities)@[k], *cfg),
            forall|k: int| i <= k < n ==> #[trigger] entities@[k] == old(entities)@[k],
        decreases n - i,
    {
        let c = &mut entities[i];
        match (c.acceleration, c.velocity, c.position, c.gravity) {
            (Some(mut a), Some(mut v), Some(mut p), Some(g)) => {
                integrate(&mut a, &mut v, &mut p, &g, cfg);
                c.acceleration = Some(a);
                c.velocity = Some(v);
                c.position = Some(p);
            },
            _ => {},
        }
        i += 1;
    }
}

/// One tick of physics over the whole table: force accumulation, then
/// integration.
pub fn physics_pass(entities: &mut Vec<Components>, cfg: &PhysicsConfig)
    ensures
        final(entities)@.len() == old(entities)@.len(),
        forall|i: int|
            0 <= i < old(entities)@.len() ==> #[trigger] final(entities)@[i] == spec_physics_step(
                old(entities)@[i],
                *cfg,
            ),
{
    accumulate_forces(entities, cfg);
    integrate_all(entities, cfg);
}

} // verus!

verus! {

/// The entity after `n` ticks of physics.
pub open spec fn spec_physics_steps(c: Components, cfg: PhysicsConfig, n: nat) -> Components
    decreases n,
{
    if n == 0 {
        c
    } else {
        spec_physics_step(spec_physics_steps(c, cfg, (n - 1) as nat), cfg)
    }
}

/// One velocity component after `n` ticks under the constant acceleration
/// `a`, with the limit `max` and the given deadzone.
pub open spec fn spec_velocity_after(v: i64, a: i64, max: i64, deadzone: i64, n: nat) -> i64
    decreases n,
{
    if n == 0 {
        v
    } else {
        spec_snap(
            spec_limit(spec_fx_add(spec_velocity_after(v, a, max, deadzone, (n - 1) as nat), a), max),
            deadzone,
        )
    }
}

/// An entity is at rest when whatever it has of velocity, acceleration and
/// gravity is zero.
pub open spec fn at_rest(c: Components) -> bool {
    &&& c.velocity is Some ==> c.motion() == Vector2::zero()
    &&& c.acceleration is Some ==> c.accel() == Vector2::zero()
    &&& c.gravity is Some ==> c.pull() == Vector2::zero()
}

/// Friction on a body that does not move is zero.
pub proof fn lemma_no_friction_at_rest(cfg: PhysicsConfig)
    ensures
        spec_friction(Vector2::zero(), cfg) == Vector2::zero(),
{
    assert(0int * 0int == 0 && (0int + 1) * (0int + 1) == 1) by (nonlinear_arith);
    crate::fixed::lemma_int_sqrt_is(0, 0);
    let s = spec_fx_mul(cfg.friction, cfg.normal_force);
    assert(0 * s == 0) by (nonlinear_arith);
    assert(0int / (crate::fixed::ONE as int) == 0);
}

/// A force of zero adds nothing, whatever the mass.
pub proof fn lemma_zero_force(a: Acceleration, mass: i64)
    ensures
        a.with_force(Vector2::zero(), mass) == a,
{
    if mass != 0 {
        let d = vstd::math::abs(mass as int) as int;
        assert(0int / d == 0) by (nonlinear_arith)
            requires
                d > 0,
        ;
        assert(0 * crate::fixed::ONE == 0);
    }
}

/// Rest is a fixed point of a tick: with limits that are not negative, an
/// entity at rest leaves the tick as it entered it, grounded or not.
pub proof fn lemma_rest_is_kept(c: Components, cfg: PhysicsConfig)
    requires
        cfg.wf(),
        at_rest(c),
    ensures
        spec_physics_step(c, cfg) == c,
{
    lemma_no_friction_at_rest(cfg);
    if takes_friction(c) {
        lemma_zero_force(Acceleration(c.accel()), c.inertia());
    }
    assert(spec_accumulate(c, cfg) == c);
}

/// Rest is kept over any number of ticks: the position, among all else,
/// stays where it was.
pub proof fn lemma_rest_is_kept_forever(c: Components, cfg: PhysicsConfig, n: nat)
    requires
        cfg.wf(),
        at_rest(c),
    ensures
        spec_physics_steps(c, cfg, n) == c,
    decreases n,
{
    if n > 0 {
        lemma_rest_is_kept_forever(c, cfg, (n - 1) as nat);
        lemma_rest_is_kept(c, cfg);
    }
}

/// The deadzone is open: a capped velocity component closer to zero than
/// the deadzone becomes zero, and one at the deadzone or beyond is kept.
pub proof fn lemma_deadzone_snap(v: Vector2, a: Vector2, cfg: PhysicsConfig)
    ensures
        ({
            let capped = spec_limit(v.spec_plus(a).x, cfg.max_horizontal_velocity);
            let next = spec_next_velocity(v, a, cfg).x;
            &&& vstd::math::abs(capped as int) < cfg.movement_deadzone ==> next == 0
            &&& vstd::math::abs(capped as int) >= cfg.movement_deadzone ==> next == capped
        }),
        ({
            let capped = spec_limit(v.spec_plus(a).y, cfg.max_vertical_velocity);
            let next = spec_next_velocity(v, a, cfg).y;
            &&& vstd::math::abs(capped as int) < cfg.movement_deadzone ==> next == 0
            &&& vstd::math::abs(capped as int) >= cfg.movement_deadzone ==> next == capped
        }),
{
}

/// The position of an integrated entity moves by the velocity that left
/// the deadzone snap, not by the one that entered it.
pub proof fn lemma_position_follows_snapped_velocity(c: Components, cfg: PhysicsConfig)
    requires
        is_integrated(c),
    ensures
        spec_integrate(c, cfg).point() == c.point().spec_moved(spec_integrate(c, cfg).motion()),
        spec_integrate(c, cfg).motion() == spec_next_velocity(
            c.motion(),
            c.accel().spec_plus(c.pull()),
            cfg,
        ),
{
}

/// Integration never leaves a velocity beyond the limits, and it caps
/// without changing the sign: a sum at or beyond a limit that the deadzone
/// does not swallow comes out as exactly that limit, on either side.
pub proof fn lemma_velocity_is_capped(v: i64, a: i64, max: i64, deadzone: i64)
    requires
        max >= 0,
    ensures
        ({
            let next = spec_snap(spec_limit(spec_fx_add(v, a), max), deadzone);
            &&& -max <= next <= max
            &&& v + a >= max && max >= deadzone ==> next == max
            &&& v + a <= -max && max >= deadzone ==> next == -max
            &&& v + a >= 0 ==> next >= 0
            &&& v + a <= 0 ==> next <= 0
        }),
{
}

/// Under a constant acceleration `a` that the deadzone does not swallow, a
/// velocity that starts within the limit is, after `n` ticks, at least as
/// far as `n - 1` ticks of free acceleration would have brought it, or at
/// the limit.
proof fn lemma_velocity_progress(v: i64, a: i64, max: i64, deadzone: i64, n: nat)
    requires
        a > 0,
        0 <= deadzone <= a,
        deadzone <= max,
        -max <= v <= max,
    ensures
        ({
            let now = spec_velocity_after(v, a, max, deadzone, n);
            &&& -max <= now <= max
            &&& now < 0 ==> now >= v + n * a
            &&& now >= 0 && n > 0 ==> now >= max || now >= v + n * a - a
            &&& now >= 0 && n > 0 ==> now == 0 || now >= deadzone
        }),
    decreases n,
{
    if n == 0 {
        assert(0 * a == 0) by (nonlinear_arith);
    } else {
        let m = (n - 1) as nat;
        lemma_velocity_progress(v, a, max, deadzone, m);
        assert(n * a == m * a + a) by (nonlinear_arith)
            requires
                n == m + 1,
        ;
        let before = spec_velocity_after(v, a, max, deadzone, m);
        if m == 0 {
            assert(before == v);
            assert(0 * a == 0) by (nonlinear_arith);
        }
    }
}

/// A constant acceleration in the positive direction brings the velocity
/// to exactly the limit and keeps it there: once `n - 1` ticks of free
/// acceleration span twice the limit, the velocity after `n` ticks is the
/// limit.
pub proof fn lemma_velocity_converges(v: i64, a: i64, max: i64, deadzone: i64, n: nat)
    requires
        a > 0,
        0 <= deadzone <= a,
        deadzone <= max,
        -max <= v <= max,
        n >= 1,
        (n - 1) * a >= 2 * max,
    ensures
        spec_velocity_after(v, a, max, deadzone, n) == max,
{
    lemma_velocity_progress(v, a, max, deadzone, n);
    let now = spec_velocity_after(v, a, max, deadzone, n);
    assert(n * a - a == (n - 1) * a) by (nonlinear_arith);
    if now < 0 {
        assert(n * a >= (n - 1) * a) by (nonlinear_arith)
            requires
                a > 0,
        ;
    }
}

/// The mirror image of the progress under a positive acceleration.
proof fn lemma_velocity_progress_down(v: i64, a: i64, max: i64, deadzone: i64, n: nat)
    requires
        a < 0,
        0 <= deadzone <= -a,
        deadzone <= max,
        -max <= v <= max,
    ensures
        ({
            let now = spec_velocity_after(v, a, max, deadzone, n);
            &&& -max <= now <= max
            &&& now > 0 ==> now <= v + n * a
            &&& now <= 0 && n > 0 ==> now <= -max || now <= v + n * a - a
            &&& now <= 0 && n > 0 ==> now == 0 || now <= -deadzone
        }),
    decreases n,
{
    if n == 0 {
        assert(0 * a == 0) by (nonlinear_arith);
    } else {
        let m = (n - 1) as nat;
        lemma_velocity_progress_down(v, a, max, deadzone, m);
        assert(n * a == m * a + a) by (nonlinear_arith)
            requires
                n == m + 1,
        ;
        let before = spec_velocity_after(v, a, max, deadzone, m);
        if m == 0 {
            assert(before == v);
            assert(0 * a == 0) by (nonlinear_arith);
        }
    }
}

/// A constant acceleration in the negative direction brings the velocity
/// to exactly the limit on the negative side and keeps it there.
pub proof fn lemma_velocity_converges_down(v: i64, a: i64, max: i64, deadzone: i64, n: nat)
    requires
        a < 0,
        0 <= deadzone <= -a,
        deadzone <= max,
        -max <= v <= max,
        n >= 1,
        (n - 1) * a <= -2 * max,
    ensures
        spec_velocity_after(v, a, max, deadzone, n) == -max,
{
    lemma_velocity_progress_down(v, a, max, deadzone, n);
    let now = spec_velocity_after(v, a, max, deadzone, n);
    assert(n * a - a == (n - 1) * a) by (nonlinear_arith);
    if now > 0 {
        assert(n * a <= (n - 1) * a) by (nonlinear_arith)
            requires
                a < 0,
        ;
    }
}

/// Integration leaves the acceleration of every entity it applies to at
/// exactly zero, whatever forces were gathered.
pub proof fn lemma_acceleration_is_reset(c: Components, cfg: PhysicsConfig)
    requires
        is_integrated(c),
    ensures
        spec_integrate(c, cfg).acceleration == Some(Acceleration(Vector2::zero())),
        spec_physics_step(c, cfg).acceleration == Some(Acceleration(Vector2::zero())),
{
}

} // verus!

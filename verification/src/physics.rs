//! Forces, and the two passes of the engine over the store: physics and
//! collisions.

use crate::collision::{collision_pass, spec_collided, spec_pass_signals, Signals};
use crate::fixed::{fx_neg, spec_fx_neg};
use crate::game_state::GameState;
use crate::geometry::Vector2;
use crate::integrator::{physics_pass, spec_physics_step};
use crate::level::LevelSize;
use crate::world::{entities, snapshot, table_of, world_order, world_view, write_back};
use hecs::Entity;
use vstd::prelude::*;

verus! {

/// Normalization that maps a vector too short to have a direction to zero.
pub trait SafeNormalization: Sized {
    /// The unit vector along `self`, or zero where `self` has no length.
    spec fn spec_normalize_safe(&self) -> Self;

    fn normalize_safe(&self) -> (r: Self)
        ensures
            r == self.spec_normalize_safe(),
    ;
}

impl SafeNormalization for Vector2 {
    open spec fn spec_normalize_safe(&self) -> Vector2 {
        let m = self.spec_magnitude();
        if m <= 0 {
            Vector2::zero()
        } else {
            self.spec_unscaled(m)
        }
    }

    fn normalize_safe(&self) -> (r: Vector2) {
        let m = self.magnitude();
        if m <= 0 {
            Vector2::new(0, 0)
        } else {
            self.unscaled(m)
        }
    }
}

/// `v` with its magnitude capped at `max` and its sign kept.
pub open spec fn spec_limit(v: i64, max: i64) -> i64 {
    if vstd::math::abs(v as int) > max {
        if v >= 0 {
            max
        } else {
            spec_fx_neg(max)
        }
    } else {
        v
    }
}

/// Caps the magnitude of `v` at `max`.
pub fn limit(v: i64, max: i64) -> (r: i64)
    ensures
        r == spec_limit(v, max),
{
    if v >= 0 {
        if v > max {
            max
        } else {
            v
        }
    } else if (v as i128) < -(max as i128) {
        fx_neg(max)
    } else {
        v
    }
}

/// Accumulation of forces into an acceleration.
pub trait PhysicsHelper: Sized {
    /// `self` after a force acted on a body of the given mass.
    spec fn with_force(self, force: Vector2, mass: i64) -> Self;

    /// `self` after a mass-independent force acted.
    spec fn with_gravity(self, force: Vector2) -> Self;

    fn apply_force(&mut self, force: &Vector2, mass: i64) -> (r: &mut Self)
        ensures
            *r == old(self).with_force(*force, mass),
            *final(self) == *final(r),
    ;

    fn apply_gravity(&mut self, force: &Vector2) -> (r: &mut Self)
        ensures
            *r == old(self).with_gravity(*force),
            *final(self) == *final(r),
    ;
}

/// Adds `force / mass` to `v`.
pub fn apply_force(v: &mut Vector2, force: &Vector2, mass: i64)
    ensures
        *final(v) == old(v).spec_plus(force.spec_unscaled(mass)),
{
    let a = force.unscaled(mass);
    *v = v.plus(&a);
}

/// Adds `force` to `v`.
pub fn apply_gravity(v: &mut Vector2, force: &Vector2)
    ensures
        *final(v) == old(v).spec_plus(*force),
{
    *v = v.plus(force);
}

} // verus!

verus! {

impl GameState {
    /// One tick of force accumulation and integration over the store.
    ///
    /// Every entity that the store walks is replaced by its physics step;
    /// nothing else changes.
    pub fn apply_physics(&mut self)
        ensures
            final(self).same_but_world(old(self)),
            world_view(final(self).world).dom() == world_view(old(self).world).dom(),
            forall|i: int|
                0 <= i < world_order(old(self).world).len() ==> world_view(
                    final(self).world,
                )[#[trigger] world_order(old(self).world)[i]] == spec_physics_step(
                    world_view(old(self).world)[world_order(old(self).world)[i]],
                    old(self).config.physics,
                ),
            forall|e: Entity|
                !world_order(old(self).world).contains(e) ==> #[trigger] world_view(
                    final(self).world,
                )[e] == world_view(old(self).world)[e],
    {
        let ids = entities(&self.world);
        let mut table = snapshot(&mut self.world, &ids);
        physics_pass(&mut table, &self.config.physics);
        write_back(&mut self.world, &ids, &table);
    }

    /// One collision pass over the store.
    ///
    /// The store is read as a table in the order in which it walks its
    /// entities, and every entity is replaced by what the pass makes of
    /// its table entry. The signals are those that the pass raises on top
    /// of the ones that stood before.
    pub fn collision_detection(&mut self)
        requires
            old(self).wf(),
        ensures
            final(self).tick == old(self).tick,
            final(self).config == old(self).config,
            final(self).camera == old(self).camera,
            final(self).controls == old(self).controls,
            final(self).current_level == old(self).current_level,
            final(self).levels == old(self).levels,
            world_view(final(self).world).dom() == world_view(old(self).world).dom(),
            forall|i: int|
                0 <= i < world_order(old(self).world).len() ==> world_view(
                    final(self).world,
                )[#[trigger] world_order(old(self).world)[i]] == spec_collided(
                    table_of(old(self).world),
                    i,
                    old(self).config.player.size,
                    old(self).level().size,
                ),
            forall|e: Entity|
                !world_order(old(self).world).contains(e) ==> #[trigger] world_view(
                    final(self).world,
                )[e] == world_view(old(self).world)[e],
            (Signals {
                restart_level: final(self).restart_level,
                change_level: final(self).change_level,
            }) == spec_pass_signals(
                table_of(old(self).world),
                (Signals {
                    restart_level: old(self).restart_level,
                    change_level: old(self).change_level,
                }),
                old(self).config.player.size,
                old(self).level().size,
                world_order(old(self).world).len() as int,
            ),
    {
        let size: LevelSize = self.levels.get(self.current_level.as_str()).unwrap().size;
        let ids = entities(&self.world);
        let mut table = snapshot(&mut self.world, &ids);
        assert(table@ =~= table_of(self.world));
        let mut signals = Signals {
            restart_level: self.restart_level,
            change_level: self.change_level.take(),
        };
        collision_pass(&mut table, self.config.player.size, &size, &mut signals);
        write_back(&mut self.world, &ids, &table);
        self.restart_level = signals.restart_level;
        self.change_level = signals.change_level;
    }
}

} // verus!

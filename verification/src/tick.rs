//! One tick of the game: the pending level change or restart, or else one
//! step of the simulation.
//!
//! A step runs its stages in a fixed order and none looks back: the
//! controls accumulate forces, integration moves the entities, the camera
//! follows, the collision pass corrects and raises signals, and the
//! pressed state of the controls is reset. A signal raised in one tick is
//! acted on at the start of the next.

use crate::camera::{camera_pass, spec_camera_after};
use crate::collision::{
    collision_pass, lemma_clear_mover_is_left, lemma_clear_pass_is_quiet, spec_clear,
    spec_collided, spec_grounded_after, spec_hits, spec_pass_signals, spec_world_box, Signals,
};
use crate::components::Components;
use crate::config::{Config, PhysicsConfig};
use crate::controls::{
    is_idle, lemma_idle_rest_is_kept, spec_debug_after, spec_reset_pressed, spec_steer, steer_pass,
};
use crate::fixed::{spec_fx_half, spec_fx_sub};
use crate::game_state::GameState;
use crate::integrator::{at_rest, lemma_rest_is_kept, physics_pass, spec_physics_step};
use crate::level::{entered_level, spec_plan, LevelSize};
use crate::world::{entities, snapshot, table_of, world_order, world_view, write_back};
use hecs::Entity;
use vstd::prelude::*;

verus! {

/// What a tick did.
pub enum TickOutcome {
    /// The level was changed; the handles of the new level's entities.
    LevelChanged(Vec<Entity>),
    /// The level was restarted; the handles of its new entities.
    LevelRestarted(Vec<Entity>),
    /// The simulation advanced by one step.
    Stepped,
}

/// The table after the controls acted on every entry.
pub open spec fn spec_steered_table(
    entities: Seq<Components>,
    controls: crate::game_state::Controls,
    config: Config,
) -> Seq<Components> {
    Seq::new(entities.len(), |i: int| spec_steer(entities[i], controls, config))
}

/// The table after a tick of physics on every entry.
pub open spec fn spec_stepped_table(entities: Seq<Components>, cfg: PhysicsConfig) -> Seq<
    Components,
> {
    Seq::new(entities.len(), |i: int| spec_physics_step(entities[i], cfg))
}

/// The table as the collision pass of a step finds it: steered, then
/// moved.
pub open spec fn spec_moved_table(
    entities: Seq<Components>,
    controls: crate::game_state::Controls,
    config: Config,
) -> Seq<Components> {
    spec_stepped_table(spec_steered_table(entities, controls, config), config.physics)
}

/// The tick counter after a tick; it starts over when it runs out.
pub open spec fn spec_next_tick(tick: usize) -> usize {
    if tick == usize::MAX {
        0
    } else {
        (tick + 1) as usize
    }
}

impl GameState {
    /// One step of the simulation over the store: controls, physics,
    /// camera, collisions, and the reset of the pressed state.
    ///
    /// The store is read once as a table, in the order in which it walks
    /// its entities, and every entity is replaced by what the stages make
    /// of its table entry.
    ///
    /// With idle controls and a configured gravity of zero, every resting
    /// entity stays where it is, and where every mover rests no signal is
    /// raised.
    pub fn step(&mut self)
        requires
            old(self).wf(),
        ensures
            final(self).tick == old(self).tick,
            final(self).current_level == old(self).current_level,
            final(self).levels == old(self).levels,
            final(self).controls == spec_reset_pressed(old(self).controls),
            final(self).config.player == old(self).config.player,
            final(self).config.physics == old(self).config.physics,
            final(self).config.camera == old(self).config.camera,
            final(self).config.debug == spec_debug_after(
                table_of(old(self).world),
                old(self).config.debug,
                old(self).controls.debug_pressed,
                world_order(old(self).world).len() as int,
            ),
            final(self).camera == spec_camera_after(
                spec_moved_table(table_of(old(self).world), old(self).controls, old(self).config),
                old(self).camera,
                old(self).config.camera.deadzone,
                old(self).level().size,
                world_order(old(self).world).len() as int,
            ),
            world_view(final(self).world).dom() == world_view(old(self).world).dom(),
            forall|i: int|
                0 <= i < world_order(old(self).world).len() ==> world_view(
                    final(self).world,
                )[#[trigger] world_order(old(self).world)[i]] == spec_collided(
                    spec_moved_table(
                        table_of(old(self).world),
                        old(self).controls,
                        old(self).config,
                    ),
                    i,
                    old(self).config.player.size,
                    old(self).level().size,
                ),
            forall|e: Entity|
                !world_order(old(self).world).contains(e) ==> #[trigger] world_view(
                    final(self).world,
                )[e] == world_view(old(self).world)[e],
            (Signals {
                restart_level: final(self).restart_level,
                change_level: final(self).change_level,
            }) == spec_pass_signals(
                spec_moved_table(table_of(old(self).world), old(self).controls, old(self).config),
                (Signals {
                    restart_level: old(self).restart_level,
                    change_level: old(self).change_level,
                }),
                old(self).config.player.size,
                old(self).level().size,
                world_order(old(self).world).len() as int,
            ),
            is_idle(old(self).controls) && old(self).config.physics.wf() && old(
                self,
            ).config.physics.gravity == 0 ==> {
                &&& rest_is_kept(
                    world_view(old(self).world),
                    world_view(final(self).world),
                    old(self).level().size,
                )
                &&& all_rest(world_view(old(self).world), old(self).level().size) ==> {
                    &&& all_rest(world_view(final(self).world), old(self).level().size)
                    &&& final(self).restart_level == old(self).restart_level
                    &&& final(self).change_level == old(self).change_level
                }
            },
    {
        let size: LevelSize = self.levels.get(self.current_level.as_str()).unwrap().size;
        let ids = entities(&self.world);
        let mut table = snapshot(&mut self.world, &ids);
        assert(table@ =~= table_of(self.world));
        let ghost config = self.config;
        let ghost first = table@;
        let ghost before = world_view(self.world);
        let ghost raised = Signals {
            restart_level: self.restart_level,
            change_level: self.change_level,
        };
        steer_pass(&mut table, &self.controls, &mut self.config);
        assert(table@ =~= spec_steered_table(table_of(self.world), self.controls, config));
        physics_pass(&mut table, &self.config.physics);
        assert(table@ =~= spec_moved_table(table_of(self.world), self.controls, config));
        camera_pass(&table, &mut self.camera, self.config.camera.deadzone, &size);
        let mut signals = Signals {
            restart_level: self.restart_level,
            change_level: self.change_level.take(),
        };
        collision_pass(&mut table, self.config.player.size, &size, &mut signals);
        write_back(&mut self.world, &ids, &table);
        self.restart_level = signals.restart_level;
        self.change_level = signals.change_level;
        proof {
            if is_idle(self.controls) && config.physics.wf() && config.physics.gravity == 0 {
                lemma_rest_in_store(
                    before,
                    world_view(self.world),
                    ids@,
                    first,
                    raised,
                    self.controls,
                    config,
                    size,
                );
            }
        }
        self.reset_pressed_state();
    }

    /// One tick of the game.
    ///
    /// A level change that is pending is carried out and withdrawn; else a
    /// restart that is pending is carried out and withdrawn; else the
    /// simulation advances by one step. A level change or restart takes the
    /// whole tick.
    ///
    /// With idle controls and a configured gravity of zero, a step keeps
    /// every resting entity where it is, and where every mover rests it
    /// raises no signal; so rest lasts over any number of ticks.
    pub fn update(&mut self) -> (outcome: TickOutcome)
        requires
            old(self).change_level is None ==> old(self).wf(),
            old(self).change_level matches Some(target) ==> old(self).levels@.contains_key(
                target@,
            ),
        ensures
            final(self).wf(),
            final(self).tick == spec_next_tick(old(self).tick),
            final(self).levels == old(self).levels,
            old(self).change_level matches Some(target) ==> {
                &&& outcome matches TickOutcome::LevelChanged(spawned) && entered_level(
                    world_view(old(self).world),
                    world_view(final(self).world),
                    old(self).current_level@,
                    spec_plan(final(self).level()@, old(self).config),
                    target@,
                    spawned@,
                )
                &&& final(self).current_level == target
                &&& final(self).change_level is None
                &&& final(self).restart_level == old(self).restart_level
                &&& final(self).controls == old(self).controls
                &&& final(self).camera == old(self).camera
                &&& final(self).config == old(self).config
            },
            old(self).change_level is None && old(self).restart_level ==> {
                &&& outcome matches TickOutcome::LevelRestarted(spawned) && entered_level(
                    world_view(old(self).world),
                    world_view(final(self).world),
                    old(self).current_level@,
                    spec_plan(old(self).level()@, old(self).config),
                    old(self).current_level@,
                    spawned@,
                )
                &&& final(self).current_level == old(self).current_level
                &&& final(self).change_level is None
                &&& !final(self).restart_level
                &&& final(self).controls == old(self).controls
                &&& final(self).camera == old(self).camera
                &&& final(self).config == old(self).config
            },
            old(self).change_level is None && !old(self).restart_level ==> {
                &&& outcome is Stepped
                &&& final(self).current_level == old(self).current_level
                &&& final(self).controls == spec_reset_pressed(old(self).controls)
                &&& final(self).camera == spec_camera_after(
                    spec_moved_table(
                        table_of(old(self).world),
                        old(self).controls,
                        old(self).config,
                    ),
                    old(self).camera,
                    old(self).config.camera.deadzone,
                    old(self).level().size,
                    world_order(old(self).world).len() as int,
                )
                &&& world_view(final(self).world).dom() == world_view(old(self).world).dom()
                &&& forall|e: Entity|
                    !world_order(old(self).world).contains(e) ==> #[trigger] world_view(
                        final(self).world,
                    )[e] == world_view(old(self).world)[e]
                &&& final(self).config.player == old(self).config.player
                &&& final(self).config.physics == old(self).config.physics
                &&& final(self).config.camera == old(self).config.camera
                &&& final(self).config.debug == spec_debug_after(
                    table_of(old(self).world),
                    old(self).config.debug,
                    old(self).controls.debug_pressed,
                    world_order(old(self).world).len() as int,
                )
                &&& forall|i: int|
                    0 <= i < world_order(old(self).world).len() ==> world_view(
                        final(self).world,
                    )[#[trigger] world_order(old(self).world)[i]] == spec_collided(
                        spec_moved_table(
                            table_of(old(self).world),
                            old(self).controls,
                            old(self).config,
                        ),
                        i,
                        old(self).config.player.size,
                        old(self).level().size,
                    )
                &&& (Signals {
                    restart_level: final(self).restart_level,
                    change_level: final(self).change_level,
                }) == spec_pass_signals(
                    spec_moved_table(
                        table_of(old(self).world),
                        old(self).controls,
                        old(self).config,
                    ),
                    (Signals { restart_level: false, change_level: None }),
                    old(self).config.player.size,
                    old(self).level().size,
                    world_order(old(self).world).len() as int,
                )
                &&& is_idle(old(self).controls) && old(self).config.physics.wf() && old(
                    self,
                ).config.physics.gravity == 0 ==> {
                    &&& rest_is_kept(
                        world_view(old(self).world),
                        world_view(final(self).world),
                        old(self).level().size,
                    )
                    &&& all_rest(world_view(old(self).world), old(self).level().size) ==> {
                        &&& all_rest(world_view(final(self).world), old(self).level().size)
                        &&& !final(self).restart_level
                        &&& final(self).change_level is None
                    }
                }
            },
    {
        self.tick = if self.tick == usize::MAX {
            0
        } else {
            self.tick + 1
        };
        match self.change_level.take() {
            Some(target) => {
                let spawned = self.change_level(target);
                return TickOutcome::LevelChanged(spawned);
            },
            None => {},
        }
        if self.restart_level {
            self.restart_level = false;
            let spawned = self.restart_level();
            return TickOutcome::LevelRestarted(spawned);
        }
        self.step();
        TickOutcome::Stepped
    }
}

} // verus!

verus! {

/// The table after one step of the simulation.
pub open spec fn spec_tick_table(
    entities: Seq<Components>,
    controls: crate::game_state::Controls,
    config: Config,
    level: LevelSize,
) -> Seq<Components> {
    Seq::new(
        entities.len(),
        |i: int|
            spec_collided(
                spec_moved_table(entities, controls, config),
                i,
                config.player.size,
                level,
            ),
    )
}

/// The table after `k` steps of the simulation. The pressed state of the
/// controls is reset after the first.
pub open spec fn spec_table_after(
    entities: Seq<Components>,
    controls: crate::game_state::Controls,
    config: Config,
    level: LevelSize,
    k: nat,
) -> Seq<Components>
    decreases k,
{
    if k == 0 {
        entities
    } else {
        spec_tick_table(
            spec_table_after(entities, controls, config, level, (k - 1) as nat),
            if k == 1 {
                controls
            } else {
                spec_reset_pressed(controls)
            },
            config,
            level,
        )
    }
}

/// The mover at entry `i` rests: it is at rest and clear of everything.
pub open spec fn spec_rests(entities: Seq<Components>, i: int, level: LevelSize) -> bool {
    at_rest(entities[i]) && spec_clear(entities, i, level)
}

/// With idle controls and a configured gravity of zero, controls and
/// physics leave a resting mover as it is and clear of everything: no
/// stage moves a box.
pub proof fn lemma_rest_is_moved_clear(
    entities: Seq<Components>,
    i: int,
    controls: crate::game_state::Controls,
    config: Config,
    level: LevelSize,
)
    requires
        is_idle(controls),
        config.physics.wf(),
        config.physics.gravity == 0,
        spec_rests(entities, i, level),
    ensures
        spec_moved_table(entities, controls, config)[i] == entities[i],
        spec_clear(spec_moved_table(entities, controls, config), i, level),
{
    let moved = spec_moved_table(entities, controls, config);
    let c = entities[i];
    lemma_idle_rest_is_kept(c, controls, config, 0);
    lemma_rest_is_kept(c, config.physics);
    assert(moved[i] == c);
    let bbox = spec_world_box(c);
    assert forall|j: int| !spec_hits(bbox, moved, i, j) by {
        if 0 <= j < moved.len() {
            assert(moved[j].bounding_box == entities[j].bounding_box);
            assert(!spec_hits(bbox, entities, i, j));
        }
    }
}

/// A resting mover comes through a step where it was, at rest and clear of
/// everything; the step only takes the ground from under it.
pub proof fn lemma_rest_through_a_tick(
    entities: Seq<Components>,
    i: int,
    controls: crate::game_state::Controls,
    config: Config,
    level: LevelSize,
)
    requires
        is_idle(controls),
        config.physics.wf(),
        config.physics.gravity == 0,
        spec_rests(entities, i, level),
    ensures
        spec_tick_table(entities, controls, config, level)[i] == (Components {
            grounded: spec_grounded_after(entities[i].grounded, false),
            ..entities[i]
        }),
        spec_rests(spec_tick_table(entities, controls, config, level), i, level),
{
    let moved = spec_moved_table(entities, controls, config);
    let after = spec_tick_table(entities, controls, config, level);
    lemma_rest_is_moved_clear(entities, i, controls, config, level);
    lemma_clear_mover_is_left(
        moved,
        (Signals { restart_level: false, change_level: None }),
        config.player.size,
        level,
        i,
    );
    let bbox = spec_world_box(entities[i]);
    assert(spec_world_box(after[i]) == bbox);
    assert forall|j: int| !spec_hits(bbox, after, i, j) by {
        if 0 <= j < after.len() {
            assert(after[j].bounding_box == moved[j].bounding_box);
            assert(moved[j].bounding_box == entities[j].bounding_box);
            assert(!spec_hits(bbox, entities, i, j));
        }
    }
}

/// Rest is kept through any number of steps: with idle controls and a
/// configured gravity of zero, a mover that is at rest and clear of
/// everything is, after `k` steps, where it was and still at rest.
pub proof fn lemma_rest_through_ticks(
    entities: Seq<Components>,
    i: int,
    controls: crate::game_state::Controls,
    config: Config,
    level: LevelSize,
    k: nat,
)
    requires
        is_idle(controls),
        config.physics.wf(),
        config.physics.gravity == 0,
        spec_rests(entities, i, level),
    ensures
        spec_rests(spec_table_after(entities, controls, config, level, k), i, level),
        spec_table_after(entities, controls, config, level, k)[i].position
            == entities[i].position,
        spec_table_after(entities, controls, config, level, k)[i].velocity
            == entities[i].velocity,
        spec_table_after(entities, controls, config, level, k)[i].acceleration
            == entities[i].acceleration,
    decreases k,
{
    if k > 0 {
        lemma_rest_through_ticks(entities, i, controls, config, level, (k - 1) as nat);
        let before = spec_table_after(entities, controls, config, level, (k - 1) as nat);
        let now = if k == 1 {
            controls
        } else {
            spec_reset_pressed(controls)
        };
        lemma_rest_through_a_tick(before, i, now, config, level);
    }
}

/// A step over a table whose movers all rest raises no signal.
pub proof fn lemma_quiet_tick(
    entities: Seq<Components>,
    s: Signals,
    controls: crate::game_state::Controls,
    config: Config,
    level: LevelSize,
)
    requires
        is_idle(controls),
        config.physics.wf(),
        config.physics.gravity == 0,
        forall|i: int|
            0 <= i < entities.len() && entities[i].is_mover() ==> spec_rests(entities, i, level),
    ensures
        spec_pass_signals(
            spec_moved_table(entities, controls, config),
            s,
            config.player.size,
            level,
            entities.len() as int,
        ) == s,
{
    let moved = spec_moved_table(entities, controls, config);
    assert forall|i: int| 0 <= i < moved.len() && moved[i].is_mover() implies spec_clear(
        moved,
        i,
        level,
    ) by {
        assert(entities[i].is_mover());
        lemma_rest_is_moved_clear(entities, i, controls, config, level);
    }
    lemma_clear_pass_is_quiet(moved, s, config.player.size, level, entities.len() as int);
}

/// The entity rests in the store: it is a mover at rest, no other box of
/// the store overlaps its box, and its position lies strictly inside the
/// boundaries that hold it in the level.
pub open spec fn rests_in(view: Map<Entity, Components>, e: Entity, level: LevelSize) -> bool {
    let c = view[e];
    let bbox = spec_world_box(c);
    &&& view.contains_key(e)
    &&& at_rest(c)
    &&& c.is_mover()
    &&& forall|other: Entity|
        other != e && #[trigger] view.contains_key(other) && view[other].bounding_box is Some
            ==> !view[other].rect().spec_overlaps(bbox)
    &&& spec_fx_half(bbox.w) < c.point().x < spec_fx_sub(level.width, spec_fx_half(bbox.w))
    &&& spec_fx_half(bbox.h) < c.point().y < spec_fx_sub(level.height, spec_fx_half(bbox.h))
}

/// Every mover of the store rests.
pub open spec fn all_rest(view: Map<Entity, Components>, level: LevelSize) -> bool {
    forall|e: Entity| #[trigger] view.contains_key(e) && view[e].is_mover() ==> rests_in(view, e, level)
}

/// What a step keeps of rest: an entity that rests in the store before the
/// step rests in it afterwards, where it was; the step only takes the
/// ground from under it.
pub open spec fn rest_is_kept(
    before: Map<Entity, Components>,
    after: Map<Entity, Components>,
    level: LevelSize,
) -> bool {
    forall|e: Entity| #[trigger]
        rests_in(before, e, level) ==> rests_in(after, e, level) && after[e] == (Components {
            grounded: spec_grounded_after(before[e].grounded, false),
            ..before[e]
        })
}

/// A resting entity of the store rests in the table of the store.
proof fn lemma_rests_in_table(
    view: Map<Entity, Components>,
    ids: Seq<Entity>,
    table: Seq<Components>,
    level: LevelSize,
    i: int,
)
    requires
        ids.no_duplicates(),
        table.len() == ids.len(),
        forall|k: int| 0 <= k < ids.len() ==> view.contains_key(#[trigger] ids[k]),
        forall|k: int| 0 <= k < ids.len() ==> #[trigger] table[k] == view[ids[k]],
        0 <= i < ids.len(),
        rests_in(view, ids[i], level),
    ensures
        spec_rests(table, i, level),
{
    let bbox = spec_world_box(table[i]);
    assert forall|j: int| !spec_hits(bbox, table, i, j) by {
        if 0 <= j < table.len() && j != i && table[j].bounding_box is Some {
            assert(ids[j] != ids[i]);
            assert(view.contains_key(ids[j]));
            assert(table[j] == view[ids[j]]);
        }
    }
}

/// What the contract of a step says of rest, from what it says of the
/// table.
proof fn lemma_rest_in_store(
    before: Map<Entity, Components>,
    after: Map<Entity, Components>,
    ids: Seq<Entity>,
    table: Seq<Components>,
    s: Signals,
    controls: crate::game_state::Controls,
    config: Config,
    level: LevelSize,
)
    requires
        is_idle(controls),
        config.physics.wf(),
        config.physics.gravity == 0,
        ids.no_duplicates(),
        table.len() == ids.len(),
        forall|k: int| 0 <= k < ids.len() ==> before.contains_key(#[trigger] ids[k]),
        forall|k: int| 0 <= k < ids.len() ==> #[trigger] table[k] == before[ids[k]],
        forall|e: Entity|
            before.contains_key(e) && before[e] != Components::spec_empty() ==> #[trigger] ids.contains(
                e,
            ),
        after.dom() == before.dom(),
        forall|k: int|
            0 <= k < ids.len() ==> after[#[trigger] ids[k]] == spec_collided(
                spec_moved_table(table, controls, config),
                k,
                config.player.size,
                level,
            ),
        forall|e: Entity| !ids.contains(e) ==> #[trigger] after[e] == before[e],
    ensures
        rest_is_kept(before, after, level),
        all_rest(before, level) ==> all_rest(after, level),
        all_rest(before, level) ==> spec_pass_signals(
            spec_moved_table(table, controls, config),
            s,
            config.player.size,
            level,
            ids.len() as int,
        ) == s,
{
    let moved = spec_moved_table(table, controls, config);
    assert forall|e: Entity| #[trigger] rests_in(before, e, level) implies rests_in(
        after,
        e,
        level,
    ) && after[e] == (Components {
        grounded: spec_grounded_after(before[e].grounded, false),
        ..before[e]
    }) by {
        assert(before[e] != Components::spec_empty());
        assert(ids.contains(e));
        let i = choose|i: int| 0 <= i < ids.len() && ids[i] == e;
        lemma_rests_in_table(before, ids, table, level, i);
        lemma_rest_through_a_tick(table, i, controls, config, level);
        assert(spec_tick_table(table, controls, config, level)[i] == after[e]);
        assert(after.contains_key(e));
        let bbox = spec_world_box(after[e]);
        assert(bbox == spec_world_box(before[e]));
        assert forall|other: Entity|
            other != e && #[trigger] after.contains_key(other) && after[other].bounding_box
                is Some implies !after[other].rect().spec_overlaps(bbox) by {
            assert(before.contains_key(other));
            if ids.contains(other) {
                let j = choose|j: int| 0 <= j < ids.len() && ids[j] == other;
                assert(after[ids[j]] == spec_collided(moved, j, config.player.size, level));
                assert(moved[j].bounding_box == table[j].bounding_box);
                assert(after[other].bounding_box == before[other].bounding_box);
            } else {
                assert(after[other] == before[other]);
            }
        }
    }
    if all_rest(before, level) {
        assert forall|i: int| 0 <= i < table.len() && table[i].is_mover() implies spec_rests(
            table,
            i,
            level,
        ) by {
            assert(before.contains_key(ids[i]));
            assert(rests_in(before, ids[i], level));
            lemma_rests_in_table(before, ids, table, level, i);
        }
        lemma_quiet_tick(table, s, controls, config, level);
        assert forall|e: Entity| #[trigger]
            after.contains_key(e) && after[e].is_mover() implies rests_in(after, e, level) by {
            assert(before.contains_key(e));
            if ids.contains(e) {
                let j = choose|j: int| 0 <= j < ids.len() && ids[j] == e;
                assert(after[ids[j]] == spec_collided(moved, j, config.player.size, level));
                assert(moved[j].is_mover() == table[j].is_mover());
                assert(before[e].is_mover());
            } else {
                assert(after[e] == before[e]);
            }
            assert(rests_in(before, e, level));
        }
    }
}

} // verus!

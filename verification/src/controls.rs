//! The controls: what the keys do to the control state, and what the
//! control state does to the player.

use crate::components::{Acceleration, Components, Gravity, Mass, Velocity};
use crate::config::{Config, DebugConfig, PhysicsConfig, PlayerConfig};
use crate::fixed::{
    fx_add, fx_div, fx_mul, fx_neg, spec_fx_add, spec_fx_div, spec_fx_mul, spec_fx_neg, ONE,
};
use crate::game_state::{Controls, GameState};
use crate::geometry::Vector2;
use crate::physics::PhysicsHelper;
use crate::world::{entities, snapshot, table_of, world_order, world_view, write_back};
use hecs::Entity;
use vstd::prelude::*;

verus! {

/// The keys that the game tells apart.
#[derive(Clone, Copy, Debug, PartialEq, Eq, Structural)]
pub enum KeyCode {
    Escape,
    A,
    D,
    W,
    S,
    Left,
    Right,
    Up,
    Down,
    Space,
    F12,
    /// Any other key.
    Other,
}

/// The speed at which a jump is half again as strong: 30.
pub const JUMP_BOOST_SPEED: i64 = 1966080;

/// The control state after a key went down. A key that repeats is held but
/// not pressed. The up arrow jumps.
pub open spec fn spec_key_down(c: Controls, key: KeyCode, repeat: bool) -> Controls {
    match key {
        KeyCode::A | KeyCode::Left => Controls { left_pressed: !repeat, left_held: true, ..c },
        KeyCode::D | KeyCode::Right => Controls { right_pressed: !repeat, right_held: true, ..c },
        KeyCode::W => Controls { up_pressed: !repeat, up_held: true, ..c },
        KeyCode::S | KeyCode::Down => Controls { down_pressed: !repeat, down_held: true, ..c },
        KeyCode::Space | KeyCode::Up => Controls { jump_pressed: !repeat, jump_held: true, ..c },
        KeyCode::F12 => Controls { debug_pressed: !repeat, debug_held: true, ..c },
        _ => c,
    }
}

/// The control state after a key went up. The up arrow releases the
/// upward control, not the jump.
pub open spec fn spec_key_up(c: Controls, key: KeyCode) -> Controls {
    match key {
        KeyCode::A | KeyCode::Left => Controls { left_pressed: false, left_held: false, ..c },
        KeyCode::D | KeyCode::Right => Controls { right_pressed: false, right_held: false, ..c },
        KeyCode::W | KeyCode::Up => Controls { up_pressed: false, up_held: false, ..c },
        KeyCode::S | KeyCode::Down => Controls { down_pressed: false, down_held: false, ..c },
        KeyCode::Space => Controls { jump_pressed: false, jump_held: false, ..c },
        KeyCode::F12 => Controls { debug_pressed: false, debug_held: false, ..c },
        _ => c,
    }
}

/// The control state at the end of a tick: nothing is pressed any more;
/// what is held stays held. The reset control is left alone.
pub open spec fn spec_reset_pressed(c: Controls) -> Controls {
    Controls {
        left_pressed: false,
        right_pressed: false,
        up_pressed: false,
        down_pressed: false,
        jump_pressed: false,
        debug_pressed: false,
        ..c
    }
}

/// The vertical force of a jump: the jump acceleration upward, stronger
/// the faster the player moves.
pub open spec fn spec_jump_force(velocity: Vector2, player: PlayerConfig) -> i64 {
    spec_fx_mul(
        spec_fx_neg(player.jump_acceleration),
        spec_fx_add(ONE, spec_fx_div(velocity.spec_magnitude(), JUMP_BOOST_SPEED)),
    )
}

/// The acceleration of a player after the controls acted on it.
///
/// Left and right push a player that is grounded, or any player where air
/// control is allowed. A jump pushes a grounded player upward.
pub open spec fn spec_steered_acceleration(
    a: Acceleration,
    velocity: Vector2,
    mass: i64,
    grounded: bool,
    controls: Controls,
    player: PlayerConfig,
) -> Acceleration {
    let sideways = grounded || player.allow_air_control;
    let a1 = if sideways && controls.left_held {
        a.with_force(Vector2 { x: spec_fx_neg(player.acceleration), y: 0 }, mass)
    } else {
        a
    };
    let a2 = if sideways && controls.right_held {
        a1.with_force(Vector2 { x: player.acceleration, y: 0 }, mass)
    } else {
        a1
    };
    if grounded && controls.jump_pressed {
        a2.with_force(Vector2 { x: 0, y: spec_jump_force(velocity, player) }, mass)
    } else {
        a2
    }
}

/// The gravity of a player after the controls acted on it: the
/// configured gravity, weakened by the float modifier while the jump is
/// held.
pub open spec fn spec_steered_gravity(
    g: Gravity,
    controls: Controls,
    physics: PhysicsConfig,
    player: PlayerConfig,
) -> Gravity {
    Gravity(
        Vector2 {
            x: g.0.x,
            y: if controls.jump_held {
                spec_fx_mul(physics.gravity, player.float_modifier)
            } else {
                physics.gravity
            },
        },
    )
}

/// The controls act on a player that has an acceleration, a gravity, a
/// velocity and a mass.
pub open spec fn is_steered(c: Components) -> bool {
    &&& c.acceleration is Some
    &&& c.gravity is Some
    &&& c.velocity is Some
    &&& c.mass is Some
    &&& c.player is Some
}

/// The entity after the controls acted on it.
pub open spec fn spec_steer(c: Components, controls: Controls, config: Config) -> Components {
    if is_steered(c) {
        Components {
            acceleration: Some(
                spec_steered_acceleration(
                    Acceleration(c.accel()),
                    c.motion(),
                    c.inertia(),
                    c.is_grounded(),
                    controls,
                    config.player,
                ),
            ),
            gravity: Some(
                spec_steered_gravity(Gravity(c.pull()), controls, config.physics, config.player),
            ),
            ..c
        }
    } else {
        c
    }
}

/// The debug switches after the first `upto` entries of the table were
/// handled: while the debug key is pressed, every steered player flips
/// both.
pub open spec fn spec_debug_after(
    entities: Seq<Components>,
    debug: DebugConfig,
    pressed: bool,
    upto: int,
) -> DebugConfig
    decreases upto,
{
    if upto <= 0 {
        debug
    } else {
        let prev = spec_debug_after(entities, debug, pressed, upto - 1);
        if pressed && upto - 1 < entities.len() && is_steered(entities[upto - 1]) {
            DebugConfig { draw_grid: !prev.draw_grid, draw_bounds: !prev.draw_bounds }
        } else {
            prev
        }
    }
}

/// The control state after a key went down.
pub fn key_down(c: Controls, key: KeyCode, repeat: bool) -> (r: Controls)
    ensures
        r == spec_key_down(c, key, repeat),
{
    match key {
        KeyCode::A | KeyCode::Left => Controls { left_pressed: !repeat, left_held: true, ..c },
        KeyCode::D | KeyCode::Right => Controls { right_pressed: !repeat, right_held: true, ..c },
        KeyCode::W => Controls { up_pressed: !repeat, up_held: true, ..c },
        KeyCode::S | KeyCode::Down => Controls { down_pressed: !repeat, down_held: true, ..c },
        KeyCode::Space | KeyCode::Up => Controls { jump_pressed: !repeat, jump_held: true, ..c },
        KeyCode::F12 => Controls { debug_pressed: !repeat, debug_held: true, ..c },
        _ => c,
    }
}

/// The control state after a key went up.
pub fn key_up(c: Controls, key: KeyCode) -> (r: Controls)
    ensures
        r == spec_key_up(c, key),
{
    match key {
        KeyCode::A | KeyCode::Left => Controls { left_pressed: false, left_held: false, ..c },
        KeyCode::D | KeyCode::Right => Controls { right_pressed: false, right_held: false, ..c },
        KeyCode::W | KeyCode::Up => Controls { up_pressed: false, up_held: false, ..c },
        KeyCode::S | KeyCode::Down => Controls { down_pressed: false, down_held: false, ..c },
        KeyCode::Space => Controls { jump_pressed: false, jump_held: false, ..c },
        KeyCode::F12 => Controls { debug_pressed: false, debug_held: false, ..c },
        _ => c,
    }
}

/// Applies the controls to one player.
pub fn steer(
    acceleration: &mut Acceleration,
    gravity: &mut Gravity,
    velocity: &Velocity,
    mass: &Mass,
    grounded: bool,
    controls: &Controls,
    config: &Config,
)
    ensures
        *final(acceleration) == spec_steered_acceleration(
            *old(acceleration),
            velocity.0,
            mass.0,
            grounded,
            *controls,
            config.player,
        ),
        *final(gravity) == spec_steered_gravity(
            *old(gravity),
            *controls,
            config.physics,
            config.player,
        ),
{
    if grounded || config.player.allow_air_control {
        if controls.left_held {
            acceleration.apply_force(&Vector2::new(fx_neg(config.player.acceleration), 0), mass.0);
        }
        if controls.right_held {
            acceleration.apply_force(&Vector2::new(config.player.acceleration, 0), mass.0);
        }
    }
    if grounded {
        if controls.jump_pressed {
            let mag = velocity.0.magnitude();
            let force = fx_mul(
                fx_neg(config.player.jump_acceleration),
                fx_add(ONE, fx_div(mag, JUMP_BOOST_SPEED)),
            );
            acceleration.apply_force(&Vector2::new(0, force), mass.0);
        }
    }
    if controls.jump_held {
        gravity.0.y = fx_mul(config.physics.gravity, config.player.float_modifier);
    } else {
        gravity.0.y = config.physics.gravity;
    }
}

/// Applies the controls to every player of the table.
pub fn steer_pass(entities: &mut Vec<Components>, controls: &Controls, config: &mut Config)
    ensures
        final(entities)@.len() == old(entities)@.len(),
        forall|i: int|
            0 <= i < old(entities)@.len() ==> #[trigger] final(entities)@[i] == spec_steer(
                old(entities)@[i],
                *controls,
                *old(config),
            ),
        final(config).debug == spec_debug_after(
            old(entities)@,
            old(config).debug,
            controls.debug_pressed,
            old(entities)@.len() as int,
        ),
        final(config).player == old(config).player,
        final(config).physics == old(config).physics,
        final(config).camera == old(config).camera,
{
    let n = entities.len();
    let mut i: usize = 0;
    while i < n
        invariant
            i <= n,
            n == entities.len(),
            n == old(entities)@.len(),
            forall|k: int|
                0 <= k < i ==> #[trigger] entities@[k] == spec_steer(
                    old(entities)@[k],
                    *controls,
                    *old(config),
                ),
            forall|k: int| i <= k < n ==> #[trigger] entities@[k] == old(entities)@[k],
            config.debug == spec_debug_after(
                old(entities)@,
                old(config).debug,
                controls.debug_pressed,
                i as int,
            ),
            config.player == old(config).player,
            config.physics == old(config).physics,
            config.camera == old(config).camera,
        decreases n - i,
    {
        let c = &mut entities[i];
        match (c.acceleration, c.gravity, c.velocity, c.mass, c.player) {
            (Some(mut a), Some(mut g), Some(v), Some(m), Some(_)) => {
                if controls.debug_pressed {
                    config.debug.draw_bounds = !config.debug.draw_bounds;
                    config.debug.draw_grid = !config.debug.draw_grid;
                }
                let grounded = match c.grounded {
                    Some(flag) => flag.0,
                    None => false,
                };
                steer(&mut a, &mut g, &v, &m, grounded, controls, config);
                c.acceleration = Some(a);
                c.gravity = Some(g);
            },
            _ => {},
        }
        i += 1;
    }
}

impl GameState {
    /// Applies the controls to the players of the store.
    ///
    /// Every entity that the store walks is replaced by what the controls
    /// make of it, and the debug switches flip once for every steered
    /// player while the debug key is pressed.
    pub fn do_movement(&mut self)
        ensures
            world_view(final(self).world).dom() == world_view(old(self).world).dom(),
            forall|i: int|
                0 <= i < world_order(old(self).world).len() ==> world_view(
                    final(self).world,
                )[#[trigger] world_order(old(self).world)[i]] == spec_steer(
                    world_view(old(self).world)[world_order(old(self).world)[i]],
                    old(self).controls,
                    old(self).config,
                ),
            forall|e: Entity|
                !world_order(old(self).world).contains(e) ==> #[trigger] world_view(
                    final(self).world,
                )[e] == world_view(old(self).world)[e],
            final(self).config.debug == spec_debug_after(
                table_of(old(self).world),
                old(self).config.debug,
                old(self).controls.debug_pressed,
                world_order(old(self).world).len() as int,
            ),
            final(self).config.player == old(self).config.player,
            final(self).config.physics == old(self).config.physics,
            final(self).config.camera == old(self).config.camera,
            final(self).tick == old(self).tick,
            final(self).camera == old(self).camera,
            final(self).controls == old(self).controls,
            final(self).restart_level == old(self).restart_level,
            final(self).change_level == old(self).change_level,
            final(self).current_level == old(self).current_level,
            final(self).levels == old(self).levels,
    {
        let ids = entities(&self.world);
        let mut table = snapshot(&mut self.world, &ids);
        assert(table@ =~= table_of(self.world));
        steer_pass(&mut table, &self.controls, &mut self.config);
        write_back(&mut self.world, &ids, &table);
    }

    /// Records that a key went down. Returns whether the key asks to quit
    /// the game, which only the escape key does.
    pub fn map_key_down_event(&mut self, keycode: KeyCode, repeat: bool) -> (quit: bool)
        ensures
            quit == (keycode == KeyCode::Escape),
            final(self).controls == spec_key_down(old(self).controls, keycode, repeat),
            final(self).world == old(self).world,
            final(self).tick == old(self).tick,
            final(self).config == old(self).config,
            final(self).camera == old(self).camera,
            final(self).restart_level == old(self).restart_level,
            final(self).change_level == old(self).change_level,
            final(self).current_level == old(self).current_level,
            final(self).levels == old(self).levels,
    {
        self.controls = key_down(self.controls, keycode, repeat);
        keycode == KeyCode::Escape
    }

    /// Records that a key went up.
    pub fn map_key_up_event(&mut self, keycode: KeyCode)
        ensures
            final(self).controls == spec_key_up(old(self).controls, keycode),
            final(self).world == old(self).world,
            final(self).tick == old(self).tick,
            final(self).config == old(self).config,
            final(self).camera == old(self).camera,
            final(self).restart_level == old(self).restart_level,
            final(self).change_level == old(self).change_level,
            final(self).current_level == old(self).current_level,
            final(self).levels == old(self).levels,
    {
        self.controls = key_up(self.controls, keycode);
    }

    /// Ends a tick for the controls: nothing is pressed any more.
    pub fn reset_pressed_state(&mut self)
        ensures
            final(self).controls == spec_reset_pressed(old(self).controls),
            final(self).world == old(self).world,
            final(self).tick == old(self).tick,
            final(self).config == old(self).config,
            final(self).camera == old(self).camera,
            final(self).restart_level == old(self).restart_level,
            final(self).change_level == old(self).change_level,
            final(self).current_level == old(self).current_level,
            final(self).levels == old(self).levels,
    {
        self.controls.left_pressed = false;
        self.controls.right_pressed = false;
        self.controls.up_pressed = false;
        self.controls.down_pressed = false;
        self.controls.jump_pressed = false;
        self.controls.debug_pressed = false;
    }
}

} // verus!

verus! {

/// Controls that neither push nor jump.
pub open spec fn is_idle(c: Controls) -> bool {
    !c.left_held && !c.right_held && !c.jump_pressed
}

/// Idle controls gather no force.
pub proof fn lemma_idle_controls_gather_nothing(
    a: Acceleration,
    velocity: Vector2,
    mass: i64,
    grounded: bool,
    controls: Controls,
    player: PlayerConfig,
)
    requires
        is_idle(controls),
    ensures
        spec_steered_acceleration(a, velocity, mass, grounded, controls, player) == a,
{
}

/// With idle controls and a configured gravity of zero, an entity at rest
/// stays at rest through the controls and any number of ticks of physics,
/// player or not.
pub proof fn lemma_idle_rest_is_kept(c: Components, controls: Controls, config: Config, n: nat)
    requires
        config.physics.wf(),
        config.physics.gravity == 0,
        is_idle(controls),
        crate::integrator::at_rest(c),
    ensures
        spec_steer(c, controls, config) == c,
        crate::integrator::spec_physics_steps(
            spec_steer(c, controls, config),
            config.physics,
            n,
        ) == c,
{
    let f = config.player.float_modifier;
    assert(0 * f == 0) by (nonlinear_arith);
    assert(0int / (ONE as int) == 0);
    crate::integrator::lemma_rest_is_kept_forever(c, config.physics, n);
}

} // verus!

//! The camera follows the player inside the level.

use crate::common::WIDTH;
use crate::components::Components;
use crate::fixed::{
    fx_abs, fx_add, fx_half, fx_neg, fx_sub, spec_fx_abs, spec_fx_add, spec_fx_half, spec_fx_neg,
    spec_fx_sub,
};
use crate::game_state::{Camera, CameraMode, GameState};
use crate::geometry::{Point2, Vector2};
use crate::level::LevelSize;
use crate::world::{entities, snapshot, table_of, world_order};
use vstd::prelude::*;

verus! {

/// The camera after it followed a player at `position`.
///
/// Horizontally the camera trails the player by at most the deadzone.
/// Vertically a free camera sits on the player. The centre is then held
/// half a viewport width away from each edge of the level; where the level
/// is too small for both, the near edge wins.
pub open spec fn spec_follow(
    camera: Camera,
    position: Point2,
    deadzone: i64,
    level: LevelSize,
) -> Camera {
    let difference = spec_fx_sub(camera.center.x, position.x);
    let x = if spec_fx_abs(difference) > deadzone {
        spec_fx_add(
            position.x,
            if difference >= 0 {
                deadzone
            } else {
                spec_fx_neg(deadzone)
            },
        )
    } else {
        camera.center.x
    };
    let y = if camera.mode == CameraMode::Free {
        position.y
    } else {
        camera.center.y
    };
    let half = spec_fx_half(WIDTH);
    let far_x = spec_fx_sub(level.width, half);
    let far_y = spec_fx_sub(level.height, half);
    Camera {
        center: Vector2 {
            x: if x < half {
                half
            } else if x > far_x {
                far_x
            } else {
                x
            },
            y: if y < half {
                half
            } else if y > far_y {
                far_y
            } else {
                y
            },
        },
        mode: camera.mode,
    }
}

/// The camera follows an entity that is a player and has a position.
pub open spec fn is_followed(c: Components) -> bool {
    c.position is Some && c.player is Some
}

/// The camera after it followed the players among the first `upto`
/// entries of the table, in table order.
pub open spec fn spec_camera_after(
    entities: Seq<Components>,
    camera: Camera,
    deadzone: i64,
    level: LevelSize,
    upto: int,
) -> Camera
    decreases upto,
{
    if upto <= 0 {
        camera
    } else {
        let prev = spec_camera_after(entities, camera, deadzone, level, upto - 1);
        if upto - 1 < entities.len() && is_followed(entities[upto - 1]) {
            spec_follow(prev, entities[upto - 1].point(), deadzone, level)
        } else {
            prev
        }
    }
}

/// Moves the camera after a player.
pub fn follow(camera: &mut Camera, position: &Point2, deadzone: i64, level: &LevelSize)
    ensures
        *final(camera) == spec_follow(*old(camera), *position, deadzone, *level),
{
    let difference = fx_sub(camera.center.x, position.x);
    if fx_abs(difference) > deadzone {
        let lag = if difference >= 0 {
            deadzone
        } else {
            fx_neg(deadzone)
        };
        camera.center.x = fx_add(position.x, lag);
    }
    if camera.mode == CameraMode::Free {
        camera.center.y = position.y;
    }
    let half = fx_half(WIDTH);
    let far_x = fx_sub(level.width, half);
    let far_y = fx_sub(level.height, half);
    if camera.center.x < half {
        camera.center.x = half;
    } else if camera.center.x > far_x {
        camera.center.x = far_x;
    }
    if camera.center.y < half {
        camera.center.y = half;
    } else if camera.center.y > far_y {
        camera.center.y = far_y;
    }
}

/// Moves the camera after every player of the table, in table order.
pub fn camera_pass(
    entities: &Vec<Components>,
    camera: &mut Camera,
    deadzone: i64,
    level: &LevelSize,
)
    ensures
        *final(camera) == spec_camera_after(
            entities@,
            *old(camera),
            deadzone,
            *level,
            entities@.len() as int,
        ),
{
    let mut i: usize = 0;
    while i < entities.len()
        invariant
            i <= entities.len(),
            *camera == spec_camera_after(entities@, *old(camera), deadzone, *level, i as int),
        decreases entities.len() - i,
    {
        match (entities[i].position, entities[i].player) {
            (Some(p), Some(_)) => {
                follow(camera, &p.0, deadzone, level);
            },
            _ => {},
        }
        i += 1;
    }
}

impl GameState {
    /// Moves the camera after the players of the store, in the order in
    /// which the store walks them.
    pub fn move_camera(&mut self)
        requires
            old(self).wf(),
        ensures
            final(self).camera == spec_camera_after(
                table_of(old(self).world),
                old(self).camera,
                old(self).config.camera.deadzone,
                old(self).level().size,
                world_order(old(self).world).len() as int,
            ),
            final(self).world == old(self).world,
            final(self).tick == old(self).tick,
            final(self).config == old(self).config,
            final(self).controls == old(self).controls,
            final(self).restart_level == old(self).restart_level,
            final(self).change_level == old(self).change_level,
            final(self).current_level == old(self).current_level,
            final(self).levels == old(self).levels,
    {
        let size = self.levels.get(self.current_level.as_str()).unwrap().size;
        let ids = entities(&self.world);
        let table = snapshot(&mut self.world, &ids);
        assert(table@ =~= table_of(self.world));
        camera_pass(&table, &mut self.camera, self.config.camera.deadzone, &size);
    }
}

} // verus!

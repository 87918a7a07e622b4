//! The numeric knobs of the simulation. All scalars are fixed-point.

use vstd::prelude::*;

verus! {

#[derive(Clone, Copy, Debug, PartialEq, Eq, Structural)]
pub struct PlayerConfig {
    pub acceleration: i64,
    pub jump_acceleration: i64,
    pub mass: i64,
    pub size: i64,
    pub float_modifier: i64,
    pub allow_air_control: bool,
}

impl Default for PlayerConfig {
    /// Acceleration 1, jump acceleration 70, mass 10, size 32, float
    /// modifier one half, no air control.
    fn default() -> (c: PlayerConfig)
        ensures
            c == (PlayerConfig {
                acceleration: 65536,
                jump_acceleration: 4587520,
                mass: 655360,
                size: 2097152,
                float_modifier: 32768,
                allow_air_control: false,
            }),
    {
        PlayerConfig {
            acceleration: 65536,
            jump_acceleration: 4587520,
            mass: 655360,
            size: 2097152,
            float_modifier: 32768,
            allow_air_control: false,
        }
    }
}

#[derive(Clone, Copy, Debug, PartialEq, Eq, Structural)]
pub struct CameraConfig {
    pub deadzone: i64,
}

impl Default for CameraConfig {
    /// A deadzone of 16.
    fn default() -> (c: CameraConfig)
        ensures
            c == (CameraConfig { deadzone: 1048576 }),
    {
        CameraConfig { deadzone: 1048576 }
    }
}

#[derive(Clone, Copy, Debug, PartialEq, Eq, Structural)]
pub struct DebugConfig {
    pub draw_grid: bool,
    pub draw_bounds: bool,
}

impl Default for DebugConfig {
    fn default() -> (c: DebugConfig)
        ensures
            c == (DebugConfig { draw_grid: false, draw_bounds: false }),
    {
        DebugConfig { draw_grid: false, draw_bounds: false }
    }
}

#[derive(Clone, Copy, Debug, PartialEq, Eq, Structural)]
pub struct PhysicsConfig {
    pub max_horizontal_velocity: i64,
    pub max_vertical_velocity: i64,
    pub friction: i64,
    pub normal_force: i64,
    pub gravity: i64,
    pub movement_deadzone: i64,
}

impl PhysicsConfig {
    /// No knob is negative.
    pub open spec fn wf(self) -> bool {
        &&& self.max_horizontal_velocity >= 0
        &&& self.max_vertical_velocity >= 0
        &&& self.friction >= 0
        &&& self.normal_force >= 0
        &&& self.gravity >= 0
        &&& self.movement_deadzone >= 0
    }
}

impl Default for PhysicsConfig {
    /// Velocity limits of 10, friction one half, normal force 1, gravity
    /// 0.2 and a deadzone of 0.0001, each rounded to the nearest scalar.
    fn default() -> (c: PhysicsConfig)
        ensures
            c == (PhysicsConfig {
                max_horizontal_velocity: 655360,
                max_vertical_velocity: 655360,
                friction: 32768,
                normal_force: 65536,
                gravity: 13107,
                movement_deadzone: 7,
            }),
            c.wf(),
    {
        PhysicsConfig {
            max_horizontal_velocity: 655360,
            max_vertical_velocity: 655360,
            friction: 32768,
            normal_force: 65536,
            gravity: 13107,
            movement_deadzone: 7,
        }
    }
}

#[derive(Clone, Copy, Debug, PartialEq, Eq, Structural)]
pub struct Config {
    pub player: PlayerConfig,
    pub camera: CameraConfig,
    pub physics: PhysicsConfig,
    pub debug: DebugConfig,
}

impl Default for Config {
    fn default() -> (c: Config)
        ensures
            c.player == PlayerConfig::default_value(),
            c.camera == (CameraConfig { deadzone: 1048576 }),
            c.physics == PhysicsConfig::default_value(),
            c.debug == (DebugConfig { draw_grid: false, draw_bounds: false }),
    {
        Config {
            player: PlayerConfig::default(),
            camera: CameraConfig::default(),
            physics: PhysicsConfig::default(),
            debug: DebugConfig::default(),
        }
    }
}

impl PlayerConfig {
    /// The configuration that `default` returns.
    pub open spec fn default_value() -> PlayerConfig {
        PlayerConfig {
            acceleration: 65536,
            jump_acceleration: 4587520,
            mass: 655360,
            size: 2097152,
            float_modifier: 32768,
            allow_air_control: false,
        }
    }
}

impl PhysicsConfig {
    /// The configuration that `default` returns.
    pub open spec fn default_value() -> PhysicsConfig {
        PhysicsConfig {
            max_horizontal_velocity: 655360,
            max_vertical_velocity: 655360,
            friction: 32768,
            normal_force: 65536,
            gravity: 13107,
            movement_deadzone: 7,
        }
    }
}

} // verus!

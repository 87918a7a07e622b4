use platformer::camera::{camera_pass, follow};
use platformer::components::{
    Acceleration, BoundingBox, Components, Gravity, Grounded, Mass, Player, Position, Velocity,
};
use platformer::config::{CameraConfig, Config, DebugConfig, PhysicsConfig, PlayerConfig};
use platformer::controls::{key_down, key_up, steer, steer_pass, KeyCode};
use platformer::fixed::ONE;
use platformer::game_state::{Camera, CameraMode, Controls};
use platformer::geometry::{Point2, Rect, Vector2};
use platformer::level::{
    plan_level, Level, LevelSize, LevelText, Platform, Spawn, Start, Teleporter, TextColor,
};

fn fx(n: i64) -> i64 {
    n * ONE
}

#[test]
fn default_configuration() {
    let c = Config::default();
    assert_eq!(
        c.player,
        PlayerConfig {
            acceleration: ONE,
            jump_acceleration: fx(70),
            mass: fx(10),
            size: fx(32),
            float_modifier: ONE / 2,
            allow_air_control: false,
        }
    );
    assert_eq!(c.camera, CameraConfig { deadzone: fx(16) });
    assert_eq!(c.physics, PhysicsConfig::default());
    assert_eq!(c.debug, DebugConfig { draw_grid: false, draw_bounds: false });
    assert_eq!(CameraConfig::default(), CameraConfig { deadzone: fx(16) });
    assert_eq!(DebugConfig::default(), DebugConfig { draw_grid: false, draw_bounds: false });
    assert_eq!(TextColor::default(), TextColor { red: 0, green: 0, blue: 0 });
    assert_eq!(Camera::default(), Camera { center: Vector2::new(0, 0), mode: CameraMode::Free });
}

#[test]
fn default_level() {
    let level = Level::default();
    assert_eq!(level.size, LevelSize { width: fx(10000), height: fx(10000) });
    assert_eq!(level.start, Start { x: fx(2), y: fx(1) });
    assert_eq!(
        level.platforms,
        vec![
            Platform { x: 0, y: fx(2), width: fx(4), height: fx(1) },
            Platform { x: fx(6), y: fx(8), width: fx(4), height: fx(1) },
            Platform { x: fx(12), y: fx(14), width: fx(4), height: fx(1) },
        ]
    );
    assert_eq!(level.traps, vec![Platform { x: fx(4), y: fx(6), width: fx(4), height: fx(1) }]);
    assert!(level.teleporters.is_empty());
    assert!(level.texts.is_empty());
}

fn sample_level() -> Level {
    Level {
        size: LevelSize { width: fx(100), height: fx(50) },
        start: Start { x: fx(2), y: fx(3) },
        platforms: vec![Platform { x: fx(1), y: fx(2), width: fx(3), height: fx(4) }],
        traps: vec![Platform { x: fx(5), y: fx(6), width: fx(7), height: fx(8) }],
        teleporters: vec![Teleporter {
            x: fx(9),
            y: fx(10),
            width: fx(11),
            height: fx(12),
            target: "next".to_string(),
        }],
        texts: vec![LevelText {
            x: fx(13),
            y: fx(14),
            value: "hi".to_string(),
            size: fx(20),
            color: TextColor { red: 9, green: 8, blue: 7 },
        }],
    }
}

#[test]
fn scaling_a_level() {
    let mut level = sample_level();
    level.scale(fx(2));
    assert_eq!(level.size, LevelSize { width: fx(200), height: fx(100) });
    assert_eq!(level.start, Start { x: fx(4), y: fx(6) });
    assert_eq!(level.platforms, vec![Platform { x: fx(2), y: fx(4), width: fx(6), height: fx(8) }]);
    assert_eq!(level.traps, vec![Platform { x: fx(10), y: fx(12), width: fx(14), height: fx(16) }]);
    assert_eq!(level.teleporters.len(), 1);
    let t = &level.teleporters[0];
    assert_eq!((t.x, t.y, t.width, t.height), (fx(18), fx(20), fx(22), fx(24)));
    assert_eq!(t.target, "next");
    assert_eq!(level.texts.len(), 1);
    let t = &level.texts[0];
    assert_eq!((t.x, t.y, t.size), (fx(26), fx(28), fx(20)));
    assert_eq!(t.value, "hi");
    assert_eq!(t.color, TextColor { red: 9, green: 8, blue: 7 });
}

#[test]
fn planning_a_level() {
    let mut config = Config::default();
    config.player.size = fx(2);
    config.player.mass = fx(3);
    config.physics.gravity = fx(5);
    let plan = plan_level(&sample_level(), &config);
    assert_eq!(plan.len(), 5);
    match &plan[0] {
        Spawn::Player { position, mass, gravity, bounding_box } => {
            assert_eq!(*position, Position::new(fx(4), fx(43)));
            assert_eq!(*mass, Mass(fx(3)));
            assert_eq!(*gravity, Gravity(Vector2::new(0, fx(5))));
            assert_eq!(*bounding_box, BoundingBox(Rect::new(fx(-1), fx(-2), fx(2), fx(2))));
        }
        other => panic!("expected the player, found {:?}", other),
    }
    match &plan[1] {
        Spawn::Platform { bounding_box } => {
            assert_eq!(*bounding_box, BoundingBox(Rect::new(fx(2), fx(46), fx(7), fx(9))));
        }
        other => panic!("expected a platform, found {:?}", other),
    }
    match &plan[2] {
        Spawn::Trap { bounding_box } => {
            assert_eq!(*bounding_box, BoundingBox(Rect::new(fx(10), fx(38), fx(15), fx(17))));
        }
        other => panic!("expected a trap, found {:?}", other),
    }
    match &plan[3] {
        Spawn::Teleporter { bounding_box, target } => {
            assert_eq!(*bounding_box, BoundingBox(Rect::new(fx(18), fx(30), fx(23), fx(25))));
            assert_eq!(target, "next");
        }
        other => panic!("expected a teleporter, found {:?}", other),
    }
    match &plan[4] {
        Spawn::Text { position, text, color } => {
            assert_eq!(*position, Position::new(fx(26), fx(22)));
            assert_eq!(text.value, "hi");
            assert_eq!(text.size, fx(20));
            assert_eq!(*color, TextColor { red: 9, green: 8, blue: 7 });
        }
        other => panic!("expected a text, found {:?}", other),
    }
}

#[test]
fn camera_trails_by_the_deadzone() {
    let level = LevelSize { width: fx(5000), height: fx(5000) };
    let mut camera = Camera { center: Vector2::new(fx(1000), fx(1000)), mode: CameraMode::Locked };
    follow(&mut camera, &Point2::new(fx(1010), fx(2000)), fx(16), &level);
    assert_eq!(camera.center, Vector2::new(fx(1000), fx(1000)));
    follow(&mut camera, &Point2::new(fx(1016), fx(2000)), fx(16), &level);
    assert_eq!(camera.center, Vector2::new(fx(1000), fx(1000)));
    follow(&mut camera, &Point2::new(fx(1100), fx(2000)), fx(16), &level);
    assert_eq!(camera.center, Vector2::new(fx(1084), fx(1000)));
    follow(&mut camera, &Point2::new(fx(900), fx(2000)), fx(16), &level);
    assert_eq!(camera.center, Vector2::new(fx(916), fx(1000)));
    camera.mode = CameraMode::Free;
    follow(&mut camera, &Point2::new(fx(916), fx(2000)), fx(16), &level);
    assert_eq!(camera.center, Vector2::new(fx(916), fx(2000)));
}

#[test]
fn camera_in_a_level_smaller_than_the_viewport() {
    let level = LevelSize { width: fx(100), height: fx(100) };
    let mut camera = Camera { center: Vector2::new(0, 0), mode: CameraMode::Free };
    follow(&mut camera, &Point2::new(fx(50), fx(50)), fx(16), &level);
    assert_eq!(camera.center, Vector2::new(fx(640), fx(640)));
}

#[test]
fn camera_follows_each_player_of_the_table_in_turn() {
    let level = LevelSize { width: fx(5000), height: fx(5000) };
    let mut first = Components::empty();
    first.player = Some(Player);
    first.position = Some(Position::new(fx(1000), fx(1000)));
    let mut second = Components::empty();
    second.player = Some(Player);
    second.position = Some(Position::new(fx(2000), fx(3000)));
    let mut bystander = Components::empty();
    bystander.position = Some(Position::new(fx(4000), fx(4000)));
    let mut camera = Camera { center: Vector2::new(0, 0), mode: CameraMode::Free };
    camera_pass(&vec![first, bystander, second], &mut camera, fx(16), &level);
    assert_eq!(camera.center, Vector2::new(fx(1984), fx(3000)));
}

#[test]
fn steering_one_player() {
    let config = Config::default();
    let mut controls = Controls::default();
    controls.left_held = true;
    controls.right_held = true;
    controls.jump_pressed = true;
    let mut a = Acceleration::new(fx(1), fx(1));
    let mut g = Gravity(Vector2::new(fx(2), fx(2)));
    steer(&mut a, &mut g, &Velocity::new(0, 0), &Mass(fx(10)), true, &controls, &config);
    assert_eq!(a, Acceleration::new(fx(1), fx(-6)));
    assert_eq!(g, Gravity(Vector2::new(fx(2), 13107)));
    controls.jump_held = true;
    steer(&mut a, &mut g, &Velocity::new(0, 0), &Mass(fx(10)), false, &controls, &config);
    assert_eq!(a, Acceleration::new(fx(1), fx(-6)));
    assert_eq!(g, Gravity(Vector2::new(fx(2), 6553)));
}

#[test]
fn steering_the_table() {
    let mut config = Config::default();
    let mut controls = Controls::default();
    controls.right_held = true;
    controls.debug_pressed = true;
    let mut player = Components::empty();
    player.player = Some(Player);
    player.acceleration = Some(Acceleration::new(0, 0));
    player.gravity = Some(Gravity(Vector2::new(0, 0)));
    player.velocity = Some(Velocity::new(0, 0));
    player.mass = Some(Mass(fx(10)));
    player.grounded = Some(Grounded(true));
    let mut no_player = Components::empty();
    no_player.acceleration = Some(Acceleration::new(0, 0));
    no_player.gravity = Some(Gravity(Vector2::new(0, 0)));
    no_player.velocity = Some(Velocity::new(0, 0));
    no_player.mass = Some(Mass(fx(10)));
    no_player.grounded = Some(Grounded(true));
    let mut table = vec![no_player, player];
    steer_pass(&mut table, &controls, &mut config);
    assert_eq!(table[0].acceleration, Some(Acceleration::new(0, 0)));
    assert_eq!(table[0].gravity, Some(Gravity(Vector2::new(0, 0))));
    assert_eq!(table[1].acceleration, Some(Acceleration::new(6553, 0)));
    assert_eq!(table[1].gravity, Some(Gravity(Vector2::new(0, 13107))));
    assert_eq!(config.debug, DebugConfig { draw_grid: true, draw_bounds: true });
}

#[test]
fn key_functions_on_the_control_state() {
    let c = key_down(Controls::default(), KeyCode::Up, false);
    assert!(c.jump_pressed && c.jump_held && !c.up_held);
    let c = key_up(c, KeyCode::Up);
    assert!(c.jump_pressed && c.jump_held);
    let c = key_up(c, KeyCode::Space);
    assert!(!c.jump_pressed && !c.jump_held);
    let c = key_down(c, KeyCode::W, true);
    assert!(!c.up_pressed && c.up_held);
}

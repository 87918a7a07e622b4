use platformer::collision::{
    classify, clamp_to_level, collision_pass, resolve, resolve_mover, Contact, Mover, Signals,
};
use platformer::components::{
    BoundingBox, Components, Death, Grounded, Position, TeleportTo, Velocity,
};
use platformer::fixed::ONE;
use platformer::geometry::{Point2, Rect, Vector2};
use platformer::level::LevelSize;

fn fx(n: i64) -> i64 {
    n * ONE
}

const SIZE: i64 = 32 * ONE;

fn level() -> LevelSize {
    LevelSize { width: fx(1000), height: fx(1000) }
}

fn player_box() -> Rect {
    Rect::new(fx(-16), fx(-32), fx(32), fx(32))
}

fn mover(x: i64, y: i64, vx: i64, vy: i64) -> Components {
    let mut c = Components::empty();
    c.position = Some(Position::new(x, y));
    c.velocity = Some(Velocity::new(vx, vy));
    c.bounding_box = Some(BoundingBox(player_box()));
    c
}

fn block(x: i64, y: i64, w: i64, h: i64) -> Components {
    let mut c = Components::empty();
    c.bounding_box = Some(BoundingBox(Rect::new(x, y, w, h)));
    c
}

fn trap(x: i64, y: i64, w: i64, h: i64) -> Components {
    let mut c = block(x, y, w, h);
    c.death = Some(Death);
    c
}

fn teleporter(x: i64, y: i64, w: i64, h: i64, target: &str) -> Components {
    let mut c = block(x, y, w, h);
    c.teleport_to = Some(TeleportTo(target.to_string()));
    c
}

fn quiet() -> Signals {
    Signals { restart_level: false, change_level: None }
}

fn world_box(x: i64, y: i64) -> Rect {
    let mut r = player_box();
    r.translate(Vector2::new(x, y));
    r
}

#[test]
fn two_bottom_corners_make_a_floor() {
    let platform = Rect::new(fx(0), fx(500), fx(400), fx(40));
    assert_eq!(classify(&world_box(fx(100), fx(505)), &platform), Contact::Floor);
}

#[test]
fn two_top_corners_make_a_ceiling() {
    let platform = Rect::new(fx(0), fx(500), fx(400), fx(40));
    assert_eq!(classify(&world_box(fx(100), fx(565)), &platform), Contact::Ceiling);
}

#[test]
fn two_left_corners_make_a_wall_on_the_left() {
    let wall = Rect::new(fx(0), fx(0), fx(100), fx(400));
    assert_eq!(classify(&world_box(fx(110), fx(200)), &wall), Contact::RightWall);
}

#[test]
fn two_right_corners_make_a_wall_on_the_right() {
    let wall = Rect::new(fx(200), fx(0), fx(100), fx(400));
    assert_eq!(classify(&world_box(fx(190), fx(200)), &wall), Contact::LeftWall);
}

#[test]
fn four_corners_inside_count_as_a_floor() {
    let big = Rect::new(fx(0), fx(0), fx(400), fx(400));
    assert_eq!(classify(&world_box(fx(100), fx(100)), &big), Contact::Floor);
}

#[test]
fn no_corner_inside_is_a_miss() {
    let thin = Rect::new(fx(95), fx(0), fx(10), fx(400));
    assert_eq!(classify(&world_box(fx(100), fx(200)), &thin), Contact::Miss);
}

#[test]
fn a_single_bottom_corner_takes_the_shallower_axis() {
    // The platform ends at x = 100; the mover's box spans 90..122 and 470..502.
    let platform = Rect::new(fx(0), fx(500), fx(100), fx(40));
    // bottom-left corner is 2 deep and 10 across: floor
    assert_eq!(classify(&world_box(fx(106), fx(502)), &platform), Contact::Floor);
    // 20 deep and 10 across: the wall on the left
    assert_eq!(classify(&world_box(fx(106), fx(520)), &platform), Contact::RightWall);
    // a tie goes to the floor
    assert_eq!(classify(&world_box(fx(106), fx(510)), &platform), Contact::Floor);
    // bottom-right corner on a platform that begins at x = 200
    let other = Rect::new(fx(200), fx(500), fx(100), fx(40));
    assert_eq!(classify(&world_box(fx(190), fx(502)), &other), Contact::Floor);
    assert_eq!(classify(&world_box(fx(190), fx(520)), &other), Contact::LeftWall);
}

#[test]
fn a_single_top_corner_takes_the_shallower_axis() {
    // The platform spans 0..100 and 500..540.
    let platform = Rect::new(fx(0), fx(500), fx(100), fx(40));
    // top-left corner at (90, 538): 2 below the ceiling's face, 10 across
    assert_eq!(classify(&world_box(fx(106), fx(570)), &platform), Contact::Ceiling);
    // top-left corner at (90, 520): 20 and 10
    assert_eq!(classify(&world_box(fx(106), fx(552)), &platform), Contact::RightWall);
    let other = Rect::new(fx(200), fx(500), fx(100), fx(40));
    assert_eq!(classify(&world_box(fx(190), fx(570)), &other), Contact::Ceiling);
    assert_eq!(classify(&world_box(fx(190), fx(552)), &other), Contact::LeftWall);
}

#[test]
fn resolving_each_contact() {
    let other = Rect::new(fx(100), fx(500), fx(200), fx(40));
    let m = Mover { velocity: Vector2::new(fx(3), fx(5)), position: Point2::new(fx(150), fx(505)), grounded: false };
    assert_eq!(
        resolve(m, Contact::Floor, &other, SIZE),
        Mover { velocity: Vector2::new(fx(3), 0), position: Point2::new(fx(150), fx(500)), grounded: true }
    );
    assert_eq!(
        resolve(m, Contact::Ceiling, &other, SIZE),
        Mover { velocity: Vector2::new(fx(3), fx(5) / 2), position: Point2::new(fx(150), fx(572)), grounded: false }
    );
    assert_eq!(
        resolve(m, Contact::RightWall, &other, SIZE),
        Mover { velocity: Vector2::new(0, fx(5)), position: Point2::new(fx(316), fx(505)), grounded: false }
    );
    assert_eq!(
        resolve(m, Contact::LeftWall, &other, SIZE),
        Mover { velocity: Vector2::new(0, fx(5)), position: Point2::new(fx(84), fx(505)), grounded: false }
    );
    assert_eq!(resolve(m, Contact::Miss, &other, SIZE), m);
}

#[test]
fn ceiling_halves_an_upward_velocity_toward_zero() {
    let other = Rect::new(0, 0, fx(10), fx(10));
    let m = Mover { velocity: Vector2::new(0, -3), position: Point2::new(0, 0), grounded: true };
    let r = resolve(m, Contact::Ceiling, &other, SIZE);
    assert_eq!(r.velocity.y, -1);
    assert!(r.grounded);
}

#[test]
fn level_boundaries_stop_a_mover() {
    let bbox = world_box(0, 0);
    let inside = Mover { velocity: Vector2::new(fx(1), fx(1)), position: Point2::new(fx(500), fx(500)), grounded: false };
    assert_eq!(clamp_to_level(inside, &bbox, &level()), (inside, false));
    let left = Mover { position: Point2::new(fx(16), fx(500)), ..inside };
    assert_eq!(
        clamp_to_level(left, &bbox, &level()).0,
        Mover { velocity: Vector2::new(0, fx(1)), position: Point2::new(fx(16), fx(500)), grounded: false }
    );
    let right = Mover { position: Point2::new(fx(2000), fx(500)), ..inside };
    assert_eq!(
        clamp_to_level(right, &bbox, &level()),
        (Mover { velocity: Vector2::new(0, fx(1)), position: Point2::new(fx(984), fx(500)), grounded: false }, false)
    );
    let top = Mover { position: Point2::new(fx(500), fx(-5)), ..inside };
    assert_eq!(
        clamp_to_level(top, &bbox, &level()),
        (Mover { velocity: Vector2::new(fx(1), 0), position: Point2::new(fx(500), fx(16)), grounded: false }, false)
    );
}

#[test]
fn reaching_the_bottom_boundary_stops_and_restarts() {
    let bbox = world_box(0, 0);
    for vy in [fx(5), 0, fx(-5)] {
        let m = Mover { velocity: Vector2::new(fx(1), vy), position: Point2::new(fx(500), fx(984)), grounded: false };
        let (out, fell) = clamp_to_level(m, &bbox, &level());
        assert!(fell);
        assert_eq!(out.velocity, Vector2::new(fx(1), 0));
        assert_eq!(out.position, Point2::new(fx(500), fx(984)));
    }
    let above = Mover { velocity: Vector2::new(0, fx(5)), position: Point2::new(fx(500), fx(984) - 1), grounded: false };
    assert_eq!(clamp_to_level(above, &bbox, &level()), (above, false));
}

#[test]
fn falling_box_lands_on_a_platform() {
    let mut table = vec![mover(fx(100), fx(505), fx(2), fx(5)), block(0, fx(500), fx(400), fx(40))];
    let mut signals = quiet();
    collision_pass(&mut table, SIZE, &level(), &mut signals);
    assert_eq!(table[0].velocity, Some(Velocity::new(fx(2), 0)));
    assert_eq!(table[0].position, Some(Position::new(fx(100), fx(500))));
    assert_eq!(table[0].grounded, Some(Grounded(true)));
    assert!(!signals.restart_level);
    assert_eq!(signals.change_level, None);
    // the platform is no mover and is left as it was
    assert_eq!(table[1].bounding_box, Some(BoundingBox(Rect::new(0, fx(500), fx(400), fx(40)))));
    assert!(table[1].grounded.is_none());
}

#[test]
fn resting_on_the_edge_is_no_contact() {
    // The mover's bottom edge lies on the platform's top edge.
    let mut standing = mover(fx(100), fx(500), 0, 0);
    standing.grounded = Some(Grounded(true));
    let mut table = vec![standing, block(0, fx(500), fx(400), fx(40))];
    let mut signals = quiet();
    collision_pass(&mut table, SIZE, &level(), &mut signals);
    assert_eq!(table[0].position, Some(Position::new(fx(100), fx(500))));
    assert_eq!(table[0].grounded, Some(Grounded(false)));
}

#[test]
fn grounded_flags_are_replaced_every_pass() {
    let mut flying = mover(fx(100), fx(300), 0, 0);
    flying.grounded = Some(Grounded(true));
    let mut bystander = Components::empty();
    bystander.grounded = Some(Grounded(true));
    let mut table = vec![flying, bystander, mover(fx(600), fx(300), 0, 0)];
    let mut signals = quiet();
    collision_pass(&mut table, SIZE, &level(), &mut signals);
    assert_eq!(table[0].grounded, Some(Grounded(false)));
    assert_eq!(table[1].grounded, Some(Grounded(false)));
    assert_eq!(table[2].grounded, None);
}

#[test]
fn falling_through_the_floor_restarts_the_level() {
    for vy in [fx(9), fx(-9)] {
        let mut table = vec![mover(fx(100), fx(990), fx(1), vy)];
        let mut signals = quiet();
        collision_pass(&mut table, SIZE, &level(), &mut signals);
        assert!(signals.restart_level);
        assert_eq!(table[0].velocity, Some(Velocity::new(fx(1), 0)));
        assert_eq!(table[0].position, Some(Position::new(fx(100), fx(984))));
    }
}

#[test]
fn side_boundaries_do_not_restart() {
    let mut table = vec![mover(fx(-50), fx(500), fx(-3), fx(1)), mover(fx(500), fx(2), 0, fx(-1))];
    let mut signals = quiet();
    collision_pass(&mut table, SIZE, &level(), &mut signals);
    assert!(!signals.restart_level);
    assert_eq!(table[0].position, Some(Position::new(fx(16), fx(500))));
    assert_eq!(table[0].velocity, Some(Velocity::new(0, fx(1))));
    assert_eq!(table[1].position, Some(Position::new(fx(500), fx(16))));
    assert_eq!(table[1].velocity, Some(Velocity::new(0, 0)));
}

#[test]
fn overlapping_a_trap_restarts_the_level() {
    let mut table = vec![mover(fx(100), fx(505), 0, fx(5)), trap(0, fx(500), fx(400), fx(40))];
    let mut signals = quiet();
    collision_pass(&mut table, SIZE, &level(), &mut signals);
    assert!(signals.restart_level);
}

#[test]
fn a_restart_that_stands_is_kept() {
    let mut table = vec![mover(fx(100), fx(300), 0, 0)];
    let mut signals = Signals { restart_level: true, change_level: Some("x".to_string()) };
    collision_pass(&mut table, SIZE, &level(), &mut signals);
    assert!(signals.restart_level);
    assert_eq!(signals.change_level, Some("x".to_string()));
}

#[test]
fn touching_a_trap_along_an_edge_is_harmless() {
    // The trap's top edge is the mover's bottom edge; the other begins where the mover ends.
    let mut table = vec![
        mover(fx(100), fx(500), 0, 0),
        trap(0, fx(500), fx(400), fx(40)),
        trap(fx(116), fx(400), fx(50), fx(200)),
    ];
    let mut signals = quiet();
    collision_pass(&mut table, SIZE, &level(), &mut signals);
    assert!(!signals.restart_level);
}

#[test]
fn a_trap_without_area_is_harmless() {
    let mut table = vec![
        mover(fx(100), fx(500), 0, 0),
        trap(fx(100), fx(400), 0, fx(200)),
        trap(fx(0), fx(490), fx(400), 0),
    ];
    let mut signals = quiet();
    collision_pass(&mut table, SIZE, &level(), &mut signals);
    assert!(!signals.restart_level);
}

#[test]
fn a_thin_trap_with_area_is_deadly() {
    let mut table = vec![mover(fx(100), fx(500), 0, 0), trap(fx(100), fx(400), 1, fx(200))];
    let mut signals = quiet();
    collision_pass(&mut table, SIZE, &level(), &mut signals);
    assert!(signals.restart_level);
}

#[test]
fn overlapping_a_teleporter_names_the_next_level() {
    let mut table = vec![mover(fx(100), fx(505), 0, 0), teleporter(0, fx(500), fx(400), fx(40), "X")];
    let mut signals = quiet();
    collision_pass(&mut table, SIZE, &level(), &mut signals);
    assert_eq!(signals.change_level, Some("X".to_string()));
    assert!(!signals.restart_level);
}

#[test]
fn the_last_teleporter_wins() {
    let mut table = vec![
        teleporter(0, fx(500), fx(400), fx(40), "first"),
        mover(fx(100), fx(505), 0, 0),
        teleporter(0, fx(480), fx(400), fx(40), "second"),
        block(0, fx(470), fx(400), fx(100)),
    ];
    let mut signals = Signals { restart_level: false, change_level: Some("before".to_string()) };
    collision_pass(&mut table, SIZE, &level(), &mut signals);
    assert_eq!(signals.change_level, Some("second".to_string()));
    let mut swapped = vec![
        teleporter(0, fx(480), fx(400), fx(40), "second"),
        mover(fx(100), fx(505), 0, 0),
        teleporter(0, fx(500), fx(400), fx(40), "first"),
    ];
    let mut signals = quiet();
    collision_pass(&mut swapped, SIZE, &level(), &mut signals);
    assert_eq!(signals.change_level, Some("first".to_string()));
}

#[test]
fn a_box_that_is_no_teleporter_keeps_the_named_level() {
    let mut table = vec![
        mover(fx(100), fx(505), 0, 0),
        teleporter(0, fx(500), fx(400), fx(40), "X"),
        block(0, fx(500), fx(400), fx(40)),
    ];
    let mut signals = quiet();
    collision_pass(&mut table, SIZE, &level(), &mut signals);
    assert_eq!(signals.change_level, Some("X".to_string()));
}

#[test]
fn later_contacts_override_earlier_snaps() {
    // A floor, then a wall on the left: both are applied, in table order.
    let mut table = vec![
        mover(fx(100), fx(505), fx(-2), fx(5)),
        block(0, fx(500), fx(400), fx(40)),
        block(0, fx(400), fx(90), fx(200)),
    ];
    let mut signals = quiet();
    collision_pass(&mut table, SIZE, &level(), &mut signals);
    assert_eq!(table[0].velocity, Some(Velocity::new(0, 0)));
    assert_eq!(table[0].position, Some(Position::new(fx(106), fx(500))));
    assert_eq!(table[0].grounded, Some(Grounded(true)));
}

#[test]
fn a_mover_does_not_collide_with_itself_but_with_other_movers() {
    let mut table = vec![mover(fx(100), fx(505), 0, fx(1)), mover(fx(100), fx(537), 0, 0)];
    let mut signals = quiet();
    collision_pass(&mut table, SIZE, &level(), &mut signals);
    // The second mover's box as it stands in the table: -16..16 and -32..0, far away.
    assert_eq!(table[0].position, Some(Position::new(fx(100), fx(505))));
    assert_eq!(table[0].grounded, None);
    let mut alone = vec![mover(fx(100), fx(505), 0, fx(1))];
    collision_pass(&mut alone, SIZE, &level(), &mut signals);
    assert_eq!(alone[0].position, Some(Position::new(fx(100), fx(505))));
}

#[test]
fn resolve_mover_answers_only_for_movers() {
    let table = vec![mover(fx(100), fx(505), fx(2), fx(5)), block(0, fx(500), fx(400), fx(40))];
    let mut signals = quiet();
    assert_eq!(
        resolve_mover(&table, 0, SIZE, &level(), &mut signals),
        Some(Mover { velocity: Vector2::new(fx(2), 0), position: Point2::new(fx(100), fx(500)), grounded: true })
    );
    assert_eq!(resolve_mover(&table, 1, SIZE, &level(), &mut signals), None);
    assert_eq!(resolve_mover(&table, 2, SIZE, &level(), &mut signals), None);
    assert!(!signals.restart_level);
}

//! Level descriptions: the world size and the static geometry of a level.

use crate::atom::{atom_eq, atom_from, atom_text};
use crate::components::{
    Acceleration, BoundingBox, Components, Death, Gravity, LevelId, Mass, Player, Position,
    TeleportTo, TextContainer, Velocity, ZOrder,
};
use crate::config::Config;
use crate::fixed::{
    fx_add, fx_half, fx_mul, fx_neg, fx_sub, spec_fx_add, spec_fx_half, spec_fx_mul, spec_fx_neg,
    spec_fx_sub, ONE,
};
use crate::game_state::GameState;
use crate::geometry::{Point2, Rect, Vector2};
use crate::world::{despawn, entities, get, put, spawn_empty, world_view};
use hecs::{Entity, World};
use vstd::prelude::*;

verus! {

/// A solid or deadly rectangle, in grid cells.
#[derive(Clone, Copy, Debug, PartialEq, Eq, Structural)]
pub struct Platform {
    pub x: i64,
    pub y: i64,
    pub width: i64,
    pub height: i64,
}

#[derive(Clone, Copy, Debug, PartialEq, Eq, Structural)]
pub struct TextColor {
    pub red: u8,
    pub green: u8,
    pub blue: u8,
}

impl Default for TextColor {
    /// Black.
    fn default() -> (c: TextColor)
        ensures
            c == (TextColor { red: 0, green: 0, blue: 0 }),
    {
        TextColor { red: 0, green: 0, blue: 0 }
    }
}

#[derive(Clone, Debug)]
pub struct LevelText {
    pub x: i64,
    pub y: i64,
    pub value: String,
    pub size: i64,
    pub color: TextColor,
}

#[derive(Clone, Debug)]
pub struct Teleporter {
    pub x: i64,
    pub y: i64,
    pub width: i64,
    pub height: i64,
    pub target: String,
}

#[derive(Clone, Copy, Debug, PartialEq, Eq, Structural)]
pub struct Start {
    pub x: i64,
    pub y: i64,
}

/// The hard boundary of a level, in world units.
#[derive(Clone, Copy, Debug, PartialEq, Eq, Structural)]
pub struct LevelSize {
    pub width: i64,
    pub height: i64,
}

#[derive(Clone, Debug)]
pub struct Level {
    pub size: LevelSize,
    pub start: Start,
    pub platforms: Vec<Platform>,
    pub traps: Vec<Platform>,
    pub teleporters: Vec<Teleporter>,
    pub texts: Vec<LevelText>,
}

} // verus!

verus! {

/// A level as specifications see it.
pub struct LevelView {
    pub size: LevelSize,
    pub start: Start,
    pub platforms: Seq<Platform>,
    pub traps: Seq<Platform>,
    pub teleporters: Seq<Teleporter>,
    pub texts: Seq<LevelText>,
}

impl View for Level {
    type V = LevelView;

    open spec fn view(&self) -> LevelView {
        LevelView {
            size: self.size,
            start: self.start,
            platforms: self.platforms@,
            traps: self.traps@,
            teleporters: self.teleporters@,
            texts: self.texts@,
        }
    }
}

/// The level that `Level::default` returns.
pub open spec fn spec_default_level() -> LevelView {
    LevelView {
        size: LevelSize { width: 655360000, height: 655360000 },
        start: Start { x: 131072, y: 65536 },
        platforms: seq![
            Platform { x: 0, y: 131072, width: 262144, height: 65536 },
            Platform { x: 393216, y: 524288, width: 262144, height: 65536 },
            Platform { x: 786432, y: 917504, width: 262144, height: 65536 },
        ],
        traps: seq![Platform { x: 262144, y: 393216, width: 262144, height: 65536 }],
        teleporters: Seq::empty(),
        texts: Seq::empty(),
    }
}

impl Default for Level {
    /// A level of 10000 by 10000 cells with the start at (2, 1), three
    /// platforms four cells wide and one trap.
    fn default() -> (level: Level)
        ensures
            level@ == spec_default_level(),
    {
        let mut platforms: Vec<Platform> = Vec::new();
        platforms.push(Platform { x: 0, y: 131072, width: 262144, height: 65536 });
        platforms.push(Platform { x: 393216, y: 524288, width: 262144, height: 65536 });
        platforms.push(Platform { x: 786432, y: 917504, width: 262144, height: 65536 });
        let mut traps: Vec<Platform> = Vec::new();
        traps.push(Platform { x: 262144, y: 393216, width: 262144, height: 65536 });
        let level = Level {
            size: LevelSize { width: 655360000, height: 655360000 },
            start: Start { x: 131072, y: 65536 },
            platforms,
            traps,
            teleporters: Vec::new(),
            texts: Vec::new(),
        };
        assert(level.platforms@ =~= spec_default_level().platforms);
        assert(level.traps@ =~= spec_default_level().traps);
        assert(level.teleporters@ =~= spec_default_level().teleporters);
        assert(level.texts@ =~= spec_default_level().texts);
        level
    }
}

/// A rectangle of cells with every length multiplied by `factor`.
pub open spec fn spec_scaled_platform(p: Platform, factor: i64) -> Platform {
    Platform {
        x: spec_fx_mul(p.x, factor),
        y: spec_fx_mul(p.y, factor),
        width: spec_fx_mul(p.width, factor),
        height: spec_fx_mul(p.height, factor),
    }
}

/// A teleporter with every length multiplied by `factor`.
pub open spec fn spec_scaled_teleporter(t: Teleporter, factor: i64) -> Teleporter {
    Teleporter {
        x: spec_fx_mul(t.x, factor),
        y: spec_fx_mul(t.y, factor),
        width: spec_fx_mul(t.width, factor),
        height: spec_fx_mul(t.height, factor),
        target: t.target,
    }
}

/// A text with its place multiplied by `factor`; its own size is kept.
pub open spec fn spec_scaled_text(t: LevelText, factor: i64) -> LevelText {
    LevelText { x: spec_fx_mul(t.x, factor), y: spec_fx_mul(t.y, factor), ..t }
}

/// A level with every length and place multiplied by `factor`.
pub open spec fn spec_scaled_level(level: LevelView, factor: i64) -> LevelView {
    LevelView {
        size: LevelSize {
            width: spec_fx_mul(level.size.width, factor),
            height: spec_fx_mul(level.size.height, factor),
        },
        start: Start {
            x: spec_fx_mul(level.start.x, factor),
            y: spec_fx_mul(level.start.y, factor),
        },
        platforms: Seq::new(
            level.platforms.len(),
            |i: int| spec_scaled_platform(level.platforms[i], factor),
        ),
        traps: Seq::new(level.traps.len(), |i: int| spec_scaled_platform(level.traps[i], factor)),
        teleporters: Seq::new(
            level.teleporters.len(),
            |i: int| spec_scaled_teleporter(level.teleporters[i], factor),
        ),
        texts: Seq::new(level.texts.len(), |i: int| spec_scaled_text(level.texts[i], factor)),
    }
}

fn scale_platforms(platforms: &mut Vec<Platform>, factor: i64)
    ensures
        final(platforms)@ == Seq::new(
            old(platforms)@.len(),
            |i: int| spec_scaled_platform(old(platforms)@[i], factor),
        ),
{
    let n = platforms.len();
    let mut i: usize = 0;
    while i < n
        invariant
            i <= n,
            n == platforms.len(),
            n == old(platforms)@.len(),
            forall|k: int|
                0 <= k < i ==> #[trigger] platforms@[k] == spec_scaled_platform(
                    old(platforms)@[k],
                    factor,
                ),
            forall|k: int| i <= k < n ==> #[trigger] platforms@[k] == old(platforms)@[k],
        decreases n - i,
    {
        let p = platforms[i];
        platforms[i] = Platform {
            x: fx_mul(p.x, factor),
            y: fx_mul(p.y, factor),
            width: fx_mul(p.width, factor),
            height: fx_mul(p.height, factor),
        };
        i += 1;
    }
    assert(platforms@ =~= Seq::new(
        old(platforms)@.len(),
        |i: int| spec_scaled_platform(old(platforms)@[i], factor),
    ));
}

impl Level {
    /// Multiplies every length and place of the level by `factor`.
    pub fn scale(&mut self, factor: i64)
        ensures
            final(self)@ == spec_scaled_level(old(self)@, factor),
    {
        self.size.width = fx_mul(self.size.width, factor);
        self.size.height = fx_mul(self.size.height, factor);
        self.start.x = fx_mul(self.start.x, factor);
        self.start.y = fx_mul(self.start.y, factor);
        scale_platforms(&mut self.platforms, factor);
        scale_platforms(&mut self.traps, factor);
        let n = self.teleporters.len();
        let mut i: usize = 0;
        while i < n
            invariant
                i <= n,
                n == self.teleporters.len(),
                n == old(self).teleporters@.len(),
                self.size == spec_scaled_level(old(self)@, factor).size,
                self.start == spec_scaled_level(old(self)@, factor).start,
                self.platforms@ == spec_scaled_level(old(self)@, factor).platforms,
                self.traps@ == spec_scaled_level(old(self)@, factor).traps,
                self.texts == old(self).texts,
                forall|k: int|
                    0 <= k < i ==> #[trigger] self.teleporters@[k] == spec_scaled_teleporter(
                        old(self).teleporters@[k],
                        factor,
                    ),
                forall|k: int|
                    i <= k < n ==> #[trigger] self.teleporters@[k] == old(self).teleporters@[k],
            decreases n - i,
        {
            let t = &mut self.teleporters[i];
            t.x = fx_mul(t.x, factor);
            t.y = fx_mul(t.y, factor);
            t.width = fx_mul(t.width, factor);
            t.height = fx_mul(t.height, factor);
            i += 1;
        }
        let n = self.texts.len();
        let mut i: usize = 0;
        while i < n
            invariant
                i <= n,
                n == self.texts.len(),
                n == old(self).texts@.len(),
                self.size == spec_scaled_level(old(self)@, factor).size,
                self.start == spec_scaled_level(old(self)@, factor).start,
                self.platforms@ == spec_scaled_level(old(self)@, factor).platforms,
                self.traps@ == spec_scaled_level(old(self)@, factor).traps,
                self.teleporters@ =~= spec_scaled_level(old(self)@, factor).teleporters,
                forall|k: int|
                    0 <= k < i ==> #[trigger] self.texts@[k] == spec_scaled_text(
                        old(self).texts@[k],
                        factor,
                    ),
                forall|k: int| i <= k < n ==> #[trigger] self.texts@[k] == old(self).texts@[k],
            decreases n - i,
        {
            let t = &mut self.texts[i];
            t.x = fx_mul(t.x, factor);
            t.y = fx_mul(t.y, factor);
            i += 1;
        }
        assert(self.texts@ =~= spec_scaled_level(old(self)@, factor).texts);
    }
}

} // verus!

verus! {

/// An entity that a level asks for.
#[derive(Debug)]
pub enum Spawn {
    Player { position: Position, mass: Mass, gravity: Gravity, bounding_box: BoundingBox },
    Platform { bounding_box: BoundingBox },
    Trap { bounding_box: BoundingBox },
    Teleporter { bounding_box: BoundingBox, target: String },
    Text { position: Position, text: TextContainer, color: TextColor },
}

/// Drawing order of the player.
pub const PLAYER_Z: i32 = 0;

/// Drawing order of the geometry of a level.
pub const GEOMETRY_Z: i32 = 20;

/// The box of a rectangle of the level: its cells times the player's
/// size, one unit larger each way, measured upward from the level's
/// bottom.
pub open spec fn spec_block(
    x: i64,
    y: i64,
    width: i64,
    height: i64,
    level_height: i64,
    size: i64,
) -> BoundingBox {
    BoundingBox(
        Rect {
            x: spec_fx_mul(x, size),
            y: spec_fx_sub(level_height, spec_fx_mul(y, size)),
            w: spec_fx_add(spec_fx_mul(width, size), ONE),
            h: spec_fx_add(spec_fx_mul(height, size), ONE),
        },
    )
}

/// The player that a level asks for: one unit above its start, at rest,
/// under the configured gravity, in a box one player size wide and high
/// that stands on its position.
pub open spec fn spec_player_spawn(level: LevelView, config: Config) -> Spawn {
    let size = config.player.size;
    Spawn::Player {
        position: Position(
            Point2 {
                x: spec_fx_mul(level.start.x, size),
                y: spec_fx_sub(
                    spec_fx_sub(level.size.height, spec_fx_mul(level.start.y, size)),
                    ONE,
                ),
            },
        ),
        mass: Mass(config.player.mass),
        gravity: Gravity(Vector2 { x: 0, y: config.physics.gravity }),
        bounding_box: BoundingBox(
            Rect { x: spec_fx_neg(spec_fx_half(size)), y: spec_fx_neg(size), w: size, h: size },
        ),
    }
}

pub open spec fn spec_platform_spawn(p: Platform, level: LevelView, config: Config) -> Spawn {
    Spawn::Platform {
        bounding_box: spec_block(
            p.x,
            p.y,
            p.width,
            p.height,
            level.size.height,
            config.player.size,
        ),
    }
}

pub open spec fn spec_trap_spawn(p: Platform, level: LevelView, config: Config) -> Spawn {
    Spawn::Trap {
        bounding_box: spec_block(
            p.x,
            p.y,
            p.width,
            p.height,
            level.size.height,
            config.player.size,
        ),
    }
}

pub open spec fn spec_teleporter_spawn(t: Teleporter, level: LevelView, config: Config) -> Spawn {
    Spawn::Teleporter {
        bounding_box: spec_block(
            t.x,
            t.y,
            t.width,
            t.height,
            level.size.height,
            config.player.size,
        ),
        target: t.target,
    }
}

pub open spec fn spec_text_spawn(t: LevelText, level: LevelView, config: Config) -> Spawn {
    Spawn::Text {
        position: Position(
            Point2 {
                x: spec_fx_mul(t.x, config.player.size),
                y: spec_fx_sub(level.size.height, spec_fx_mul(t.y, config.player.size)),
            },
        ),
        text: TextContainer { value: t.value, size: t.size },
        color: t.color,
    }
}

/// The entities that a level asks for: the player, then the platforms,
/// the traps, the teleporters and the texts, each kind in the order of the
/// level.
pub open spec fn spec_plan(level: LevelView, config: Config) -> Seq<Spawn> {
    seq![spec_player_spawn(level, config)] + Seq::new(
        level.platforms.len(),
        |i: int| spec_platform_spawn(level.platforms[i], level, config),
    ) + Seq::new(level.traps.len(), |i: int| spec_trap_spawn(level.traps[i], level, config))
        + Seq::new(
        level.teleporters.len(),
        |i: int| spec_teleporter_spawn(level.teleporters[i], level, config),
    ) + Seq::new(level.texts.len(), |i: int| spec_text_spawn(level.texts[i], level, config))
}

fn block(x: i64, y: i64, width: i64, height: i64, level_height: i64, size: i64) -> (b: BoundingBox)
    ensures
        b == spec_block(x, y, width, height, level_height, size),
{
    BoundingBox(
        Rect {
            x: fx_mul(x, size),
            y: fx_sub(level_height, fx_mul(y, size)),
            w: fx_add(fx_mul(width, size), ONE),
            h: fx_add(fx_mul(height, size), ONE),
        },
    )
}

/// Lists the entities that a level asks for.
pub fn plan_level(level: &Level, config: &Config) -> (plan: Vec<Spawn>)
    ensures
        plan@ == spec_plan(level@, *config),
{
    let size = config.player.size;
    let height = level.size.height;
    let mut plan: Vec<Spawn> = Vec::new();
    plan.push(
        Spawn::Player {
            position: Position(
                Point2 {
                    x: fx_mul(level.start.x, size),
                    y: fx_sub(fx_sub(height, fx_mul(level.start.y, size)), ONE),
                },
            ),
            mass: Mass(config.player.mass),
            gravity: Gravity(Vector2 { x: 0, y: config.physics.gravity }),
            bounding_box: BoundingBox(
                Rect { x: fx_neg(fx_half(size)), y: fx_neg(size), w: size, h: size },
            ),
        },
    );
    let ghost first = seq![spec_player_spawn(level@, *config)];
    assert(plan@ =~= first);
    let mut i: usize = 0;
    while i < level.platforms.len()
        invariant
            i <= level.platforms.len(),
            size == config.player.size,
            height == level.size.height,
            plan@ == first + Seq::new(
                i as nat,
                |k: int| spec_platform_spawn(level@.platforms[k], level@, *config),
            ),
        decreases level.platforms.len() - i,
    {
        let p = level.platforms[i];
        plan.push(Spawn::Platform { bounding_box: block(p.x, p.y, p.width, p.height, height, size) });
        i += 1;
        assert(plan@ =~= first + Seq::new(
            i as nat,
            |k: int| spec_platform_spawn(level@.platforms[k], level@, *config),
        ));
    }
    let ghost second = plan@;
    let mut i: usize = 0;
    assert(plan@ =~= second + Seq::new(
        0,
        |k: int| spec_trap_spawn(level@.traps[k], level@, *config),
    ));
    while i < level.traps.len()
        invariant
            i <= level.traps.len(),
            size == config.player.size,
            height == level.size.height,
            plan@ == second + Seq::new(
                i as nat,
                |k: int| spec_trap_spawn(level@.traps[k], level@, *config),
            ),
        decreases level.traps.len() - i,
    {
        let p = level.traps[i];
        plan.push(Spawn::Trap { bounding_box: block(p.x, p.y, p.width, p.height, height, size) });
        i += 1;
        assert(plan@ =~= second + Seq::new(
            i as nat,
            |k: int| spec_trap_spawn(level@.traps[k], level@, *config),
        ));
    }
    let ghost third = plan@;
    let mut i: usize = 0;
    assert(plan@ =~= third + Seq::new(
        0,
        |k: int| spec_teleporter_spawn(level@.teleporters[k], level@, *config),
    ));
    while i < level.teleporters.len()
        invariant
            i <= level.teleporters.len(),
            size == config.player.size,
            height == level.size.height,
            plan@ == third + Seq::new(
                i as nat,
                |k: int| spec_teleporter_spawn(level@.teleporters[k], level@, *config),
            ),
        decreases level.teleporters.len() - i,
    {
        let t = &level.teleporters[i];
        plan.push(
            Spawn::Teleporter {
                bounding_box: block(t.x, t.y, t.width, t.height, height, size),
                target: t.target.clone(),
            },
        );
        i += 1;
        assert(plan@ =~= third + Seq::new(
            i as nat,
            |k: int| spec_teleporter_spawn(level@.teleporters[k], level@, *config),
        ));
    }
    let ghost fourth = plan@;
    let mut i: usize = 0;
    assert(plan@ =~= fourth + Seq::new(
        0,
        |k: int| spec_text_spawn(level@.texts[k], level@, *config),
    ));
    while i < level.texts.len()
        invariant
            i <= level.texts.len(),
            size == config.player.size,
            height == level.size.height,
            plan@ == fourth + Seq::new(
                i as nat,
                |k: int| spec_text_spawn(level@.texts[k], level@, *config),
            ),
        decreases level.texts.len() - i,
    {
        let t = &level.texts[i];
        plan.push(
            Spawn::Text {
                position: Position(
                    Point2 { x: fx_mul(t.x, size), y: fx_sub(height, fx_mul(t.y, size)) },
                ),
                text: TextContainer { value: t.value.clone(), size: t.size },
                color: t.color,
            },
        );
        i += 1;
        assert(plan@ =~= fourth + Seq::new(
            i as nat,
            |k: int| spec_text_spawn(level@.texts[k], level@, *config),
        ));
    }
    plan
}

/// The entity belongs to the level of the given name.
pub open spec fn in_level(c: Components, name: Seq<char>) -> bool {
    c.level_id is Some && atom_text(c.level_atom()) == name
}

/// What the store holds of an entity that was spawned for `spawn` in the
/// level `name`. A player enters at rest.
pub open spec fn matches_spawn(c: Components, spawn: Spawn, name: Seq<char>) -> bool {
    &&& in_level(c, name)
    &&& c.mass is Some <==> spawn is Player
    &&& c.grounded is None
    &&& match spawn {
        Spawn::Player { position, mass, gravity, bounding_box } => {
            &&& c.player is Some
            &&& c.position == Some(position)
            &&& c.velocity == Some(Velocity(Vector2::zero()))
            &&& c.acceleration == Some(Acceleration(Vector2::zero()))
            &&& c.mass == Some(mass)
            &&& c.gravity == Some(gravity)
            &&& c.bounding_box == Some(bounding_box)
            &&& c.death is None
            &&& c.teleport_to is None
        },
        Spawn::Platform { bounding_box } => {
            &&& c.bounding_box == Some(bounding_box)
            &&& c.death is None
            &&& c.teleport_to is None
            &&& c.position is None
            &&& c.velocity is None
            &&& c.acceleration is None
            &&& c.gravity is None
            &&& c.player is None
        },
        Spawn::Trap { bounding_box } => {
            &&& c.bounding_box == Some(bounding_box)
            &&& c.death is Some
            &&& c.teleport_to is None
            &&& c.position is None
            &&& c.velocity is None
            &&& c.acceleration is None
            &&& c.gravity is None
            &&& c.player is None
        },
        Spawn::Teleporter { bounding_box, target } => {
            &&& c.bounding_box == Some(bounding_box)
            &&& c.death is None
            &&& c.teleport_to == Some(TeleportTo(target))
            &&& c.position is None
            &&& c.velocity is None
            &&& c.acceleration is None
            &&& c.gravity is None
            &&& c.player is None
        },
        Spawn::Text { position, text, color } => {
            &&& c.position == Some(position)
            &&& c.bounding_box is None
            &&& c.death is None
            &&& c.teleport_to is None
            &&& c.velocity is None
            &&& c.acceleration is None
            &&& c.gravity is None
            &&& c.player is None
        },
    }
}

/// The store after one level was left and another entered.
///
/// Every entity that did not belong to the level `left` is kept as it
/// was. The entities `spawned` are distinct and alive, one for every entry
/// of `plan` and in its order, and each holds what its entry asks for in
/// the level `name`. The store holds no other entity.
pub open spec fn entered_level(
    before: Map<Entity, Components>,
    after: Map<Entity, Components>,
    left: Seq<char>,
    plan: Seq<Spawn>,
    name: Seq<char>,
    spawned: Seq<Entity>,
) -> bool {
    &&& forall|e: Entity|
        before.contains_key(e) && !in_level(before[e], left) ==> #[trigger] after.contains_key(e)
            && after[e] == before[e]
    &&& spawned.len() == plan.len()
    &&& spawned.no_duplicates()
    &&& forall|k: int|
        0 <= k < spawned.len() ==> after.contains_key(#[trigger] spawned[k]) && matches_spawn(
            after[spawned[k]],
            plan[k],
            name,
        )
    &&& forall|e: Entity|
        #[trigger] after.contains_key(e) ==> spawned.contains(e) || (before.contains_key(e)
            && !in_level(before[e], left))
}

/// Spawns one entity of a level into the store.
pub(crate) fn spawn_one(world: &mut World, spawn: &Spawn, name: &str) -> (e: Entity)
    ensures
        !world_view(*old(world)).contains_key(e),
        world_view(*final(world)).contains_key(e),
        matches_spawn(world_view(*final(world))[e], *spawn, name@),
        world_view(*final(world)) == world_view(*old(world)).insert(
            e,
            world_view(*final(world))[e],
        ),
{
    let e = spawn_empty(world);
    put(world, e, LevelId(atom_from(name)));
    match spawn {
        Spawn::Player { position, mass, gravity, bounding_box } => {
            put(world, e, Player);
            put(world, e, *position);
            put(world, e, Acceleration::new(0, 0));
            put(world, e, Velocity::new(0, 0));
            put(world, e, *mass);
            put(world, e, *gravity);
            put(world, e, ZOrder(PLAYER_Z));
            put(world, e, *bounding_box);
        },
        Spawn::Platform { bounding_box } => {
            put(world, e, ZOrder(GEOMETRY_Z));
            put(world, e, *bounding_box);
        },
        Spawn::Trap { bounding_box } => {
            put(world, e, ZOrder(GEOMETRY_Z));
            put(world, e, *bounding_box);
            put(world, e, Death);
        },
        Spawn::Teleporter { bounding_box, target } => {
            put(world, e, ZOrder(GEOMETRY_Z));
            put(world, e, *bounding_box);
            put(world, e, TeleportTo(target.clone()));
        },
        Spawn::Text { position, text, color } => {
            put(world, e, *position);
            put(world, e, TextContainer { value: text.value.clone(), size: text.size });
            put(world, e, *color);
        },
    }
    e
}

impl GameState {
    /// Leaves the current level for the level `new_level`.
    ///
    /// Every entity of the level that is left leaves the store, and the
    /// entities that the new level asks for enter it. Returns the handles
    /// of the new entities in the order of the level's plan.
    pub fn change_level(&mut self, new_level: String) -> (spawned: Vec<Entity>)
        requires
            old(self).levels@.contains_key(new_level@),
        ensures
            final(self).current_level == new_level,
            final(self).wf(),
            final(self).tick == old(self).tick,
            final(self).config == old(self).config,
            final(self).camera == old(self).camera,
            final(self).controls == old(self).controls,
            final(self).restart_level == old(self).restart_level,
            final(self).change_level == old(self).change_level,
            final(self).levels == old(self).levels,
            entered_level(
                world_view(old(self).world),
                world_view(final(self).world),
                old(self).current_level@,
                spec_plan(final(self).level()@, old(self).config),
                new_level@,
                spawned@,
            ),
    {
        let left = atom_from(self.current_level.as_str());
        let ids = entities(&self.world);
        let mut i: usize = 0;
        while i < ids.len()
            invariant
                i <= ids.len(),
                atom_text(left) == old(self).current_level@,
                self.tick == old(self).tick,
                self.config == old(self).config,
                self.camera == old(self).camera,
                self.controls == old(self).controls,
                self.restart_level == old(self).restart_level,
                self.change_level == old(self).change_level,
                self.current_level == old(self).current_level,
                self.levels == old(self).levels,
                forall|e: Entity|
                    #[trigger] world_view(self.world).contains_key(e) ==> world_view(
                        old(self).world,
                    ).contains_key(e) && world_view(self.world)[e] == world_view(old(self).world)[e],
                forall|e: Entity|
                    world_view(old(self).world).contains_key(e) && !in_level(
                        world_view(old(self).world)[e],
                        old(self).current_level@,
                    ) ==> #[trigger] world_view(self.world).contains_key(e),
                forall|k: int|
                    0 <= k < i && in_level(
                        world_view(old(self).world)[ids@[k]],
                        old(self).current_level@,
                    ) ==> !world_view(self.world).contains_key(#[trigger] ids@[k]),
            decreases ids.len() - i,
        {
            let e = ids[i];
            match get::<LevelId>(&mut self.world, e) {
                Some(id) => {
                    if atom_eq(&id.0, &left) {
                        despawn(&mut self.world, e);
                    }
                },
                None => {},
            }
            i += 1;
        }
        proof {
            assert forall|e: Entity| #[trigger]
                world_view(self.world).contains_key(e) implies !in_level(
                world_view(old(self).world)[e],
                old(self).current_level@,
            ) by {
                if in_level(world_view(old(self).world)[e], old(self).current_level@) {
                    assert(world_view(old(self).world)[e] != Components::spec_empty());
                    assert(ids@.contains(e));
                    let k = choose|k: int| 0 <= k < ids@.len() && ids@[k] == e;
                    assert(!world_view(self.world).contains_key(ids@[k]));
                }
            }
        }
        self.current_level = new_level;
        let plan = plan_level(
            self.levels.get(self.current_level.as_str()).unwrap(),
            &self.config,
        );
        let ghost survivors = world_view(self.world);
        let mut spawned: Vec<Entity> = Vec::new();
        let mut k: usize = 0;
        while k < plan.len()
            invariant
                k <= plan.len(),
                spawned@.len() == k,
                spawned@.no_duplicates(),
                self.current_level == new_level,
                self.wf(),
                forall|e: Entity|
                    world_view(old(self).world).contains_key(e) && !in_level(
                        world_view(old(self).world)[e],
                        old(self).current_level@,
                    ) ==> #[trigger] survivors.contains_key(e) && survivors[e] == world_view(
                        old(self).world,
                    )[e],
                forall|e: Entity|
                    #[trigger] survivors.contains_key(e) ==> world_view(
                        old(self).world,
                    ).contains_key(e) && !in_level(
                        world_view(old(self).world)[e],
                        old(self).current_level@,
                    ),
                plan@ == spec_plan(self.level()@, self.config),
                self.tick == old(self).tick,
                self.config == old(self).config,
                self.camera == old(self).camera,
                self.controls == old(self).controls,
                self.restart_level == old(self).restart_level,
                self.change_level == old(self).change_level,
                self.levels == old(self).levels,
                forall|e: Entity|
                    survivors.contains_key(e) ==> #[trigger] world_view(self.world).contains_key(e)
                        && world_view(self.world)[e] == survivors[e],
                forall|j: int|
                    0 <= j < k ==> world_view(self.world).contains_key(#[trigger] spawned@[j])
                        && matches_spawn(
                        world_view(self.world)[spawned@[j]],
                        plan@[j],
                        new_level@,
                    ),
                forall|e: Entity|
                    #[trigger] world_view(self.world).contains_key(e) ==> spawned@.contains(e)
                        || survivors.contains_key(e),
            decreases plan.len() - k,
        {
            let ghost before = world_view(self.world);
            let ghost earlier = spawned@;
            let e = spawn_one(&mut self.world, &plan[k], self.current_level.as_str());
            spawned.push(e);
            k += 1;
            proof {
                assert forall|j: int| 0 <= j < earlier.len() implies earlier[j] != e by {
                    assert(before.contains_key(earlier[j]));
                }
                assert forall|x: Entity| #[trigger]
                    world_view(self.world).contains_key(x) implies spawned@.contains(x)
                    || survivors.contains_key(x) by {
                    if x == e {
                        assert(spawned@[k - 1] == e);
                    } else {
                        assert(before.contains_key(x));
                        if earlier.contains(x) {
                            let j = choose|j: int| 0 <= j < earlier.len() && earlier[j] == x;
                            assert(spawned@[j] == x);
                        }
                    }
                }
            }
        }
        proof {
            assert forall|e: Entity|
                world_view(old(self).world).contains_key(e) && !in_level(
                    world_view(old(self).world)[e],
                    old(self).current_level@,
                ) implies #[trigger] world_view(self.world).contains_key(e) && world_view(
                self.world,
            )[e] == world_view(old(self).world)[e] by {
                assert(survivors.contains_key(e));
            }
            assert forall|e: Entity| #[trigger]
                world_view(self.world).contains_key(e) implies spawned@.contains(e) || (world_view(
                old(self).world,
            ).contains_key(e) && !in_level(
                world_view(old(self).world)[e],
                old(self).current_level@,
            )) by {
                if !spawned@.contains(e) {
                    assert(survivors.contains_key(e));
                }
            }
        }
        spawned
    }

    /// Starts the current level afresh.
    pub fn restart_level(&mut self) -> (spawned: Vec<Entity>)
        requires
            old(self).wf(),
        ensures
            final(self).current_level == old(self).current_level,
            final(self).wf(),
            final(self).tick == old(self).tick,
            final(self).config == old(self).config,
            final(self).camera == old(self).camera,
            final(self).controls == old(self).controls,
            final(self).restart_level == old(self).restart_level,
            final(self).change_level == old(self).change_level,
            final(self).levels == old(self).levels,
            entered_level(
                world_view(old(self).world),
                world_view(final(self).world),
                old(self).current_level@,
                spec_plan(old(self).level()@, old(self).config),
                old(self).current_level@,
                spawned@,
            ),
    {
        let name = self.current_level.clone();
        self.change_level(name)
    }
}

} // verus!

//! The state of a running game.

use crate::config::Config;
use crate::geometry::Vector2;
use crate::level::{
    entered_level, spec_default_level, spec_plan, spec_scaled_level, Level, LevelView,
};
use crate::components::Components;
use crate::world::{
    components_at, entities, new_world, nothing, read, world_order, world_view,
};
use hecs::{Entity, World};
use vstd::hash_map::StringHashMap;
use vstd::prelude::*;

verus! {

#[derive(Clone, Copy, Debug, PartialEq, Eq, Structural)]
pub enum CameraMode {
    /// The camera keeps its height.
    Locked,
    /// The camera follows the player's height.
    Free,
}

#[derive(Clone, Copy, Debug, PartialEq, Eq, Structural)]
pub struct Camera {
    pub center: Vector2,
    pub mode: CameraMode,
}

impl Default for Camera {
    /// A free camera at the origin.
    fn default() -> (c: Camera)
        ensures
            c == (Camera { center: Vector2::zero(), mode: CameraMode::Free }),
    {
        Camera { center: Vector2::new(0, 0), mode: CameraMode::Free }
    }
}

/// The controls as they stand in one tick: `held` while a key is down,
/// `pressed` in the tick in which it went down.
#[derive(Clone, Copy, Debug, PartialEq, Eq, Structural)]
pub struct Controls {
    pub left_pressed: bool,
    pub left_held: bool,
    pub right_pressed: bool,
    pub right_held: bool,
    pub up_pressed: bool,
    pub up_held: bool,
    pub down_pressed: bool,
    pub down_held: bool,
    pub jump_pressed: bool,
    pub jump_held: bool,
    pub reset_pressed: bool,
    pub reset_held: bool,
    pub debug_pressed: bool,
    pub debug_held: bool,
}

impl Controls {
    /// No key is down.
    pub open spec fn released() -> Controls {
        Controls {
            left_pressed: false,
            left_held: false,
            right_pressed: false,
            right_held: false,
            up_pressed: false,
            up_held: false,
            down_pressed: false,
            down_held: false,
            jump_pressed: false,
            jump_held: false,
            reset_pressed: false,
            reset_held: false,
            debug_pressed: false,
            debug_held: false,
        }
    }
}

impl Default for Controls {
    fn default() -> (c: Controls)
        ensures
            c == Controls::released(),
    {
        Controls {
            left_pressed: false,
            left_held: false,
            right_pressed: false,
            right_held: false,
            up_pressed: false,
            up_held: false,
            down_pressed: false,
            down_held: false,
            jump_pressed: false,
            jump_held: false,
            reset_pressed: false,
            reset_held: false,
            debug_pressed: false,
            debug_held: false,
        }
    }
}

pub struct GameState {
    pub tick: usize,
    pub config: Config,
    pub camera: Camera,
    pub world: World,
    pub controls: Controls,
    /// Raised by a collision pass; the driver restarts the level at the
    /// start of the next tick.
    pub restart_level: bool,
    /// Raised by a collision pass; the driver changes to the named level at
    /// the start of the next tick.
    pub change_level: Option<String>,
    pub current_level: String,
    pub levels: StringHashMap<Level>,
}

impl GameState {
    /// The current level is one of the levels.
    pub open spec fn wf(&self) -> bool {
        self.levels@.contains_key(self.current_level@)
    }

    /// The current level.
    pub open spec fn level(&self) -> Level
        recommends
            self.wf(),
    {
        self.levels@[self.current_level@]
    }

    /// Everything but the store is as in `other`.
    pub open spec fn same_but_world(&self, other: &GameState) -> bool {
        &&& self.tick == other.tick
        &&& self.config == other.config
        &&& self.camera == other.camera
        &&& self.controls == other.controls
        &&& self.restart_level == other.restart_level
        &&& self.change_level == other.change_level
        &&& self.current_level == other.current_level
        &&& self.levels == other.levels
    }
}

/// The name of the level in which a game begins.
pub open spec fn first_level() -> Seq<char> {
    "start"@
}

/// The levels of a game by name, each scaled by `factor`; of two levels
/// with one name the later stands.
pub open spec fn spec_level_views(
    levels: Seq<(String, Level)>,
    factor: i64,
) -> Map<Seq<char>, LevelView>
    decreases levels.len(),
{
    if levels.len() == 0 {
        Map::empty()
    } else {
        spec_level_views(levels.drop_last(), factor).insert(
            levels.last().0@,
            spec_scaled_level(levels.last().1@, factor),
        )
    }
}

/// The levels that a game is made with: the given ones, or the default
/// level under the first level's name where none is given.
pub open spec fn spec_initial_levels(
    levels: Seq<(String, Level)>,
    factor: i64,
) -> Map<Seq<char>, LevelView> {
    if levels.len() == 0 {
        Map::<Seq<char>, LevelView>::empty().insert(
            first_level(),
            spec_scaled_level(spec_default_level(), factor),
        )
    } else {
        spec_level_views(levels, factor)
    }
}

/// The views of a table of levels.
pub open spec fn views_of(levels: Map<Seq<char>, Level>) -> Map<Seq<char>, LevelView> {
    levels.map_values(|l: Level| l@)
}

impl GameState {
    /// The entities of the store in the order in which the store walks
    /// them, which is the order that every pass over the store follows.
    ///
    /// Every entity of the walk is alive, none comes twice, and every live
    /// entity that owns anything comes.
    pub fn walk(&self) -> (ids: Vec<Entity>)
        ensures
            ids@ == world_order(self.world),
            ids@.no_duplicates(),
            forall|i: int|
                0 <= i < ids@.len() ==> world_view(self.world).contains_key(#[trigger] ids@[i]),
            forall|e: Entity|
                world_view(self.world).contains_key(e) && world_view(self.world)[e]
                    != Components::spec_empty() ==> #[trigger] ids@.contains(e),
    {
        entities(&self.world)
    }

    /// What an entity owns of the attributes that the simulation reads; an
    /// entity that is not alive owns nothing. The game is left as it was.
    pub fn components_of(&mut self, e: Entity) -> (c: Components)
        ensures
            *final(self) == *old(self),
            c == components_at(old(self).world, e),
    {
        read(&mut self.world, e)
    }

    /// A game in its first level.
    ///
    /// The levels are scaled by the player's size. Where none is given the
    /// default level is the first level. The store holds what the first
    /// level asks for and nothing else; the handles of its entities are
    /// returned in the order of the level's plan.
    pub fn new(config: Config, levels: Vec<(String, Level)>) -> (r: (GameState, Vec<Entity>))
        requires
            spec_initial_levels(levels@, config.player.size).contains_key(first_level()),
        ensures
            r.0.tick == 0,
            r.0.config == config,
            r.0.camera == (Camera { center: Vector2::zero(), mode: CameraMode::Free }),
            r.0.controls == Controls::released(),
            !r.0.restart_level,
            r.0.change_level is None,
            r.0.current_level@ == first_level(),
            r.0.wf(),
            views_of(r.0.levels@) == spec_initial_levels(levels@, config.player.size),
            entered_level(
                nothing(),
                world_view(r.0.world),
                first_level(),
                spec_plan(r.0.level()@, config),
                first_level(),
                r.1@,
            ),
    {
        let mut levels = levels;
        let ghost given = levels@;
        let size = config.player.size;
        let mut table: StringHashMap<Level> = StringHashMap::new();
        if levels.len() == 0 {
            let mut level = Level::default();
            level.scale(size);
            table.insert("start".to_owned(), level);
            assert(views_of(table@) =~= spec_initial_levels(given, size));
        } else {
            let ghost mut done: int = 0;
            assert(given.subrange(0, 0) =~= Seq::<(String, Level)>::empty());
            assert(views_of(table@) =~= spec_level_views(given.subrange(0, 0), size));
            while levels.len() > 0
                invariant
                    0 <= done <= given.len(),
                    levels@ == given.subrange(done, given.len() as int),
                    views_of(table@) == spec_level_views(given.subrange(0, done), size),
                decreases levels.len(),
            {
                let (name, mut level) = levels.remove(0);
                level.scale(size);
                let ghost before = table@;
                table.insert(name, level);
                proof {
                    let prefix = given.subrange(0, done + 1);
                    assert(prefix.drop_last() =~= given.subrange(0, done));
                    assert(prefix.last() == given[done]);
                    assert(levels@ =~= given.subrange(done + 1, given.len() as int));
                    assert(views_of(table@) =~= views_of(before).insert(name@, level@));
                    done = done + 1;
                }
            }
            assert(given.subrange(0, given.len() as int) =~= given);
        }
        assert(views_of(table@).contains_key(first_level()));
        assert(table@.contains_key(first_level()));
        let mut state = GameState {
            tick: 0,
            config,
            camera: Camera::default(),
            world: new_world(),
            controls: Controls::default(),
            restart_level: false,
            change_level: None,
            current_level: "start".to_owned(),
            levels: table,
        };
        let spawned = state.change_level("start".to_owned());
        (state, spawned)
    }
}

} // verus!

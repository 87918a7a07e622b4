//! The attributes an entity of the world may own.

use crate::atom::atom_clone;
use crate::geometry::{Point2, Rect, Vector2};
use crate::level::TextColor;
use crate::physics::{apply_force, apply_gravity, PhysicsHelper};
use string_cache::DefaultAtom;
use vstd::prelude::*;

verus! {

/// World units an entity moves per tick.
#[derive(Clone, Copy, Debug, PartialEq, Eq, Structural)]
pub struct Velocity(pub Vector2);

impl Velocity {
    pub fn new(x: i64, y: i64) -> (v: Velocity)
        ensures
            v == Velocity(Vector2 { x, y }),
    {
        Velocity(Vector2::new(x, y))
    }
}

impl Default for Velocity {
    fn default() -> (v: Velocity)
        ensures
            v == Velocity(Vector2::zero()),
    {
        Velocity(Vector2::new(0, 0))
    }
}

/// Acceleration gathered during one tick; integration resets it to zero.
#[derive(Clone, Copy, Debug, PartialEq, Eq, Structural)]
pub struct Acceleration(pub Vector2);

impl Acceleration {
    pub fn new(x: i64, y: i64) -> (a: Acceleration)
        ensures
            a == Acceleration(Vector2 { x, y }),
    {
        Acceleration(Vector2::new(x, y))
    }
}

impl PhysicsHelper for Acceleration {
    open spec fn with_force(self, force: Vector2, mass: i64) -> Acceleration {
        Acceleration(self.0.spec_plus(force.spec_unscaled(mass)))
    }

    open spec fn with_gravity(self, force: Vector2) -> Acceleration {
        Acceleration(self.0.spec_plus(force))
    }

    fn apply_force(&mut self, force: &Vector2, mass: i64) -> (r: &mut Acceleration) {
        apply_force(&mut self.0, force, mass);
        self
    }

    fn apply_gravity(&mut self, force: &Vector2) -> (r: &mut Acceleration) {
        apply_gravity(&mut self.0, force);
        self
    }
}

/// Divisor that turns a force into an acceleration; meant to be positive.
#[derive(Clone, Copy, Debug, PartialEq, Eq, Structural)]
pub struct Mass(pub i64);

/// Acceleration an entity receives every tick regardless of its mass.
#[derive(Clone, Copy, Debug, PartialEq, Eq, Structural)]
pub struct Gravity(pub Vector2);

/// Where an entity stands, in world coordinates.
#[derive(Clone, Copy, Debug, PartialEq, Eq, Structural)]
pub struct Position(pub Point2);

impl Position {
    pub fn new(x: i64, y: i64) -> (p: Position)
        ensures
            p == Position(Point2 { x, y }),
    {
        Position(Point2::new(x, y))
    }
}

/// Marks the entity steered by the controls.
#[derive(Clone, Copy, Debug, PartialEq, Eq, Structural)]
pub struct Player;

impl Default for Player {
    fn default() -> (p: Player)
        ensures
            p == Player,
    {
        Player
    }
}

/// Drawing order; larger values are drawn first.
#[derive(Clone, Copy, Debug, PartialEq, Eq, Structural)]
pub struct ZOrder(pub i32);

impl Default for ZOrder {
    fn default() -> (z: ZOrder)
        ensures
            z == ZOrder(0),
    {
        ZOrder(0)
    }
}

/// Collision box: relative to the position of an entity that has one, in
/// world coordinates otherwise.
#[derive(Clone, Copy, Debug, PartialEq, Eq, Structural)]
pub struct BoundingBox(pub Rect);

/// Whether the entity touched a floor during the last collision pass.
#[derive(Clone, Copy, Debug, PartialEq, Eq, Structural)]
pub struct Grounded(pub bool);

/// Marks a box that restarts the level when a mover overlaps it.
#[derive(Clone, Copy, Debug, PartialEq, Eq, Structural)]
pub struct Death;

/// The level an entity belongs to.
#[derive(Debug)]
pub struct LevelId(pub DefaultAtom);

/// Marks a box that sends a mover overlapping it to the named level.
#[derive(Clone, Debug)]
pub struct TeleportTo(pub String);

/// A line of text shown in the level.
#[derive(Clone, Debug)]
pub struct TextContainer {
    pub value: String,
    pub size: i64,
}

/// What an entity owns of the attributes that the simulation reads,
/// attribute by attribute.
pub struct Components {
    pub position: Option<Position>,
    pub velocity: Option<Velocity>,
    pub acceleration: Option<Acceleration>,
    pub mass: Option<Mass>,
    pub gravity: Option<Gravity>,
    pub bounding_box: Option<BoundingBox>,
    pub grounded: Option<Grounded>,
    pub death: Option<Death>,
    pub teleport_to: Option<TeleportTo>,
    pub player: Option<Player>,
    pub level_id: Option<LevelId>,
}

impl Components {
    /// An entity that owns nothing.
    pub open spec fn spec_empty() -> Components {
        Components {
            position: None,
            velocity: None,
            acceleration: None,
            mass: None,
            gravity: None,
            bounding_box: None,
            grounded: None,
            death: None,
            teleport_to: None,
            player: None,
            level_id: None,
        }
    }

    pub fn empty() -> (c: Components)
        ensures
            c == Components::spec_empty(),
    {
        Components {
            position: None,
            velocity: None,
            acceleration: None,
            mass: None,
            gravity: None,
            bounding_box: None,
            grounded: None,
            death: None,
            teleport_to: None,
            player: None,
            level_id: None,
        }
    }

    /// The position of an entity that has one.
    pub open spec fn point(self) -> Point2
        recommends
            self.position is Some,
    {
        let p = self.position->0;
        p.0
    }

    /// The velocity of an entity that has one.
    pub open spec fn motion(self) -> Vector2
        recommends
            self.velocity is Some,
    {
        let v = self.velocity->0;
        v.0
    }

    /// The bounding box of an entity that has one.
    pub open spec fn rect(self) -> Rect
        recommends
            self.bounding_box is Some,
    {
        let b = self.bounding_box->0;
        b.0
    }

    /// The acceleration of an entity that has one.
    pub open spec fn accel(self) -> Vector2
        recommends
            self.acceleration is Some,
    {
        let a = self.acceleration->0;
        a.0
    }

    /// The gravity of an entity that has one.
    pub open spec fn pull(self) -> Vector2
        recommends
            self.gravity is Some,
    {
        let g = self.gravity->0;
        g.0
    }

    /// The mass of an entity that has one.
    pub open spec fn inertia(self) -> i64
        recommends
            self.mass is Some,
    {
        let m = self.mass->0;
        m.0
    }

    /// The entity carries the grounded flag, and the flag is set.
    pub open spec fn is_grounded(self) -> bool {
        self.grounded == Some(Grounded(true))
    }

    /// The interned name of the level of an entity that belongs to one.
    pub open spec fn level_atom(self) -> DefaultAtom
        recommends
            self.level_id is Some,
    {
        let l = self.level_id->0;
        l.0
    }

    /// The level that a teleporter leads to.
    pub open spec fn target(self) -> String
        recommends
            self.teleport_to is Some,
    {
        let t = self.teleport_to->0;
        t.0
    }

    /// A mover takes part in collision resolution: it has a velocity, a
    /// position and a bounding box.
    pub open spec fn is_mover(self) -> bool {
        self.velocity is Some && self.position is Some && self.bounding_box is Some
    }
}

impl Clone for LevelId {
    fn clone(&self) -> (r: LevelId)
        ensures
            r == *self,
    {
        LevelId(atom_clone(&self.0))
    }
}

/// Something that an entity can own.
pub trait Stored: Sized + Send + Sync + 'static {
    /// What an entity owns, of the attributes that the simulation reads,
    /// after it was given `self` in place of any of the same kind.
    spec fn added_to(self, c: Components) -> Components;
}

/// An attribute that the simulation reads.
pub trait Attribute: Stored + Clone {
    /// The attribute of this kind among what an entity owns.
    spec fn found_in(c: Components) -> Option<Self>;

    /// What was given is found.
    proof fn lemma_added_is_found(self, c: Components)
        ensures
            Self::found_in(self.added_to(c)) == Some(self),
    ;
}

impl Stored for Position {
    open spec fn added_to(self, c: Components) -> Components {
        Components { position: Some(self), ..c }
    }
}

impl Attribute for Position {
    open spec fn found_in(c: Components) -> Option<Position> {
        c.position
    }

    proof fn lemma_added_is_found(self, c: Components) {
    }
}

impl Stored for Velocity {
    open spec fn added_to(self, c: Components) -> Components {
        Components { velocity: Some(self), ..c }
    }
}

impl Attribute for Velocity {
    open spec fn found_in(c: Components) -> Option<Velocity> {
        c.velocity
    }

    proof fn lemma_added_is_found(self, c: Components) {
    }
}

impl Stored for Acceleration {
    open spec fn added_to(self, c: Components) -> Components {
        Components { acceleration: Some(self), ..c }
    }
}

impl Attribute for Acceleration {
    open spec fn found_in(c: Components) -> Option<Acceleration> {
        c.acceleration
    }

    proof fn lemma_added_is_found(self, c: Components) {
    }
}

impl Stored for Mass {
    open spec fn added_to(self, c: Components) -> Components {
        Components { mass: Some(self), ..c }
    }
}

impl Attribute for Mass {
    open spec fn found_in(c: Components) -> Option<Mass> {
        c.mass
    }

    proof fn lemma_added_is_found(self, c: Components) {
    }
}

impl Stored for Gravity {
    open spec fn added_to(self, c: Components) -> Components {
        Components { gravity: Some(self), ..c }
    }
}

impl Attribute for Gravity {
    open spec fn found_in(c: Components) -> Option<Gravity> {
        c.gravity
    }

    proof fn lemma_added_is_found(self, c: Components) {
    }
}

impl Stored for BoundingBox {
    open spec fn added_to(self, c: Components) -> Components {
        Components { bounding_box: Some(self), ..c }
    }
}

impl Attribute for BoundingBox {
    open spec fn found_in(c: Components) -> Option<BoundingBox> {
        c.bounding_box
    }

    proof fn lemma_added_is_found(self, c: Components) {
    }
}

impl Stored for Grounded {
    open spec fn added_to(self, c: Components) -> Components {
        Components { grounded: Some(self), ..c }
    }
}

impl Attribute for Grounded {
    open spec fn found_in(c: Components) -> Option<Grounded> {
        c.grounded
    }

    proof fn lemma_added_is_found(self, c: Components) {
    }
}

impl Stored for Death {
    open spec fn added_to(self, c: Components) -> Components {
        Components { death: Some(self), ..c }
    }
}

impl Attribute for Death {
    open spec fn found_in(c: Components) -> Option<Death> {
        c.death
    }

    proof fn lemma_added_is_found(self, c: Components) {
    }
}

impl Stored for TeleportTo {
    open spec fn added_to(self, c: Components) -> Components {
        Components { teleport_to: Some(self), ..c }
    }
}

impl Attribute for TeleportTo {
    open spec fn found_in(c: Components) -> Option<TeleportTo> {
        c.teleport_to
    }

    proof fn lemma_added_is_found(self, c: Components) {
    }
}

impl Stored for Player {
    open spec fn added_to(self, c: Components) -> Components {
        Components { player: Some(self), ..c }
    }
}

impl Attribute for Player {
    open spec fn found_in(c: Components) -> Option<Player> {
        c.player
    }

    proof fn lemma_added_is_found(self, c: Components) {
    }
}

impl Stored for LevelId {
    open spec fn added_to(self, c: Components) -> Components {
        Components { level_id: Some(self), ..c }
    }
}

impl Attribute for LevelId {
    open spec fn found_in(c: Components) -> Option<LevelId> {
        c.level_id
    }

    proof fn lemma_added_is_found(self, c: Components) {
    }
}

/// The simulation does not read the drawing order.
impl Stored for ZOrder {
    open spec fn added_to(self, c: Components) -> Components {
        c
    }
}

/// The simulation does not read texts.
impl Stored for TextContainer {
    open spec fn added_to(self, c: Components) -> Components {
        c
    }
}

/// The simulation does not read colours.
impl Stored for TextColor {
    open spec fn added_to(self, c: Components) -> Components {
        c
    }
}

} // verus!

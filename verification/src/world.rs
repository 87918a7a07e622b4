//! The entity store and what the simulation believes of it.
//!
//! The store is a `hecs::World`. Verified code sees it through two names:
//! the attributes of its live entities, and the order in which it walks
//! them. Every function in the first half of this file calls the store and
//! states, unproved, what the call does to those names. The second half
//! copies the store into a table and a table back into the store, proved
//! from those statements.
//!
//! The names speak of the attributes that `Components` lists. What else an
//! entity owns, such as its drawing order, its text or what the screen
//! needs of it, is stored and kept but not spoken of.
//!
//! The functions that call the store are private to the crate: what they
//! state of a kind of attribute holds of the kinds that `components`
//! defines.
//!
//! The store holds at most 2^32 entities at a time; asked for one more,
//! `hecs` panics.

use crate::components::{
    Acceleration, Attribute, BoundingBox, Components, Death, Gravity, Grounded, LevelId, Mass,
    Player, Position, Stored, TeleportTo, Velocity,
};
use hecs::{Entity, World};
use vstd::prelude::*;

verus! {

#[verifier::external_type_specification]
#[verifier::external_body]
pub struct ExWorld(hecs::World);

#[verifier::external_type_specification]
#[verifier::external_body]
pub struct ExEntity(hecs::Entity);

/// The attributes of every live entity of the store.
pub uninterp spec fn world_view(w: World) -> Map<Entity, Components>;

/// The live entities of the store in the order in which it walks them.
pub uninterp spec fn world_order(w: World) -> Seq<Entity>;

/// The attributes of `e`; an entity that is not alive owns nothing.
pub open spec fn components_at(w: World, e: Entity) -> Components {
    if world_view(w).contains_key(e) {
        world_view(w)[e]
    } else {
        Components::spec_empty()
    }
}

/// The attributes of the store after `c` replaced those of `e`; nothing
/// changes where `e` is not alive.
pub open spec fn replaced(w: World, e: Entity, c: Components) -> Map<Entity, Components> {
    if world_view(w).contains_key(e) {
        world_view(w).insert(e, c)
    } else {
        world_view(w)
    }
}

/// What a store without entities holds.
pub open spec fn nothing() -> Map<Entity, Components> {
    Map::empty()
}

/// `World::new`: a store without entities.
#[verifier::external_body]
pub(crate) fn new_world() -> (store: World)
    ensures
        world_view(store) == nothing(),
{
    World::new()
}

/// `World::iter`: walks the store once and hands out each entity's handle.
/// Every entity it yields is alive, none is yielded twice, and every live
/// entity that owns anything is yielded.
#[verifier::external_body]
pub(crate) fn entities(world: &World) -> (ids: Vec<Entity>)
    ensures
        ids@ == world_order(*world),
        ids@.no_duplicates(),
        forall|i: int| 0 <= i < ids@.len() ==> world_view(*world).contains_key(#[trigger] ids@[i]),
        forall|e: Entity|
            world_view(*world).contains_key(e) && world_view(*world)[e] != Components::spec_empty()
                ==> #[trigger] ids@.contains(e),
{
    world.iter().map(|r| r.entity()).collect()
}

/// `World::query_one_mut` for a shared reference: a clone of the entity's
/// component of the kind asked for, `None` where the entity is not alive
/// or has none; the store is left as it was. For each kind, `found_in`
/// picks the field of that kind out of what the entity owns.
#[verifier::external_body]
pub(crate) fn get<T: Attribute>(world: &mut World, e: Entity) -> (r: Option<T>)
    ensures
        r == T::found_in(components_at(*old(world), e)),
        *final(world) == *old(world),
{
    world.query_one_mut::<&T>(e).ok().map(|c| c.clone())
}

/// `World::insert_one`: a live entity gets the component in place of any
/// of its kind and keeps its others; no other entity changes, and nothing
/// changes where the entity is not alive. For each kind, `added_to` sets
/// the field of that kind, or nothing for a kind that `Components` does
/// not list.
#[verifier::external_body]
pub(crate) fn put<T: Stored>(world: &mut World, e: Entity, c: T)
    ensures
        world_view(*final(world)) == replaced(
            *old(world),
            e,
            c.added_to(components_at(*old(world), e)),
        ),
{
    let _ = world.insert_one(e, c);
}

/// `World::despawn`: the entity and all it owns leave the store; no other
/// entity changes, and nothing changes where the entity is not alive.
#[verifier::external_body]
pub(crate) fn despawn(world: &mut World, e: Entity)
    ensures
        world_view(*final(world)) == world_view(*old(world)).remove(e),
{
    let _ = world.despawn(e);
}

/// `World::spawn` with the empty bundle: a new entity that owns nothing
/// enters the store, under a handle that was not alive, and no other
/// entity changes.
#[verifier::external_body]
pub(crate) fn spawn_empty(world: &mut World) -> (e: Entity)
    ensures
        !world_view(*old(world)).contains_key(e),
        world_view(*final(world)) == world_view(*old(world)).insert(e, Components::spec_empty()),
{
    world.spawn(())
}

/// `after` differs from `before` in nothing but the five attributes that a
/// pass may write, and lacks none of them that `before` has.
pub open spec fn writable(before: Components, after: Components) -> bool {
    &&& after == Components {
        position: after.position,
        velocity: after.velocity,
        acceleration: after.acceleration,
        gravity: after.gravity,
        grounded: after.grounded,
        ..before
    }
    &&& after.position is None ==> before.position is None
    &&& after.velocity is None ==> before.velocity is None
    &&& after.acceleration is None ==> before.acceleration is None
    &&& after.gravity is None ==> before.gravity is None
    &&& after.grounded is None ==> before.grounded is None
}

/// The table of a store: the attributes of its entities in the order in
/// which the store walks them.
pub open spec fn table_of(w: World) -> Seq<Components> {
    Seq::new(world_order(w).len(), |i: int| components_at(w, world_order(w)[i]))
}

/// Reads what an entity owns. The store is left as it was.
pub(crate) fn read(world: &mut World, e: Entity) -> (c: Components)
    ensures
        *final(world) == *old(world),
        c == components_at(*old(world), e),
{
    let position = get::<Position>(world, e);
    let velocity = get::<Velocity>(world, e);
    let acceleration = get::<Acceleration>(world, e);
    let mass = get::<Mass>(world, e);
    let gravity = get::<Gravity>(world, e);
    let bounding_box = get::<BoundingBox>(world, e);
    let grounded = get::<Grounded>(world, e);
    let death = get::<Death>(world, e);
    let teleport_to = get::<TeleportTo>(world, e);
    let player = get::<Player>(world, e);
    let level_id = get::<LevelId>(world, e);
    Components {
        position,
        velocity,
        acceleration,
        mass,
        gravity,
        bounding_box,
        grounded,
        death,
        teleport_to,
        player,
        level_id,
    }
}

/// Copies the attributes of the given entities into a table. The store is
/// left as it was.
pub(crate) fn snapshot(world: &mut World, ids: &Vec<Entity>) -> (table: Vec<Components>)
    ensures
        *final(world) == *old(world),
        table@.len() == ids@.len(),
        forall|i: int|
            0 <= i < ids@.len() ==> #[trigger] table@[i] == components_at(*old(world), ids@[i]),
{
    let mut table: Vec<Components> = Vec::new();
    let mut i: usize = 0;
    while i < ids.len()
        invariant
            i <= ids.len(),
            *world == *old(world),
            table@.len() == i,
            forall|k: int|
                0 <= k < i ==> #[trigger] table@[k] == components_at(*old(world), ids@[k]),
        decreases ids.len() - i,
    {
        let c = read(world, ids[i]);
        table.push(c);
        i += 1;
    }
    table
}

/// Writes the attributes that a pass may change from a table back into the
/// store.
pub(crate) fn write_back(world: &mut World, ids: &Vec<Entity>, table: &Vec<Components>)
    requires
        ids@.no_duplicates(),
        table@.len() == ids@.len(),
        forall|i: int|
            0 <= i < ids@.len() ==> world_view(*old(world)).contains_key(#[trigger] ids@[i]),
        forall|i: int|
            0 <= i < ids@.len() ==> writable(
                world_view(*old(world))[ids@[i]],
                #[trigger] table@[i],
            ),
    ensures
        world_view(*final(world)).dom() == world_view(*old(world)).dom(),
        forall|i: int|
            0 <= i < ids@.len() ==> world_view(*final(world))[#[trigger] ids@[i]] == table@[i],
        forall|e: Entity|
            !ids@.contains(e) ==> #[trigger] world_view(*final(world))[e] == world_view(
                *old(world),
            )[e],
{
    let mut i: usize = 0;
    while i < ids.len()
        invariant
            i <= ids.len(),
            ids@.no_duplicates(),
            table@.len() == ids@.len(),
            world_view(*world).dom() == world_view(*old(world)).dom(),
            forall|k: int|
                0 <= k < ids@.len() ==> world_view(*old(world)).contains_key(#[trigger] ids@[k]),
            forall|k: int|
                0 <= k < ids@.len() ==> writable(
                    world_view(*old(world))[ids@[k]],
                    #[trigger] table@[k],
                ),
            forall|k: int| 0 <= k < i ==> world_view(*world)[#[trigger] ids@[k]] == table@[k],
            forall|k: int|
                i <= k < ids@.len() ==> world_view(*world)[#[trigger] ids@[k]] == world_view(
                    *old(world),
                )[ids@[k]],
            forall|e: Entity|
                !ids@.contains(e) ==> #[trigger] world_view(*world)[e] == world_view(
                    *old(world),
                )[e],
        decreases ids.len() - i,
    {
        let e = ids[i];
        let ghost before = world_view(*world);
        let ghost start = before[e];
        assert(start == world_view(*old(world))[ids@[i as int]]);
        assert(writable(start, table@[i as int]));
        match table[i].position {
            Some(c) => {
                put(world, e, c);
            },
            None => {},
        }
        match table[i].velocity {
            Some(c) => {
                put(world, e, c);
            },
            None => {},
        }
        match table[i].acceleration {
            Some(c) => {
                put(world, e, c);
            },
            None => {},
        }
        match table[i].gravity {
            Some(c) => {
                put(world, e, c);
            },
            None => {},
        }
        match table[i].grounded {
            Some(c) => {
                put(world, e, c);
            },
            None => {},
        }
        assert(world_view(*world) == before.insert(e, table@[i as int]));
        assert(world_view(*world).dom() =~= before.dom());
        assert forall|k: int| 0 <= k < i + 1 implies world_view(*world)[#[trigger] ids@[k]]
            == table@[k] by {
            if k < i {
                assert(ids@[k] != ids@[i as int]);
            }
        }
        assert forall|k: int| i + 1 <= k < ids@.len() implies world_view(*world)[#[trigger] ids@[k]]
            == world_view(*old(world))[ids@[k]] by {
            assert(ids@[k] != ids@[i as int]);
        }
        assert forall|x: Entity| !ids@.contains(x) implies #[trigger] world_view(*world)[x]
            == world_view(*old(world))[x] by {
            assert(x != ids@[i as int]);
        }
        i += 1;
    }
}

} // verus!

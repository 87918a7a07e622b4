//! Collision resolution between a mover and the boxes of a level.
//!
//! A mover is swept against every other box in table order. Each box that
//! overlaps the mover's box is classified by the corners of the mover that
//! lie inside it, and the mover is snapped out along the axis that the
//! class names. The mover's box is placed once, before the sweep, and is
//! not moved by the snaps. Only corners are tested, so a mover that is
//! thinner than a box, or fast enough to pass it in one tick, can be
//! classified as missing it.

use crate::components::{Components, Grounded, Position, Velocity};
use crate::fixed::{
    fx_abs, fx_add, fx_half, fx_sub, spec_fx_abs, spec_fx_add, spec_fx_half, spec_fx_sub,
};
use crate::geometry::{Point2, Rect, Vector2};
use crate::level::LevelSize;
use vstd::prelude::*;

verus! {

/// The face of a box that a mover ran into.
#[derive(Clone, Copy, Debug, PartialEq, Eq, Structural)]
pub enum Contact {
    /// The mover landed on the box.
    Floor,
    /// The mover hit the box from below.
    Ceiling,
    /// The box is a wall on the left of the mover.
    RightWall,
    /// The box is a wall on the right of the mover.
    LeftWall,
    /// No corner of the mover lies in the box.
    Miss,
}

/// What a collision pass changes of a mover.
#[derive(Clone, Copy, Debug, PartialEq, Eq, Structural)]
pub struct Mover {
    pub velocity: Vector2,
    pub position: Point2,
    pub grounded: bool,
}

/// Requests that a collision pass raises for the driver of the game loop.
#[derive(Debug)]
pub struct Signals {
    pub restart_level: bool,
    pub change_level: Option<String>,
}

/// The contact between a mover with the box `bbox` and the box `other`.
///
/// Two corners on one side decide at once. A single corner decides by the
/// shorter of its two distances to the faces it crossed; on a tie the
/// vertical face wins.
pub open spec fn spec_classify(bbox: Rect, other: Rect) -> Contact {
    let left = bbox.spec_left();
    let right = bbox.spec_right();
    let top = bbox.spec_top();
    let bottom = bbox.spec_bottom();
    let tl = other.spec_contains(Point2 { x: left, y: top });
    let tr = other.spec_contains(Point2 { x: right, y: top });
    let bl = other.spec_contains(Point2 { x: left, y: bottom });
    let br = other.spec_contains(Point2 { x: right, y: bottom });
    let down = spec_fx_abs(spec_fx_sub(bottom, other.spec_top()));
    let up = spec_fx_abs(spec_fx_sub(top, other.spec_bottom()));
    let leftward = spec_fx_abs(spec_fx_sub(left, other.spec_right()));
    let rightward = spec_fx_abs(spec_fx_sub(right, other.spec_left()));
    if bl && br {
        Contact::Floor
    } else if tl && tr {
        Contact::Ceiling
    } else if tl && bl {
        Contact::RightWall
    } else if tr && br {
        Contact::LeftWall
    } else if bl {
        if down <= leftward {
            Contact::Floor
        } else {
            Contact::RightWall
        }
    } else if br {
        if down <= rightward {
            Contact::Floor
        } else {
            Contact::LeftWall
        }
    } else if tl {
        if up <= leftward {
            Contact::Ceiling
        } else {
            Contact::RightWall
        }
    } else if tr {
        if up <= rightward {
            Contact::Ceiling
        } else {
            Contact::LeftWall
        }
    } else {
        Contact::Miss
    }
}

/// The mover after it was snapped out of `other`.
///
/// A floor stops the fall, puts the mover on the top edge and grounds it.
/// A ceiling halves the vertical velocity and puts the mover one player
/// size below the bottom edge. A wall stops the horizontal motion and puts
/// the mover half a player size beside the edge it ran into.
pub open spec fn spec_resolve(m: Mover, contact: Contact, other: Rect, player_size: i64) -> Mover {
    match contact {
        Contact::Floor => Mover {
            velocity: Vector2 { x: m.velocity.x, y: 0 },
            position: Point2 { x: m.position.x, y: other.spec_top() },
            grounded: true,
        },
        Contact::Ceiling => Mover {
            velocity: Vector2 { x: m.velocity.x, y: spec_fx_half(m.velocity.y) },
            position: Point2 { x: m.position.x, y: spec_fx_add(other.spec_bottom(), player_size) },
            grounded: m.grounded,
        },
        Contact::RightWall => Mover {
            velocity: Vector2 { x: 0, y: m.velocity.y },
            position: Point2 {
                x: spec_fx_add(other.spec_right(), spec_fx_half(player_size)),
                y: m.position.y,
            },
            grounded: m.grounded,
        },
        Contact::LeftWall => Mover {
            velocity: Vector2 { x: 0, y: m.velocity.y },
            position: Point2 {
                x: spec_fx_sub(other.spec_left(), spec_fx_half(player_size)),
                y: m.position.y,
            },
            grounded: m.grounded,
        },
        Contact::Miss => m,
    }
}

/// The mover's position has reached the bottom boundary of the level: the
/// level's height less half the height of the mover's box.
pub open spec fn spec_reaches_bottom(m: Mover, bbox: Rect, level: LevelSize) -> bool {
    m.position.y >= spec_fx_sub(level.height, spec_fx_half(bbox.h))
}

/// The mover held inside the level. Each boundary lies half a box inside
/// the level's edge; a mover at or beyond one is put on it and stopped
/// along that axis.
pub open spec fn spec_clamp_to_level(m: Mover, bbox: Rect, level: LevelSize) -> Mover {
    let min_x = spec_fx_half(bbox.w);
    let max_x = spec_fx_sub(level.width, min_x);
    let min_y = spec_fx_half(bbox.h);
    let max_y = spec_fx_sub(level.height, min_y);
    let (px, vx) = if m.position.x >= max_x {
        (max_x, 0i64)
    } else if m.position.x <= min_x {
        (min_x, 0i64)
    } else {
        (m.position.x, m.velocity.x)
    };
    let (py, vy) = if m.position.y >= max_y {
        (max_y, 0i64)
    } else if m.position.y <= min_y {
        (min_y, 0i64)
    } else {
        (m.position.y, m.velocity.y)
    };
    Mover {
        velocity: Vector2 { x: vx, y: vy },
        position: Point2 { x: px, y: py },
        grounded: m.grounded,
    }
}

/// The box of a mover in world coordinates: its bounding box moved to its
/// position.
pub open spec fn spec_world_box(c: Components) -> Rect
    recommends
        c.is_mover(),
{
    let p = c.point();
    c.rect().spec_translated(Vector2 { x: p.x, y: p.y })
}

/// Entry `j` of the table is a box other than the mover's own that overlaps
/// the mover's box.
pub open spec fn spec_hits(bbox: Rect, entities: Seq<Components>, own: int, j: int) -> bool {
    &&& 0 <= j < entities.len()
    &&& j != own
    &&& entities[j].bounding_box is Some
    &&& entities[j].rect().spec_overlaps(bbox)
}

/// The mover after the first `upto` entries of the table were handled.
pub open spec fn spec_sweep(
    m: Mover,
    bbox: Rect,
    entities: Seq<Components>,
    own: int,
    player_size: i64,
    upto: int,
) -> Mover
    decreases upto,
{
    if upto <= 0 {
        m
    } else {
        let prev = spec_sweep(m, bbox, entities, own, player_size, upto - 1);
        if spec_hits(bbox, entities, own, upto - 1) {
            let other = entities[upto - 1].rect();
            spec_resolve(prev, spec_classify(bbox, other), other, player_size)
        } else {
            prev
        }
    }
}

/// The signals after a mover overlapped the box of `other`: a deadly box
/// asks for a restart, a teleporter names the next level and replaces any
/// level named before.
pub open spec fn spec_signal_step(s: Signals, other: Components) -> Signals {
    Signals {
        restart_level: s.restart_level || other.death is Some,
        change_level: if other.teleport_to is Some {
            Some(other.target())
        } else {
            s.change_level
        },
    }
}

/// The signals after the first `upto` entries of the table were handled.
pub open spec fn spec_sweep_signals(
    s: Signals,
    bbox: Rect,
    entities: Seq<Components>,
    own: int,
    upto: int,
) -> Signals
    decreases upto,
{
    if upto <= 0 {
        s
    } else {
        let prev = spec_sweep_signals(s, bbox, entities, own, upto - 1);
        if spec_hits(bbox, entities, own, upto - 1) {
            spec_signal_step(prev, entities[upto - 1])
        } else {
            prev
        }
    }
}

/// The mover at entry `own` as it enters the pass: not grounded.
pub open spec fn spec_mover_start(c: Components) -> Mover
    recommends
        c.is_mover(),
{
    Mover { velocity: c.motion(), position: c.point(), grounded: false }
}

/// The mover at entry `own` after the sweep over the whole table.
pub open spec fn spec_mover_swept(entities: Seq<Components>, own: int, player_size: i64) -> Mover
    recommends
        0 <= own < entities.len(),
        entities[own].is_mover(),
{
    spec_sweep(
        spec_mover_start(entities[own]),
        spec_world_box(entities[own]),
        entities,
        own,
        player_size,
        entities.len() as int,
    )
}

/// The mover at entry `own` after the pass: swept, then held inside the
/// level.
pub open spec fn spec_mover_outcome(
    entities: Seq<Components>,
    own: int,
    player_size: i64,
    level: LevelSize,
) -> Mover
    recommends
        0 <= own < entities.len(),
        entities[own].is_mover(),
{
    spec_clamp_to_level(
        spec_mover_swept(entities, own, player_size),
        spec_world_box(entities[own]),
        level,
    )
}

/// The signals after the mover at entry `own` was handled. Beside what the
/// boxes raise, reaching the bottom boundary asks for a restart.
pub open spec fn spec_mover_signals(
    entities: Seq<Components>,
    own: int,
    s: Signals,
    player_size: i64,
    level: LevelSize,
) -> Signals
    recommends
        0 <= own < entities.len(),
        entities[own].is_mover(),
{
    let bbox = spec_world_box(entities[own]);
    let raised = spec_sweep_signals(s, bbox, entities, own, entities.len() as int);
    Signals {
        restart_level: raised.restart_level || spec_reaches_bottom(
            spec_mover_swept(entities, own, player_size),
            bbox,
            level,
        ),
        change_level: raised.change_level,
    }
}

/// The grounded flag of an entity after a pass: set for an entity that
/// landed, cleared for any other entity that carries the flag, and absent
/// where it was absent.
pub open spec fn spec_grounded_after(before: Option<Grounded>, landed: bool) -> Option<Grounded> {
    if landed {
        Some(Grounded(true))
    } else if before is Some {
        Some(Grounded(false))
    } else {
        None
    }
}

/// Entry `i` of the table after the pass.
pub open spec fn spec_collided(
    entities: Seq<Components>,
    i: int,
    player_size: i64,
    level: LevelSize,
) -> Components
    recommends
        0 <= i < entities.len(),
{
    let c = entities[i];
    if c.is_mover() {
        let m = spec_mover_outcome(entities, i, player_size, level);
        Components {
            velocity: Some(Velocity(m.velocity)),
            position: Some(Position(m.position)),
            grounded: spec_grounded_after(c.grounded, m.grounded),
            ..c
        }
    } else {
        Components { grounded: spec_grounded_after(c.grounded, false), ..c }
    }
}

/// The signals after the movers among the first `upto` entries were
/// handled, in table order.
pub open spec fn spec_pass_signals(
    entities: Seq<Components>,
    s: Signals,
    player_size: i64,
    level: LevelSize,
    upto: int,
) -> Signals
    decreases upto,
{
    if upto <= 0 {
        s
    } else {
        let prev = spec_pass_signals(entities, s, player_size, level, upto - 1);
        if 0 <= upto - 1 < entities.len() && entities[upto - 1].is_mover() {
            spec_mover_signals(entities, upto - 1, prev, player_size, level)
        } else {
            prev
        }
    }
}

/// Classifies the contact between a mover's box and another box.
pub fn classify(bbox: &Rect, other: &Rect) -> (c: Contact)
    ensures
        c == spec_classify(*bbox, *other),
{
    let left = bbox.left();
    let right = bbox.right();
    let top = bbox.top();
    let bottom = bbox.bottom();
    let tl = other.contains(Point2::new(left, top));
    let tr = other.contains(Point2::new(right, top));
    let bl = other.contains(Point2::new(left, bottom));
    let br = other.contains(Point2::new(right, bottom));
    if bl && br {
        Contact::Floor
    } else if tl && tr {
        Contact::Ceiling
    } else if tl && bl {
        Contact::RightWall
    } else if tr && br {
        Contact::LeftWall
    } else if bl {
        let down = fx_abs(fx_sub(bottom, other.top()));
        let leftward = fx_abs(fx_sub(left, other.right()));
        if down <= leftward {
            Contact::Floor
        } else {
            Contact::RightWall
        }
    } else if br {
        let down = fx_abs(fx_sub(bottom, other.top()));
        let rightward = fx_abs(fx_sub(right, other.left()));
        if down <= rightward {
            Contact::Floor
        } else {
            Contact::LeftWall
        }
    } else if tl {
        let up = fx_abs(fx_sub(top, other.bottom()));
        let leftward = fx_abs(fx_sub(left, other.right()));
        if up <= leftward {
            Contact::Ceiling
        } else {
            Contact::RightWall
        }
    } else if tr {
        let up = fx_abs(fx_sub(top, other.bottom()));
        let rightward = fx_abs(fx_sub(right, other.left()));
        if up <= rightward {
            Contact::Ceiling
        } else {
            Contact::LeftWall
        }
    } else {
        Contact::Miss
    }
}

/// Snaps a mover out of the box it ran into.
pub fn resolve(m: Mover, contact: Contact, other: &Rect, player_size: i64) -> (r: Mover)
    ensures
        r == spec_resolve(m, contact, *other, player_size),
{
    match contact {
        Contact::Floor => Mover {
            velocity: Vector2 { x: m.velocity.x, y: 0 },
            position: Point2 { x: m.position.x, y: other.top() },
            grounded: true,
        },
        Contact::Ceiling => Mover {
            velocity: Vector2 { x: m.velocity.x, y: fx_half(m.velocity.y) },
            position: Point2 { x: m.position.x, y: fx_add(other.bottom(), player_size) },
            grounded: m.grounded,
        },
        Contact::RightWall => Mover {
            velocity: Vector2 { x: 0, y: m.velocity.y },
            position: Point2 {
                x: fx_add(other.right(), fx_half(player_size)),
                y: m.position.y,
            },
            grounded: m.grounded,
        },
        Contact::LeftWall => Mover {
            velocity: Vector2 { x: 0, y: m.velocity.y },
            position: Point2 {
                x: fx_sub(other.left(), fx_half(player_size)),
                y: m.position.y,
            },
            grounded: m.grounded,
        },
        Contact::Miss => m,
    }
}

/// Holds a mover inside the level and tells whether it reached the bottom
/// boundary.
pub fn clamp_to_level(m: Mover, bbox: &Rect, level: &LevelSize) -> (r: (Mover, bool))
    ensures
        r.0 == spec_clamp_to_level(m, *bbox, *level),
        r.1 == spec_reaches_bottom(m, *bbox, *level),
{
    let min_x = fx_half(bbox.w);
    let max_x = fx_sub(level.width, min_x);
    let min_y = fx_half(bbox.h);
    let max_y = fx_sub(level.height, min_y);
    let mut out = m;
    if m.position.x >= max_x {
        out.position.x = max_x;
        out.velocity.x = 0;
    } else if m.position.x <= min_x {
        out.position.x = min_x;
        out.velocity.x = 0;
    }
    let mut fell = false;
    if m.position.y >= max_y {
        out.position.y = max_y;
        out.velocity.y = 0;
        fell = true;
    } else if m.position.y <= min_y {
        out.position.y = min_y;
        out.velocity.y = 0;
    }
    (out, fell)
}

/// Resolves the collisions of entry `own` against the rest of the table.
///
/// Returns the mover after the pass, or `None` where `own` is no entry of
/// the table or the entry is no mover; the signals are then left as they
/// are.
pub fn resolve_mover(
    entities: &Vec<Components>,
    own: usize,
    player_size: i64,
    level: &LevelSize,
    signals: &mut Signals,
) -> (r: Option<Mover>)
    ensures
        own < entities.len() && entities@[own as int].is_mover() ==> {
            &&& r == Some(spec_mover_outcome(entities@, own as int, player_size, *level))
            &&& *final(signals) == spec_mover_signals(
                entities@,
                own as int,
                *old(signals),
                player_size,
                *level,
            )
        },
        !(own < entities.len() && entities@[own as int].is_mover()) ==> {
            &&& r is None
            &&& *final(signals) == *old(signals)
        },
{
    if own >= entities.len() {
        return None;
    }
    let (velocity, position, local) = match (
        entities[own].velocity,
        entities[own].position,
        entities[own].bounding_box,
    ) {
        (Some(v), Some(p), Some(b)) => (v, p, b),
        _ => {
            return None;
        },
    };
    let mut bbox = local.0;
    bbox.translate(Vector2::new(position.0.x, position.0.y));
    let mut m = Mover { velocity: velocity.0, position: position.0, grounded: false };
    let mut j: usize = 0;
    while j < entities.len()
        invariant
            j <= entities.len(),
            own < entities.len(),
            entities@[own as int].is_mover(),
            bbox == spec_world_box(entities@[own as int]),
            m == spec_sweep(
                spec_mover_start(entities@[own as int]),
                bbox,
                entities@,
                own as int,
                player_size,
                j as int,
            ),
            *signals == spec_sweep_signals(*old(signals), bbox, entities@, own as int, j as int),
        decreases entities.len() - j,
    {
        if j != own {
            match entities[j].bounding_box {
                Some(other) => {
                    if other.0.overlaps(&bbox) {
                        if entities[j].death.is_some() {
                            signals.restart_level = true;
                        }
                        match &entities[j].teleport_to {
                            Some(target) => {
                                signals.change_level = Some(target.0.clone());
                            },
                            None => {},
                        }
                        let contact = classify(&bbox, &other.0);
                        m = resolve(m, contact, &other.0, player_size);
                    }
                },
                None => {},
            }
        }
        j += 1;
    }
    let (out, fell) = clamp_to_level(m, &bbox, level);
    if fell {
        signals.restart_level = true;
    }
    Some(out)
}

/// One collision pass over the table.
///
/// Every mover is resolved against the boxes of all other entries, as they
/// stood when the pass began, and the grounded flags are replaced by what
/// the pass found.
pub fn collision_pass(
    entities: &mut Vec<Components>,
    player_size: i64,
    level: &LevelSize,
    signals: &mut Signals,
)
    ensures
        final(entities)@.len() == old(entities)@.len(),
        forall|i: int|
            0 <= i < old(entities)@.len() ==> #[trigger] final(entities)@[i] == spec_collided(
                old(entities)@,
                i,
                player_size,
                *level,
            ),
        *final(signals) == spec_pass_signals(
            old(entities)@,
            *old(signals),
            player_size,
            *level,
            old(entities)@.len() as int,
        ),
{
    let n = entities.len();
    let mut outcomes: Vec<Option<Mover>> = Vec::new();
    let mut i: usize = 0;
    while i < n
        invariant
            i <= n,
            n == entities.len(),
            *entities == *old(entities),
            outcomes.len() == i,
            forall|k: int|
                0 <= k < i ==> #[trigger] outcomes@[k] == if entities@[k].is_mover() {
                    Some(spec_mover_outcome(entities@, k, player_size, *level))
                } else {
                    None
                },
            *signals == spec_pass_signals(entities@, *old(signals), player_size, *level, i as int),
        decreases n - i,
    {
        let r = resolve_mover(entities, i, player_size, level, signals);
        outcomes.push(r);
        i += 1;
    }
    let mut i: usize = 0;
    while i < n
        invariant
            i <= n,
            n == entities.len(),
            n == old(entities)@.len(),
            outcomes.len() == n,
            forall|k: int|
                0 <= k < n ==> #[trigger] outcomes@[k] == if old(entities)@[k].is_mover() {
                    Some(spec_mover_outcome(old(entities)@, k, player_size, *level))
                } else {
                    None
                },
            forall|k: int|
                0 <= k < i ==> #[trigger] entities@[k] == spec_collided(
                    old(entities)@,
                    k,
                    player_size,
                    *level,
                ),
            forall|k: int| i <= k < n ==> #[trigger] entities@[k] == old(entities)@[k],
        decreases n - i,
    {
        let c = &mut entities[i];
        match outcomes[i] {
            Some(m) => {
                c.velocity = Some(Velocity(m.velocity));
                c.position = Some(Position(m.position));
                if m.grounded {
                    c.grounded = Some(Grounded(true));
                } else if c.grounded.is_some() {
                    c.grounded = Some(Grounded(false));
                }
            },
            None => {
                if c.grounded.is_some() {
                    c.grounded = Some(Grounded(false));
                }
            },
        }
        i += 1;
    }
}

} // verus!

verus! {

/// Entry `j` of the table is a teleporter that the mover's box overlaps.
pub open spec fn spec_hits_teleporter(
    bbox: Rect,
    entities: Seq<Components>,
    own: int,
    j: int,
) -> bool {
    spec_hits(bbox, entities, own, j) && entities[j].teleport_to is Some
}

/// Overlap is symmetric and open: a box without area overlaps nothing, and
/// boxes that only share an edge do not overlap.
pub proof fn lemma_overlap_is_open(a: Rect, b: Rect)
    ensures
        a.spec_overlaps(b) == b.spec_overlaps(a),
        a.w <= 0 || a.h <= 0 ==> !a.spec_overlaps(b),
        a.spec_right() == b.spec_left() ==> !a.spec_overlaps(b),
        a.spec_left() == b.spec_right() ==> !a.spec_overlaps(b),
        a.spec_bottom() == b.spec_top() ==> !a.spec_overlaps(b),
        a.spec_top() == b.spec_bottom() ==> !a.spec_overlaps(b),
{
}

/// A sweep never withdraws a request to restart.
pub proof fn lemma_sweep_keeps_restart(
    s: Signals,
    bbox: Rect,
    entities: Seq<Components>,
    own: int,
    upto: int,
)
    requires
        s.restart_level,
    ensures
        spec_sweep_signals(s, bbox, entities, own, upto).restart_level,
    decreases upto,
{
    if upto > 0 {
        lemma_sweep_keeps_restart(s, bbox, entities, own, upto - 1);
    }
}

/// A sweep that reaches a deadly box which the mover overlaps asks for a
/// restart.
pub proof fn lemma_death_raises_restart(
    s: Signals,
    bbox: Rect,
    entities: Seq<Components>,
    own: int,
    j: int,
    upto: int,
)
    requires
        0 <= j < upto,
        spec_hits(bbox, entities, own, j),
        entities[j].death is Some,
    ensures
        spec_sweep_signals(s, bbox, entities, own, upto).restart_level,
    decreases upto,
{
    if upto - 1 > j {
        lemma_death_raises_restart(s, bbox, entities, own, j, upto - 1);
    }
}

/// A pass never withdraws a request to restart.
pub proof fn lemma_pass_keeps_restart(
    entities: Seq<Components>,
    s: Signals,
    player_size: i64,
    level: LevelSize,
    upto: int,
)
    requires
        s.restart_level,
    ensures
        spec_pass_signals(entities, s, player_size, level, upto).restart_level,
    decreases upto,
{
    if upto > 0 {
        lemma_pass_keeps_restart(entities, s, player_size, level, upto - 1);
        let prev = spec_pass_signals(entities, s, player_size, level, upto - 1);
        if 0 <= upto - 1 < entities.len() && entities[upto - 1].is_mover() {
            lemma_sweep_keeps_restart(
                prev,
                spec_world_box(entities[upto - 1]),
                entities,
                upto - 1,
                entities.len() as int,
            );
        }
    }
}

/// A request to restart that the mover at entry `i` raises stands at the
/// end of the pass.
proof fn lemma_pass_restart_from(
    entities: Seq<Components>,
    s: Signals,
    player_size: i64,
    level: LevelSize,
    i: int,
    upto: int,
)
    requires
        0 <= i < upto,
        i < entities.len(),
        entities[i].is_mover(),
        forall|before: Signals|
            spec_mover_signals(entities, i, before, player_size, level).restart_level,
    ensures
        spec_pass_signals(entities, s, player_size, level, upto).restart_level,
    decreases upto,
{
    if upto - 1 > i {
        lemma_pass_restart_from(entities, s, player_size, level, i, upto - 1);
        let prev = spec_pass_signals(entities, s, player_size, level, upto - 1);
        if 0 <= upto - 1 < entities.len() && entities[upto - 1].is_mover() {
            lemma_sweep_keeps_restart(
                prev,
                spec_world_box(entities[upto - 1]),
                entities,
                upto - 1,
                entities.len() as int,
            );
        }
    }
}

/// A mover that overlaps a deadly box has the pass end with a request to
/// restart the level.
pub proof fn lemma_death_restarts_level(
    entities: Seq<Components>,
    s: Signals,
    player_size: i64,
    level: LevelSize,
    i: int,
    j: int,
)
    requires
        0 <= i < entities.len(),
        entities[i].is_mover(),
        spec_hits(spec_world_box(entities[i]), entities, i, j),
        entities[j].death is Some,
    ensures
        spec_pass_signals(entities, s, player_size, level, entities.len() as int).restart_level,
{
    assert forall|before: Signals|
        spec_mover_signals(entities, i, before, player_size, level).restart_level by {
        lemma_death_raises_restart(
            before,
            spec_world_box(entities[i]),
            entities,
            i,
            j,
            entities.len() as int,
        );
    }
    lemma_pass_restart_from(entities, s, player_size, level, i, entities.len() as int);
}

/// A mover at or beyond the bottom boundary is put on it and stopped
/// vertically, whichever way it was moving.
pub proof fn lemma_bottom_stops_fall(m: Mover, bbox: Rect, level: LevelSize)
    requires
        spec_reaches_bottom(m, bbox, level),
    ensures
        spec_clamp_to_level(m, bbox, level).velocity.y == 0,
        spec_clamp_to_level(m, bbox, level).position.y == spec_fx_sub(
            level.height,
            spec_fx_half(bbox.h),
        ),
{
}

/// A mover whose position has reached the bottom boundary after its sweep
/// leaves the pass stopped vertically, and the pass ends with a request to
/// restart the level.
pub proof fn lemma_fall_restarts_level(
    entities: Seq<Components>,
    s: Signals,
    player_size: i64,
    level: LevelSize,
    i: int,
)
    requires
        0 <= i < entities.len(),
        entities[i].is_mover(),
        spec_reaches_bottom(
            spec_mover_swept(entities, i, player_size),
            spec_world_box(entities[i]),
            level,
        ),
    ensures
        spec_collided(entities, i, player_size, level).motion().y == 0,
        spec_pass_signals(entities, s, player_size, level, entities.len() as int).restart_level,
{
    lemma_pass_restart_from(entities, s, player_size, level, i, entities.len() as int);
}

/// A sweep that overlaps no teleporter leaves the level to change to as it
/// was.
pub proof fn lemma_no_teleporter_keeps_target(
    s: Signals,
    bbox: Rect,
    entities: Seq<Components>,
    own: int,
    upto: int,
)
    requires
        forall|k: int| 0 <= k < upto ==> !spec_hits_teleporter(bbox, entities, own, k),
    ensures
        spec_sweep_signals(s, bbox, entities, own, upto).change_level == s.change_level,
    decreases upto,
{
    if upto > 0 {
        lemma_no_teleporter_keeps_target(s, bbox, entities, own, upto - 1);
        assert(!spec_hits_teleporter(bbox, entities, own, upto - 1));
    }
}

/// The last teleporter that a sweep overlaps names the level to change to,
/// whatever was named before.
pub proof fn lemma_last_teleporter_wins(
    s: Signals,
    bbox: Rect,
    entities: Seq<Components>,
    own: int,
    j: int,
    upto: int,
)
    requires
        0 <= j < upto,
        spec_hits_teleporter(bbox, entities, own, j),
        forall|k: int| j < k < upto ==> !spec_hits_teleporter(bbox, entities, own, k),
    ensures
        spec_sweep_signals(s, bbox, entities, own, upto).change_level == Some(
            entities[j].target(),
        ),
    decreases upto,
{
    if upto - 1 > j {
        lemma_last_teleporter_wins(s, bbox, entities, own, j, upto - 1);
        assert(!spec_hits_teleporter(bbox, entities, own, upto - 1));
    }
}

/// The level that stands after the mover at entry `i` stands at the end of
/// the pass when no later mover overlaps a teleporter.
proof fn lemma_pass_target_from(
    entities: Seq<Components>,
    s: Signals,
    player_size: i64,
    level: LevelSize,
    i: int,
    target: Option<String>,
    upto: int,
)
    requires
        0 <= i < upto <= entities.len(),
        entities[i].is_mover(),
        forall|before: Signals|
            spec_mover_signals(entities, i, before, player_size, level).change_level == target,
        forall|m: int, k: int|
            i < m < entities.len() && entities[m].is_mover() && 0 <= k < entities.len()
                ==> !#[trigger] spec_hits_teleporter(spec_world_box(entities[m]), entities, m, k),
    ensures
        spec_pass_signals(entities, s, player_size, level, upto).change_level == target,
    decreases upto,
{
    if upto - 1 > i {
        lemma_pass_target_from(entities, s, player_size, level, i, target, upto - 1);
        let prev = spec_pass_signals(entities, s, player_size, level, upto - 1);
        if entities[upto - 1].is_mover() {
            lemma_no_teleporter_keeps_target(
                prev,
                spec_world_box(entities[upto - 1]),
                entities,
                upto - 1,
                entities.len() as int,
            );
        }
    }
}

/// Last write wins: the pass ends with the level of the last teleporter
/// that the last mover to overlap any teleporter overlaps.
pub proof fn lemma_teleport_target(
    entities: Seq<Components>,
    s: Signals,
    player_size: i64,
    level: LevelSize,
    i: int,
    j: int,
)
    requires
        0 <= i < entities.len(),
        entities[i].is_mover(),
        0 <= j < entities.len(),
        spec_hits_teleporter(spec_world_box(entities[i]), entities, i, j),
        forall|k: int|
            j < k < entities.len() ==> !spec_hits_teleporter(
                spec_world_box(entities[i]),
                entities,
                i,
                k,
            ),
        forall|m: int, k: int|
            i < m < entities.len() && entities[m].is_mover() && 0 <= k < entities.len()
                ==> !#[trigger] spec_hits_teleporter(spec_world_box(entities[m]), entities, m, k),
    ensures
        spec_pass_signals(entities, s, player_size, level, entities.len() as int).change_level
            == Some(entities[j].target()),
{
    let target = Some(entities[j].target());
    assert forall|before: Signals|
        spec_mover_signals(entities, i, before, player_size, level).change_level == target by {
        lemma_last_teleporter_wins(
            before,
            spec_world_box(entities[i]),
            entities,
            i,
            j,
            entities.len() as int,
        );
    }
    lemma_pass_target_from(entities, s, player_size, level, i, target, entities.len() as int);
}

/// A mover with both bottom corners in a box lands on it: the contact is a
/// floor, the fall stops, the mover stands on the top edge and is
/// grounded.
pub proof fn lemma_floor_contact(m: Mover, bbox: Rect, other: Rect, player_size: i64)
    requires
        other.spec_contains(Point2 { x: bbox.spec_left(), y: bbox.spec_bottom() }),
        other.spec_contains(Point2 { x: bbox.spec_right(), y: bbox.spec_bottom() }),
    ensures
        spec_classify(bbox, other) == Contact::Floor,
        spec_resolve(m, spec_classify(bbox, other), other, player_size).velocity.y == 0,
        spec_resolve(m, spec_classify(bbox, other), other, player_size).position.y
            == other.spec_top(),
        spec_resolve(m, spec_classify(bbox, other), other, player_size).grounded,
{
}

/// A sweep over a table in which the mover overlaps the box at entry `j`
/// and no other resolves that one contact and nothing else.
pub proof fn lemma_single_hit_sweep(
    m: Mover,
    bbox: Rect,
    entities: Seq<Components>,
    own: int,
    player_size: i64,
    j: int,
    upto: int,
)
    requires
        spec_hits(bbox, entities, own, j),
        forall|k: int| k != j ==> !spec_hits(bbox, entities, own, k),
    ensures
        spec_sweep(m, bbox, entities, own, player_size, upto) == if j < upto {
            spec_resolve(m, spec_classify(bbox, entities[j].rect()), entities[j].rect(), player_size)
        } else {
            m
        },
    decreases upto,
{
    if upto > 0 {
        lemma_single_hit_sweep(m, bbox, entities, own, player_size, j, upto - 1);
        if upto - 1 != j {
            assert(!spec_hits(bbox, entities, own, upto - 1));
        }
    }
}

/// A mover whose bottom corners both entered a platform, which overlaps
/// nothing else and whose landing place lies strictly inside the level's
/// vertical boundaries, ends the pass standing on the platform: its
/// vertical velocity is zero, its position is the platform's top edge, and
/// it is grounded.
pub proof fn lemma_landing(
    entities: Seq<Components>,
    player_size: i64,
    level: LevelSize,
    i: int,
    j: int,
)
    requires
        0 <= i < entities.len(),
        entities[i].is_mover(),
        spec_hits(spec_world_box(entities[i]), entities, i, j),
        forall|k: int| k != j ==> !spec_hits(spec_world_box(entities[i]), entities, i, k),
        entities[j].rect().spec_contains(
            Point2 {
                x: spec_world_box(entities[i]).spec_left(),
                y: spec_world_box(entities[i]).spec_bottom(),
            },
        ),
        entities[j].rect().spec_contains(
            Point2 {
                x: spec_world_box(entities[i]).spec_right(),
                y: spec_world_box(entities[i]).spec_bottom(),
            },
        ),
        spec_fx_half(entities[i].rect().h) < entities[j].rect().spec_top() < spec_fx_sub(
            level.height,
            spec_fx_half(entities[i].rect().h),
        ),
    ensures
        spec_collided(entities, i, player_size, level).motion().y == 0,
        spec_collided(entities, i, player_size, level).point().y == entities[j].rect().spec_top(),
        spec_collided(entities, i, player_size, level).grounded == Some(Grounded(true)),
{
    let c = entities[i];
    let bbox = spec_world_box(c);
    let other = entities[j].rect();
    lemma_single_hit_sweep(
        spec_mover_start(c),
        bbox,
        entities,
        i,
        player_size,
        j,
        entities.len() as int,
    );
    lemma_floor_contact(spec_mover_start(c), bbox, other, player_size);
}

} // verus!

verus! {

/// The mover at entry `i` is clear of everything: its box overlaps no
/// other box of the table, and its position lies strictly inside the
/// boundaries that hold it in the level. A mover that stands on a floor
/// only touches it and is clear.
pub open spec fn spec_clear(entities: Seq<Components>, i: int, level: LevelSize) -> bool {
    let c = entities[i];
    let bbox = spec_world_box(c);
    &&& 0 <= i < entities.len()
    &&& c.is_mover()
    &&& forall|j: int| !spec_hits(bbox, entities, i, j)
    &&& spec_fx_half(bbox.w) < c.point().x < spec_fx_sub(level.width, spec_fx_half(bbox.w))
    &&& spec_fx_half(bbox.h) < c.point().y < spec_fx_sub(level.height, spec_fx_half(bbox.h))
}

/// A sweep that overlaps nothing leaves the mover as it was.
pub proof fn lemma_sweep_without_hits(
    m: Mover,
    bbox: Rect,
    entities: Seq<Components>,
    own: int,
    player_size: i64,
    upto: int,
)
    requires
        forall|j: int| !spec_hits(bbox, entities, own, j),
    ensures
        spec_sweep(m, bbox, entities, own, player_size, upto) == m,
    decreases upto,
{
    if upto > 0 {
        lemma_sweep_without_hits(m, bbox, entities, own, player_size, upto - 1);
        assert(!spec_hits(bbox, entities, own, upto - 1));
    }
}

/// A sweep that overlaps nothing raises nothing.
pub proof fn lemma_signals_without_hits(
    s: Signals,
    bbox: Rect,
    entities: Seq<Components>,
    own: int,
    upto: int,
)
    requires
        forall|j: int| !spec_hits(bbox, entities, own, j),
    ensures
        spec_sweep_signals(s, bbox, entities, own, upto) == s,
    decreases upto,
{
    if upto > 0 {
        lemma_signals_without_hits(s, bbox, entities, own, upto - 1);
        assert(!spec_hits(bbox, entities, own, upto - 1));
    }
}

/// A pass leaves a clear mover where it is and as fast as it is, takes
/// the ground from under it, and raises no signal on its account.
pub proof fn lemma_clear_mover_is_left(
    entities: Seq<Components>,
    s: Signals,
    player_size: i64,
    level: LevelSize,
    i: int,
)
    requires
        spec_clear(entities, i, level),
    ensures
        spec_collided(entities, i, player_size, level) == (Components {
            grounded: spec_grounded_after(entities[i].grounded, false),
            ..entities[i]
        }),
        spec_mover_signals(entities, i, s, player_size, level) == s,
{
    let c = entities[i];
    let bbox = spec_world_box(c);
    lemma_sweep_without_hits(
        spec_mover_start(c),
        bbox,
        entities,
        i,
        player_size,
        entities.len() as int,
    );
    lemma_signals_without_hits(s, bbox, entities, i, entities.len() as int);
}

/// A pass over a table whose movers are all clear raises no signal.
pub proof fn lemma_clear_pass_is_quiet(
    entities: Seq<Components>,
    s: Signals,
    player_size: i64,
    level: LevelSize,
    upto: int,
)
    requires
        forall|i: int|
            0 <= i < entities.len() && entities[i].is_mover() ==> spec_clear(entities, i, level),
    ensures
        spec_pass_signals(entities, s, player_size, level, upto) == s,
    decreases upto,
{
    if upto > 0 {
        lemma_clear_pass_is_quiet(entities, s, player_size, level, upto - 1);
        if 0 <= upto - 1 < entities.len() && entities[upto - 1].is_mover() {
            lemma_clear_mover_is_left(entities, s, player_size, level, upto - 1);
        }
    }
}

} // verus!

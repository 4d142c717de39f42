use vstd::prelude::*;

use crate::components::{Body, Components, Motion, COMPONENT_CAPACITY};
use crate::entity::{Entity, EntityFactory};
use crate::flint::{fadd, fsub, Flint};
use crate::forge::{rectangle_body, ship_motion, triangle_body, Forge};
use crate::morph::Morph;
use crate::sparse_set::lookup;
use crate::vec2::{vadd, vscale, vsub, Vec2};

verus! {

#[derive(Copy, Clone, Debug, PartialEq, Eq, Structural)]
pub enum SpawnKind {
    Triangle,
    Rectangle,
}

/// What the players ask of the simulation in one tick.
#[derive(Copy, Clone, Debug, PartialEq, Eq, Structural)]
pub enum Command {
    Accelerate(Entity),
    Decelerate(Entity),
    TurnLeft(Entity),
    TurnRight(Entity),
    Spawn { kind: SpawnKind, centroid: Vec2<Flint> },
}

/// The motion after a push along the facing of the body: forward, or backward
/// when `forward` is false.
pub open spec fn pushed(m: Motion, b: Body, forward: bool) -> Motion {
    let push = vscale(b.rotation, m.acceleration);
    Motion {
        velocity: if forward {
            vadd(m.velocity, push)
        } else {
            vsub(m.velocity, push)
        },
        ..m
    }
}

/// The motion after a turn impulse: left lowers the turning speed, right raises it.
pub open spec fn turned(m: Motion, right: bool) -> Motion {
    Motion {
        rotation_speed: if right {
            fadd(m.rotation_speed, m.rotation_acceleration)
        } else {
            fsub(m.rotation_speed, m.rotation_acceleration)
        },
        ..m
    }
}

/// The motion table after a push on `entity`: changed only when the entity has
/// both a motion and a body.
pub open spec fn after_push(
    motions: Map<u32, (u32, Motion)>,
    bodies: Map<u32, (u32, Morph<Body>)>,
    entity: Entity,
    forward: bool,
) -> Map<u32, (u32, Motion)> {
    match (lookup(motions, entity), lookup(bodies, entity)) {
        (Some(m), Some(b)) => motions.insert(
            entity.index,
            (entity.generation, pushed(m, b.new, forward)),
        ),
        _ => motions,
    }
}

/// The motion table after a turn impulse on `entity`.
pub open spec fn after_turn(motions: Map<u32, (u32, Motion)>, entity: Entity, right: bool) -> Map<
    u32,
    (u32, Motion),
> {
    match lookup(motions, entity) {
        Some(m) => motions.insert(entity.index, (entity.generation, turned(m, right))),
        None => motions,
    }
}

/// The body a spawn of `kind` places at `centroid`.
pub open spec fn spawned_body(kind: SpawnKind, centroid: Vec2<Flint>) -> Body {
    match kind {
        SpawnKind::Triangle => triangle_body(centroid),
        SpawnKind::Rectangle => rectangle_body(centroid),
    }
}

/// What applying command `c` does: it takes the body table `b0`, the motion table
/// `m0` and the registry `f0` to `b1`, `m1` and `f1`, and hands out `out`.
///
/// Pushes and turns change only the motion table. A spawn creates the entity the
/// registry hands out next, with its body and the ship motion, when the registry
/// can create one and its index fits the tables; otherwise nothing changes.
pub open spec fn command_effect(
    c: Command,
    b0: Map<u32, (u32, Morph<Body>)>,
    m0: Map<u32, (u32, Motion)>,
    f0: EntityFactory,
    b1: Map<u32, (u32, Morph<Body>)>,
    m1: Map<u32, (u32, Motion)>,
    f1: EntityFactory,
    out: Option<Entity>,
) -> bool {
    let unchanged_registry = out is None && f1 == f0 && b1 == b0;
    match c {
        Command::Accelerate(e) => unchanged_registry && m1 == after_push(m0, b0, e, true),
        Command::Decelerate(e) => unchanged_registry && m1 == after_push(m0, b0, e, false),
        Command::TurnLeft(e) => unchanged_registry && m1 == after_turn(m0, e, false),
        Command::TurnRight(e) => unchanged_registry && m1 == after_turn(m0, e, true),
        Command::Spawn { kind, centroid } => {
            if f0.can_create() && f0.next_index_spec() < COMPONENT_CAPACITY {
                let e = f0.next_entity();
                let body = spawned_body(kind, centroid);
                &&& out == Some(e)
                &&& f1.wf()
                &&& f1.is_alive(e)
                &&& forall|x: Entity| #[trigger] f0.is_alive(x) ==> f1.is_alive(x)
                &&& b1 == b0.insert(e.index, (e.generation, Morph { old: body, new: body }))
                &&& m1 == m0.insert(e.index, (e.generation, ship_motion()))
            } else {
                unchanged_registry && m1 == m0
            }
        },
    }
}

fn push(entity: &Entity, components: &mut Components, forward: bool)
    requires
        old(components).wf(),
    ensures
        final(components).wf(),
        final(components).bodies == old(components).bodies,
        final(components).motions@ == after_push(
            old(components).motions@,
            old(components).bodies@,
            *entity,
            forward,
        ),
{
    let body = match components.bodies.get(entity) {
        Some(b) => *b,
        None => return,
    };
    match components.motions.get_mut(entity) {
        Some(motion) => {
            let delta = body.new.rotation.scaled(motion.acceleration);
            if forward {
                motion.velocity = motion.velocity + delta;
            } else {
                motion.velocity = motion.velocity - delta;
            }
        },
        None => {},
    }
}

fn turn(entity: &Entity, components: &mut Components, right: bool)
    requires
        old(components).wf(),
    ensures
        final(components).wf(),
        final(components).bodies == old(components).bodies,
        final(components).motions@ == after_turn(old(components).motions@, *entity, right),
{
    match components.motions.get_mut(entity) {
        Some(motion) => {
            if right {
                motion.rotation_speed = motion.rotation_speed + motion.rotation_acceleration;
            } else {
                motion.rotation_speed = motion.rotation_speed - motion.rotation_acceleration;
            }
        },
        None => {},
    }
}

impl Command {
    /// Applies the command. A spawn returns the new entity; it spawns nothing when
    /// no entity can be created or the entity's index is beyond the tables.
    pub fn execute(&self, components: &mut Components, forge: &mut Forge) -> (spawned: Option<
        Entity,
    >)
        requires
            old(components).wf(),
            old(forge).wf(),
        ensures
            final(components).wf(),
            final(forge).wf(),
            forall|x: Entity| #[trigger]
                old(forge).factory().is_alive(x) ==> final(forge).factory().is_alive(x),
            command_effect(
                *self,
                old(components).bodies@,
                old(components).motions@,
                old(forge).factory(),
                final(components).bodies@,
                final(components).motions@,
                final(forge).factory(),
                spawned,
            ),
    {
        match self {
            Command::Accelerate(entity) => {
                push(entity, components, true);
                None
            },
            Command::Decelerate(entity) => {
                push(entity, components, false);
                None
            },
            Command::TurnLeft(entity) => {
                turn(entity, components, false);
                None
            },
            Command::TurnRight(entity) => {
                turn(entity, components, true);
                None
            },
            Command::Spawn { kind, centroid } => {
                if !forge.can_create() {
                    return None;
                }
                match kind {
                    SpawnKind::Triangle => forge.triangle(*centroid, components),
                    SpawnKind::Rectangle => forge.rectangle(*centroid, components),
                }
            },
        }
    }
}

} // verus!

use vstd::prelude::*;

use crate::color::Color;
use crate::components::{Body, Components, Motion, Rectangle, Shape, Triangle, COMPONENT_CAPACITY};
use crate::entity::{next_generation, Entity, EntityFactory};
use crate::flint::Flint;
use crate::morph::Morph;
use crate::sparse_set::lookup;
use crate::vec2::Vec2;

verus! {

/// `v` whole units.
pub open spec fn units(v: int) -> Flint {
    Flint { raw: (v * 65536) as i32 }
}

/// A point given in whole units.
pub open spec fn point(x: int, y: int) -> Vec2<Flint> {
    Vec2 { x: units(x), y: units(y) }
}

/// Facing up the screen.
pub open spec fn facing_up() -> Vec2<Flint> {
    point(0, -1)
}

/// The body a triangle ship spawns with at `centroid`.
pub open spec fn triangle_body(centroid: Vec2<Flint>) -> Body {
    Body {
        centroid,
        rotation: facing_up(),
        shape: Shape::Triangle(
            Triangle { top: point(50, 0), left: point(-25, -30), right: point(-25, 30) },
        ),
        color: Color { r: 0, g: 255, b: 0, a: 255 },
    }
}

/// The body a rectangle ship spawns with at `centroid`.
pub open spec fn rectangle_body(centroid: Vec2<Flint>) -> Body {
    Body {
        centroid,
        rotation: facing_up(),
        shape: Shape::Rectangle(Rectangle { width: units(40), height: units(60) }),
        color: Color { r: 0, g: 255, b: 0, a: 255 },
    }
}

/// The raw value of a ship's acceleration: `1.3`.
pub const SHIP_ACCELERATION_RAW: i32 = 85195;

/// The motion every ship spawns with: at rest, with its speed and turning limits.
pub open spec fn ship_motion() -> Motion {
    Motion {
        velocity: point(0, 0),
        speed_maximum: units(15),
        speed_minimum: units(-10),
        acceleration: Flint { raw: SHIP_ACCELERATION_RAW },
        rotation_speed: units(0),
        rotation_speed_maximum: units(16),
        rotation_speed_minimum: units(-16),
        rotation_acceleration: units(1),
    }
}

/// Creates and destroys entities together with their components.
pub struct Forge {
    factory: EntityFactory,
}

impl Forge {
    pub closed spec fn factory(&self) -> EntityFactory {
        self.factory
    }

    pub open spec fn wf(&self) -> bool {
        self.factory().wf()
    }

    pub fn new() -> (r: Forge)
        ensures
            r.wf(),
            r.factory().generations().len() == 0,
            r.factory().free().len() == 0,
    {
        Forge { factory: EntityFactory::new() }
    }

    /// Destroys `entity` and purges its components. A stale handle changes nothing
    /// in the registry, and finds no components to purge.
    pub fn destroy(&mut self, entity: Entity, components: &mut Components)
        requires
            old(self).wf(),
            old(components).wf(),
        ensures
            final(self).wf(),
            final(components).wf(),
            old(self).factory().is_alive(entity) ==> !final(self).factory().is_alive(entity),
            !old(self).factory().is_alive(entity) ==> final(self).factory() == old(self).factory(),
            lookup(final(components).bodies@, entity) is None,
            lookup(final(components).motions@, entity) is None,
            lookup(old(components).bodies@, entity) is Some ==> final(components).bodies@
                == old(components).bodies@.remove(entity.index),
            lookup(old(components).bodies@, entity) is None ==> final(components).bodies@
                == old(components).bodies@,
            lookup(old(components).motions@, entity) is Some ==> final(components).motions@
                == old(components).motions@.remove(entity.index),
            lookup(old(components).motions@, entity) is None ==> final(components).motions@
                == old(components).motions@,
    {
        self.factory.destroy(entity);
        components.destroy(entity);
    }

    /// Spawns a ship: a new entity with `body` and the ship motion, or `None`,
    /// changing nothing, when the entity's index is beyond the component tables.
    fn spawn(&mut self, body: Body, components: &mut Components) -> (r: Option<Entity>)
        requires
            old(self).wf(),
            old(self).factory().can_create(),
            old(components).wf(),
        ensures
            final(self).wf(),
            final(components).wf(),
            (old(self).factory().next_index_spec() < COMPONENT_CAPACITY) == r is Some,
            r is None ==> *final(self) == *old(self) && final(components).bodies@ == old(
                components,
            ).bodies@ && final(components).motions@ == old(components).motions@,
            forall|x: Entity| #[trigger]
                old(self).factory().is_alive(x) ==> final(self).factory().is_alive(x),
            r matches Some(e) ==> {
                &&& final(self).factory().is_alive(e)
                &&& e == old(self).factory().next_entity()
                &&& final(components).bodies@ == old(components).bodies@.insert(
                    e.index,
                    (e.generation, Morph { old: body, new: body }),
                )
                &&& final(components).motions@ == old(components).motions@.insert(
                    e.index,
                    (e.generation, ship_motion()),
                )
            },
    {
        if self.factory.next_index() >= COMPONENT_CAPACITY as u64 {
            return None;
        }
        let entity = self.factory.create();
        components.bodies.insert(entity, Morph::one(body));
        components.motions.insert(entity, ship_motion_value());
        Some(entity)
    }

    /// Spawns a triangle ship at `centroid`.
    pub fn triangle(&mut self, centroid: Vec2<Flint>, components: &mut Components) -> (r: Option<Entity>)
        requires
            old(self).wf(),
            old(self).factory().can_create(),
            old(components).wf(),
        ensures
            final(self).wf(),
            final(components).wf(),
            (old(self).factory().next_index_spec() < COMPONENT_CAPACITY) == r is Some,
            r is None ==> *final(self) == *old(self) && final(components).bodies@ == old(
                components,
            ).bodies@ && final(components).motions@ == old(components).motions@,
            forall|x: Entity| #[trigger]
                old(self).factory().is_alive(x) ==> final(self).factory().is_alive(x),
            r matches Some(e) ==> {
                &&& final(self).factory().is_alive(e)
                &&& e == old(self).factory().next_entity()
                &&& final(components).bodies@ == old(components).bodies@.insert(
                    e.index,
                    (e.generation, Morph { old: triangle_body(centroid), new: triangle_body(centroid) }),
                )
                &&& final(components).motions@ == old(components).motions@.insert(
                    e.index,
                    (e.generation, ship_motion()),
                )
            },
    {
        let body = Body {
            centroid,
            rotation: Vec2::new(Flint::zero(), Flint::neg_one()),
            shape: Shape::Triangle(
                Triangle {
                    top: Vec2::new(Flint::new(50, 0), Flint::new(0, 0)),
                    left: Vec2::new(Flint::new(-25, 0), Flint::new(-30, 0)),
                    right: Vec2::new(Flint::new(-25, 0), Flint::new(30, 0)),
                },
            ),
            color: Color::green(),
        };
        self.spawn(body, components)
    }

    /// Spawns a rectangle ship at `centroid`.
    pub fn rectangle(&mut self, centroid: Vec2<Flint>, components: &mut Components) -> (r: Option<Entity>)
        requires
            old(self).wf(),
            old(self).factory().can_create(),
            old(components).wf(),
        ensures
            final(self).wf(),
            final(components).wf(),
            (old(self).factory().next_index_spec() < COMPONENT_CAPACITY) == r is Some,
            r is None ==> *final(self) == *old(self) && final(components).bodies@ == old(
                components,
            ).bodies@ && final(components).motions@ == old(components).motions@,
            forall|x: Entity| #[trigger]
                old(self).factory().is_alive(x) ==> final(self).factory().is_alive(x),
            r matches Some(e) ==> {
                &&& final(self).factory().is_alive(e)
                &&& e == old(self).factory().next_entity()
                &&& final(components).bodies@ == old(components).bodies@.insert(
                    e.index,
                    (e.generation, Morph { old: rectangle_body(centroid), new: rectangle_body(centroid) }),
                )
                &&& final(components).motions@ == old(components).motions@.insert(
                    e.index,
                    (e.generation, ship_motion()),
                )
            },
    {
        let body = Body {
            centroid,
            rotation: Vec2::new(Flint::zero(), Flint::neg_one()),
            shape: Shape::Rectangle(Rectangle { width: Flint::new(40, 0), height: Flint::new(60, 0) }),
            color: Color::green(),
        };
        self.spawn(body, components)
    }

    /// Whether another entity can be created.
    pub fn can_create(&self) -> (r: bool)
        requires
            self.wf(),
        ensures
            r == self.factory().can_create(),
    {
        self.factory.can_create_exec()
    }
}

fn ship_motion_value() -> (m: Motion)
    ensures
        m == ship_motion(),
{
    Motion {
        velocity: Vec2::zero(),
        speed_maximum: Flint::new(15, 0),
        speed_minimum: Flint::new(-10, 0),
        acceleration: Flint::new(1, Flint::POINT_ONE * 3),
        rotation_speed: Flint::zero(),
        rotation_speed_maximum: Flint::new(16, 0),
        rotation_speed_minimum: Flint::new(-16, 0),
        rotation_acceleration: Flint::new(1, 0),
    }
}

/// A destroyed entity's handle never resolves again, even once a spawn reuses
/// its slot. `Forge::destroy` purged the entity from every table and moved its
/// slot to the next generation (`destroyed`); the next spawn stores the entity
/// the registry hands out next, which the old handle does not match.
pub proof fn lemma_destroyed_entity_never_resolves<T>(
    before: EntityFactory,
    entity: Entity,
    destroyed: EntityFactory,
    table: Map<u32, (u32, T)>,
    value: T,
)
    requires
        before.is_alive(entity),
        destroyed.generations() == before.generations().update(
            entity.index as int,
            next_generation(entity.generation),
        ),
        destroyed.can_create(),
        lookup(table, entity) is None,
    ensures
        lookup(
            table.insert(
                destroyed.next_entity().index,
                (destroyed.next_entity().generation, value),
            ),
            entity,
        ) is None,
{
}

} // verus!

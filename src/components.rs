use vstd::prelude::*;

use crate::color::Color;
use crate::entity::Entity;
use crate::flint::{fadd, fmul, fsub, Flint};
use crate::morph::Morph;
use crate::sparse_set::SparseSet;
use crate::vec2::{rotated_v_spec, vadd, Vec2};

verus! {

/// Number of entity indices the component tables hold.
pub const COMPONENT_CAPACITY: usize = 65535;

/// How an entity moves and turns, and the limits it does so within.
#[derive(Copy, Clone, Debug, PartialEq, Eq, Structural)]
pub struct Motion {
    pub velocity: Vec2<Flint>,
    pub speed_maximum: Flint,
    pub speed_minimum: Flint,
    pub acceleration: Flint,
    pub rotation_speed: Flint,
    pub rotation_speed_maximum: Flint,
    pub rotation_speed_minimum: Flint,
    pub rotation_acceleration: Flint,
}

/// Triangle corners relative to the centroid, before rotation.
#[derive(Copy, Clone, Debug, PartialEq, Eq, Structural)]
pub struct Triangle {
    pub top: Vec2<Flint>,
    pub left: Vec2<Flint>,
    pub right: Vec2<Flint>,
}

/// A rectangle centred on the centroid, before rotation.
#[derive(Copy, Clone, Debug, PartialEq, Eq, Structural)]
pub struct Rectangle {
    pub width: Flint,
    pub height: Flint,
}

#[derive(Copy, Clone, Debug, PartialEq, Eq, Structural)]
pub enum Shape {
    Triangle(Triangle),
    Rectangle(Rectangle),
}

/// Where an entity is, which way it faces (a unit direction), and what it looks like.
#[derive(Copy, Clone, Debug, PartialEq, Eq, Structural)]
pub struct Body {
    pub centroid: Vec2<Flint>,
    pub rotation: Vec2<Flint>,
    pub shape: Shape,
    pub color: Color,
}

/// An axis-aligned box: corner `(x, y)` and extent.
#[derive(Copy, Clone, Debug, PartialEq, Eq, Structural)]
pub struct Bounds {
    pub x: Flint,
    pub y: Flint,
    pub width: Flint,
    pub height: Flint,
}

pub open spec fn fmin(a: Flint, b: Flint) -> Flint {
    if a.raw <= b.raw {
        a
    } else {
        b
    }
}

pub open spec fn fmax(a: Flint, b: Flint) -> Flint {
    if a.raw >= b.raw {
        a
    } else {
        b
    }
}

/// The box spanned by three points.
pub open spec fn bounds3(a: Vec2<Flint>, b: Vec2<Flint>, c: Vec2<Flint>) -> Bounds {
    let xmin = fmin(a.x, fmin(b.x, c.x));
    let xmax = fmax(a.x, fmax(b.x, c.x));
    let ymin = fmin(a.y, fmin(b.y, c.y));
    let ymax = fmax(a.y, fmax(b.y, c.y));
    Bounds { x: xmin, y: ymin, width: fsub(xmax, xmin), height: fsub(ymax, ymin) }
}

/// The box spanned by four points.
pub open spec fn bounds4(a: Vec2<Flint>, b: Vec2<Flint>, c: Vec2<Flint>, d: Vec2<Flint>) -> Bounds {
    let xmin = fmin(a.x, fmin(b.x, fmin(c.x, d.x)));
    let xmax = fmax(a.x, fmax(b.x, fmax(c.x, d.x)));
    let ymin = fmin(a.y, fmin(b.y, fmin(c.y, d.y)));
    let ymax = fmax(a.y, fmax(b.y, fmax(c.y, d.y)));
    Bounds { x: xmin, y: ymin, width: fsub(xmax, xmin), height: fsub(ymax, ymin) }
}

/// The raw value of one half.
pub const HALF_RAW: i32 = 32768;

/// The box around a body's shape, turned by its rotation and placed at its centroid.
pub open spec fn hitbox_spec(b: Body) -> Bounds {
    let place = |p: Vec2<Flint>| vadd(b.centroid, rotated_v_spec(p, b.rotation));
    match b.shape {
        Shape::Triangle(t) => bounds3(place(t.top), place(t.left), place(t.right)),
        Shape::Rectangle(r) => {
            let w = fmul(r.width, Flint { raw: HALF_RAW });
            let h = fmul(r.height, Flint { raw: HALF_RAW });
            let nw = fsub(Flint { raw: 0 }, w);
            let nh = fsub(Flint { raw: 0 }, h);
            bounds4(
                place(Vec2 { x: nw, y: nh }),
                place(Vec2 { x: w, y: nh }),
                place(Vec2 { x: nw, y: h }),
                place(Vec2 { x: w, y: h }),
            )
        },
    }
}

/// The smallest box holding both boxes.
pub open spec fn union_spec(a: Bounds, b: Bounds) -> Bounds {
    let xmin = fmin(a.x, b.x);
    let xmax = fmax(fadd(a.x, a.width), fadd(b.x, b.width));
    let ymin = fmin(a.y, b.y);
    let ymax = fmax(fadd(a.y, a.height), fadd(b.y, b.height));
    Bounds { x: xmin, y: ymin, width: fsub(xmax, xmin), height: fsub(ymax, ymin) }
}

/// Two shapes of the same kind, which can be interpolated between.
pub open spec fn same_kind(a: Shape, b: Shape) -> bool {
    match (a, b) {
        (Shape::Triangle(_), Shape::Triangle(_)) => true,
        (Shape::Rectangle(_), Shape::Rectangle(_)) => true,
        _ => false,
    }
}

fn min_of(a: Flint, b: Flint) -> (r: Flint)
    ensures
        r == fmin(a, b),
{
    if a.raw <= b.raw {
        a
    } else {
        b
    }
}

fn max_of(a: Flint, b: Flint) -> (r: Flint)
    ensures
        r == fmax(a, b),
{
    if a.raw >= b.raw {
        a
    } else {
        b
    }
}

impl Body {
    /// The body's bounding box.
    pub fn hitbox(&self) -> (r: Bounds)
        ensures
            r == hitbox_spec(*self),
    {
        match self.shape {
            Shape::Triangle(triangle) => {
                let t = self.centroid + triangle.top.rotated_v(self.rotation);
                let l = self.centroid + triangle.left.rotated_v(self.rotation);
                let r = self.centroid + triangle.right.rotated_v(self.rotation);
                let xmin = min_of(t.x, min_of(l.x, r.x));
                let xmax = max_of(t.x, max_of(l.x, r.x));
                let ymin = min_of(t.y, min_of(l.y, r.y));
                let ymax = max_of(t.y, max_of(l.y, r.y));
                Bounds { x: xmin, y: ymin, width: xmax - xmin, height: ymax - ymin }
            },
            Shape::Rectangle(rectangle) => {
                let half = Flint::from_raw(HALF_RAW);
                let w = rectangle.width * half;
                let h = rectangle.height * half;
                let nw = Flint::zero() - w;
                let nh = Flint::zero() - h;
                let tl = self.centroid + Vec2::new(nw, nh).rotated_v(self.rotation);
                let tr = self.centroid + Vec2::new(w, nh).rotated_v(self.rotation);
                let bl = self.centroid + Vec2::new(nw, h).rotated_v(self.rotation);
                let br = self.centroid + Vec2::new(w, h).rotated_v(self.rotation);
                let xmin = min_of(tl.x, min_of(tr.x, min_of(bl.x, br.x)));
                let xmax = max_of(tl.x, max_of(tr.x, max_of(bl.x, br.x)));
                let ymin = min_of(tl.y, min_of(tr.y, min_of(bl.y, br.y)));
                let ymax = max_of(tl.y, max_of(tr.y, max_of(bl.y, br.y)));
                Bounds { x: xmin, y: ymin, width: xmax - xmin, height: ymax - ymin }
            },
        }
    }
}

/// The box swept between the two states of a body: the union of both hitboxes.
/// A body whose shape changed kind between the states has none (`None`): such a
/// change cannot be interpolated.
pub fn swept_hitbox(body: &Morph<Body>) -> (r: Option<Bounds>)
    ensures
        same_kind(body.old.shape, body.new.shape) ==> r == Some(
            union_spec(hitbox_spec(body.old), hitbox_spec(body.new)),
        ),
        !same_kind(body.old.shape, body.new.shape) ==> r is None,
{
    let kinds_match = match (body.old.shape, body.new.shape) {
        (Shape::Triangle(_), Shape::Triangle(_)) => true,
        (Shape::Rectangle(_), Shape::Rectangle(_)) => true,
        _ => false,
    };
    if !kinds_match {
        return None;
    }
    let old = body.old.hitbox();
    let new = body.new.hitbox();
    let xmin = min_of(old.x, new.x);
    let xmax = max_of(old.x + old.width, new.x + new.width);
    let ymin = min_of(old.y, new.y);
    let ymax = max_of(old.y + old.height, new.y + new.height);
    Some(Bounds { x: xmin, y: ymin, width: xmax - xmin, height: ymax - ymin })
}

/// The component tables of the simulation.
pub struct Components {
    pub bodies: SparseSet<Morph<Body>>,
    pub motions: SparseSet<Motion>,
}

impl Components {
    pub open spec fn wf(&self) -> bool {
        &&& self.bodies.wf()
        &&& self.motions.wf()
        &&& self.bodies.capacity() == COMPONENT_CAPACITY
        &&& self.motions.capacity() == COMPONENT_CAPACITY
    }

    pub fn new() -> (r: Components)
        ensures
            r.wf(),
            r.bodies@ == Map::<u32, (u32, Morph<Body>)>::empty(),
            r.motions@ == Map::<u32, (u32, Motion)>::empty(),
    {
        Components {
            bodies: SparseSet::new(COMPONENT_CAPACITY),
            motions: SparseSet::new(COMPONENT_CAPACITY),
        }
    }

    /// Purges every component of `entity`; a stale handle purges nothing.
    pub fn destroy(&mut self, entity: Entity)
        requires
            old(self).wf(),
        ensures
            final(self).wf(),
            crate::sparse_set::lookup(old(self).bodies@, entity) is Some ==> final(self).bodies@
                == old(self).bodies@.remove(entity.index),
            crate::sparse_set::lookup(old(self).bodies@, entity) is None ==> final(self).bodies@
                == old(self).bodies@,
            crate::sparse_set::lookup(old(self).motions@, entity) is Some ==> final(self).motions@
                == old(self).motions@.remove(entity.index),
            crate::sparse_set::lookup(old(self).motions@, entity) is None ==> final(self).motions@
                == old(self).motions@,
    {
        self.bodies.remove(&entity);
        self.motions.remove(&entity);
    }
}

} // verus!

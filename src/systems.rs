use vstd::prelude::*;

use core::ops::Neg;

use crate::components::{Body, Components, Motion};
use crate::flint::{fadd, fmul, fneg, fsub, Flint};
use crate::morph::Morph;
use crate::vec2::{
    direction_of_degrees, dot_spec, normalized_spec, rotated_v_spec, vadd, vscale, vsub, Vec2,
};

verus! {

/// The raw value of the drag that slows every turn and every movement per tick: `0.2`.
pub const COSMIC_DRAG_RAW: i32 = 13106;

/// The drag applied to a turning speed: it moves toward zero by the drag amount
/// and stops at zero rather than overshooting.
pub open spec fn dragged_rotation(rs: Flint) -> Flint {
    let drag = Flint { raw: COSMIC_DRAG_RAW };
    if rs.raw < 0 {
        let d = fadd(rs, drag);
        if d.raw > 0 {
            Flint { raw: 0 }
        } else {
            d
        }
    } else if rs.raw > 0 {
        let d = fsub(rs, drag);
        if d.raw < 0 {
            Flint { raw: 0 }
        } else {
            d
        }
    } else {
        rs
    }
}

/// `v` held between `lo` and `hi`, the upper limit checked first.
pub open spec fn limited(v: Flint, lo: Flint, hi: Flint) -> Flint {
    if v.raw > hi.raw {
        hi
    } else if v.raw < lo.raw {
        lo
    } else {
        v
    }
}

/// One tick of motion for one entity: drag and limits on the turning speed, the
/// body turned by it, drag on the velocity (a full stop when the drag reversed
/// it), the speed held within its limits, and the body moved by the velocity.
pub open spec fn motion_step(m: Motion, b: Body) -> (Motion, Body) {
    let drag = Flint { raw: COSMIC_DRAG_RAW };
    let rs = limited(dragged_rotation(m.rotation_speed), m.rotation_speed_minimum, m.rotation_speed_maximum);
    let rotation = if rs.raw != 0 {
        rotated_v_spec(b.rotation, direction_of_degrees(rs))
    } else {
        b.rotation
    };
    let direction = normalized_spec(m.velocity);
    let dragged = vsub(m.velocity, vscale(direction, drag));
    let stopped = if dot_spec(direction, normalized_spec(dragged)).raw < 0 {
        Vec2 { x: Flint { raw: 0 }, y: Flint { raw: 0 } }
    } else {
        dragged
    };
    let speed = dot_spec(stopped, stopped);
    let speed_max = fmul(m.speed_maximum, m.speed_maximum);
    let speed_min = fneg(fmul(m.speed_minimum, m.speed_minimum));
    let velocity = if speed.raw > speed_max.raw {
        vscale(direction, m.speed_maximum)
    } else if speed.raw < speed_min.raw {
        vscale(direction, m.speed_minimum)
    } else {
        stopped
    };
    (
        Motion {
            velocity,
            speed_maximum: m.speed_maximum,
            speed_minimum: m.speed_minimum,
            acceleration: m.acceleration,
            rotation_speed: rs,
            rotation_speed_maximum: m.rotation_speed_maximum,
            rotation_speed_minimum: m.rotation_speed_minimum,
            rotation_acceleration: m.rotation_acceleration,
        },
        Body { centroid: vadd(b.centroid, velocity), rotation, shape: b.shape, color: b.color },
    )
}

/// One tick of motion for one entity.
pub fn step_motion(m: Motion, b: Body) -> (r: (Motion, Body))
    ensures
        r == motion_step(m, b),
{
    let drag = Flint::from_raw(COSMIC_DRAG_RAW);
    let zero = Flint::zero();
    let mut motion = m;
    let mut body = b;
    if motion.rotation_speed.raw < 0 {
        motion.rotation_speed = motion.rotation_speed + drag;
        if motion.rotation_speed.raw > 0 {
            motion.rotation_speed = zero;
        }
    } else if motion.rotation_speed.raw > 0 {
        motion.rotation_speed = motion.rotation_speed - drag;
        if motion.rotation_speed.raw < 0 {
            motion.rotation_speed = zero;
        }
    }
    if motion.rotation_speed.raw > motion.rotation_speed_maximum.raw {
        motion.rotation_speed = motion.rotation_speed_maximum;
    } else if motion.rotation_speed.raw < motion.rotation_speed_minimum.raw {
        motion.rotation_speed = motion.rotation_speed_minimum;
    }
    if motion.rotation_speed.raw != 0 {
        body.rotation = body.rotation.rotated(motion.rotation_speed);
    }
    let direction = motion.velocity.normalized();
    motion.velocity = motion.velocity - direction.scaled(drag);
    if direction.dot(&motion.velocity.normalized()).raw < 0 {
        motion.velocity = Vec2::zero();
    }
    let speed = motion.velocity.len_sqr();
    let speed_max = motion.speed_maximum * motion.speed_maximum;
    let speed_min = (motion.speed_minimum * motion.speed_minimum).neg();
    if speed.raw > speed_max.raw {
        motion.velocity = direction.scaled(motion.speed_maximum);
    } else if speed.raw < speed_min.raw {
        motion.velocity = direction.scaled(motion.speed_minimum);
    }
    body.centroid = body.centroid + motion.velocity;
    (motion, body)
}

/// The body table after the commit that starts a tick: every body's previous
/// state becomes its current one.
pub open spec fn committed(bodies: Map<u32, (u32, Morph<Body>)>) -> Map<u32, (u32, Morph<Body>)> {
    Map::new(
        |j: u32| bodies.contains_key(j),
        |j: u32| (bodies[j].0, Morph { old: bodies[j].1.new, new: bodies[j].1.new }),
    )
}

/// Starts a tick: every body's current state becomes its previous one, before
/// any system changes the current one.
pub fn commit_bodies(components: &mut Components)
    requires
        old(components).wf(),
    ensures
        final(components).wf(),
        final(components).motions == old(components).motions,
        final(components).bodies@.dom() == old(components).bodies@.dom(),
        forall|j: u32| #[trigger]
            final(components).bodies@.contains_key(j) ==> final(components).bodies@[j] == (
            old(components).bodies@[j].0,
            Morph { old: old(components).bodies@[j].1.new, new: old(components).bodies@[j].1.new },
        ),
        final(components).bodies@ == committed(old(components).bodies@),
{
    let n = components.bodies.len();
    let mut i: usize = 0;
    while i < n
        invariant
            components.wf(),
            components.motions == old(components).motions,
            n == components.bodies.dense_entities().len(),
            i <= n,
            components.bodies.dense_entities() == old(components).bodies.dense_entities(),
            components.bodies@.dom() == old(components).bodies@.dom(),
            forall|k: int|
                0 <= k < n ==> {
                    let e = #[trigger] components.bodies.dense_entities()[k];
                    let before = old(components).bodies@[e.index];
                    components.bodies@[e.index] == if k < i {
                        (before.0, Morph { old: before.1.new, new: before.1.new })
                    } else {
                        before
                    }
                },
        decreases n - i,
    {
        let mut body = *components.bodies.value_at(i);
        body.commit();
        components.bodies.set_at(i, body);
        i = i + 1;
    }
    proof {
        assert forall|j: u32| #[trigger] components.bodies@.contains_key(j) implies components.bodies@[j] == (
            old(components).bodies@[j].0,
            Morph { old: old(components).bodies@[j].1.new, new: old(components).bodies@[j].1.new },
        ) by {
            let k = components.bodies.sparse()[j as int] as int;
            assert(components.bodies.dense_entities()[k].index == j);
        }
        assert(components.bodies@ =~= committed(old(components).bodies@));
    }
}

/// A body after the motion system: moved by one step of the motion stored for the
/// same entity (same index and generation), or as it was when there is none.
pub open spec fn moved_body(
    bodies: Map<u32, (u32, Morph<Body>)>,
    motions: Map<u32, (u32, Motion)>,
    j: u32,
) -> (u32, Morph<Body>) {
    let (g, b) = bodies[j];
    if motions.contains_key(j) && motions[j].0 == g {
        (g, Morph { old: b.old, new: motion_step(motions[j].1, b.new).1 })
    } else {
        (g, b)
    }
}

/// The body table after the motion system.
pub open spec fn moved_bodies(
    bodies: Map<u32, (u32, Morph<Body>)>,
    motions: Map<u32, (u32, Motion)>,
) -> Map<u32, (u32, Morph<Body>)> {
    Map::new(|j: u32| bodies.contains_key(j), |j: u32| moved_body(bodies, motions, j))
}

/// The motion table after the motion system.
pub open spec fn moved_motions(
    bodies: Map<u32, (u32, Morph<Body>)>,
    motions: Map<u32, (u32, Motion)>,
) -> Map<u32, (u32, Motion)> {
    Map::new(|j: u32| motions.contains_key(j), |j: u32| moved_motion(bodies, motions, j))
}

/// A motion after the motion system: stepped against the body of the same
/// entity, or as it was when the entity has no body.
pub open spec fn moved_motion(
    bodies: Map<u32, (u32, Morph<Body>)>,
    motions: Map<u32, (u32, Motion)>,
    j: u32,
) -> (u32, Motion) {
    let (g, m) = motions[j];
    if bodies.contains_key(j) && bodies[j].0 == g {
        (g, motion_step(m, bodies[j].1.new).0)
    } else {
        (g, m)
    }
}

/// Runs one tick of motion for every entity that has both a motion and a body.
pub fn motion(components: &mut Components)
    requires
        old(components).wf(),
    ensures
        final(components).wf(),
        final(components).bodies@.dom() == old(components).bodies@.dom(),
        final(components).motions@.dom() == old(components).motions@.dom(),
        forall|j: u32| #[trigger]
            final(components).bodies@.contains_key(j) ==> final(components).bodies@[j] == moved_body(
                old(components).bodies@,
                old(components).motions@,
                j,
            ),
        forall|j: u32| #[trigger]
            final(components).motions@.contains_key(j) ==> final(components).motions@[j]
                == moved_motion(old(components).bodies@, old(components).motions@, j),
        final(components).bodies@ == moved_bodies(old(components).bodies@, old(components).motions@),
        final(components).motions@ == moved_motions(old(components).bodies@, old(components).motions@),
{
    let ghost b0 = old(components).bodies@;
    let ghost m0 = old(components).motions@;
    let n = components.motions.len();
    let mut i: usize = 0;
    while i < n
        invariant
            components.wf(),
            n == components.motions.dense_entities().len(),
            i <= n,
            components.motions.dense_entities() == old(components).motions.dense_entities(),
            components.motions@.dom() == m0.dom(),
            components.bodies@.dom() == b0.dom(),
            forall|k: int|
                0 <= k < n ==> {
                    let e = #[trigger] components.motions.dense_entities()[k];
                    &&& components.motions@[e.index] == if k < i {
                        moved_motion(b0, m0, e.index)
                    } else {
                        m0[e.index]
                    }
                    &&& b0.contains_key(e.index) ==> components.bodies@[e.index] == if k < i {
                        moved_body(b0, m0, e.index)
                    } else {
                        b0[e.index]
                    }
                },
            forall|j: u32|
                #[trigger] b0.contains_key(j) && !m0.contains_key(j) ==> components.bodies@[j]
                    == b0[j],
        decreases n - i,
    {
        let entity = components.motions.entity_at(i);
        let m = *components.motions.value_at(i);
        proof {
            let e = components.motions.dense_entities()[i as int];
            assert(components.motions@[e.index] == m0[e.index]);
            assert(m0.contains_key(e.index));
        }
        match components.bodies.get_mut(&entity) {
            Some(body) => {
                let (m2, b2) = step_motion(m, body.new);
                body.new = b2;
                components.motions.set_at(i, m2);
            },
            None => {},
        }
        proof {
            assert forall|k: int| 0 <= k < n implies {
                let e = #[trigger] components.motions.dense_entities()[k];
                &&& components.motions@[e.index] == if k < i + 1 {
                    moved_motion(b0, m0, e.index)
                } else {
                    m0[e.index]
                }
                &&& b0.contains_key(e.index) ==> components.bodies@[e.index] == if k < i + 1 {
                    moved_body(b0, m0, e.index)
                } else {
                    b0[e.index]
                }
            } by {
                let e = components.motions.dense_entities()[k];
                if k != i as int {
                    assert(components.motions.sparse()[e.index as int] == k);
                    assert(components.motions.sparse()[entity.index as int] == i);
                    assert(e.index != entity.index);
                }
            }
        }
        i = i + 1;
    }
    proof {
        assert forall|j: u32| #[trigger] components.bodies@.contains_key(j) implies components.bodies@[j]
            == moved_body(b0, m0, j) by {
            if m0.contains_key(j) {
                let k = components.motions.sparse()[j as int] as int;
                assert(components.motions.dense_entities()[k].index == j);
            }
        }
        assert forall|j: u32| #[trigger] components.motions@.contains_key(j) implies components.motions@[j]
            == moved_motion(b0, m0, j) by {
            let k = components.motions.sparse()[j as int] as int;
            assert(components.motions.dense_entities()[k].index == j);
        }
        assert(components.bodies@ =~= moved_bodies(b0, m0));
        assert(components.motions@ =~= moved_motions(b0, m0));
    }
}

} // verus!

use vstd::prelude::*;

use crate::commands::{command_effect, Command};
use crate::components::{same_kind, Body, Components, Motion};
use crate::entity::{Entity, EntityFactory};
use crate::forge::Forge;
use crate::morph::Morph;
use crate::systems::{commit_bodies, committed, motion, moved_bodies, moved_motions};

verus! {

/// The entities among `outs`, in order.
pub open spec fn spawned_entities(outs: Seq<Option<Entity>>) -> Seq<Entity>
    decreases outs.len(),
{
    if outs.len() == 0 {
        seq![]
    } else {
        let rest = spawned_entities(outs.drop_last());
        match outs.last() {
            Some(e) => rest.push(e),
            None => rest,
        }
    }
}

/// Every body's two states have shapes of the same kind, so every body can be
/// interpolated (and has a swept hitbox).
pub open spec fn shapes_consistent(bodies: Map<u32, (u32, Morph<Body>)>) -> bool {
    forall|j: u32| #[trigger]
        bodies.contains_key(j) ==> same_kind(bodies[j].1.old.shape, bodies[j].1.new.shape)
}

/// The states a tick passes through while it applies `commands`: `bs[i]`, `ms[i]`
/// and `fs[i]` are the tables and the registry before command `i`, `outs[i]` is
/// what that command handed out. The first state is the committed one.
pub open spec fn command_trace(
    commands: Seq<Command>,
    bodies: Map<u32, (u32, Morph<Body>)>,
    motions: Map<u32, (u32, Motion)>,
    factory: EntityFactory,
    bs: Seq<Map<u32, (u32, Morph<Body>)>>,
    ms: Seq<Map<u32, (u32, Motion)>>,
    fs: Seq<EntityFactory>,
    outs: Seq<Option<Entity>>,
) -> bool {
    &&& bs.len() == commands.len() + 1
    &&& ms.len() == commands.len() + 1
    &&& fs.len() == commands.len() + 1
    &&& outs.len() == commands.len()
    &&& bs[0] == committed(bodies)
    &&& ms[0] == motions
    &&& fs[0] == factory
    &&& forall|i: int|
        0 <= i < commands.len() ==> command_effect(
            commands[i],
            bs[i],
            ms[i],
            fs[i],
            bs[i + 1],
            ms[i + 1],
            fs[i + 1],
            #[trigger] outs[i],
        )
}

/// One tick takes the tables and registry from the first three arguments to the
/// next three and spawns `spawned`: every body is committed, the commands are
/// applied in order, then every entity moves; `spawned` lists the entities the
/// successful spawns created, in order.
pub open spec fn tick_effect(
    commands: Seq<Command>,
    b0: Map<u32, (u32, Morph<Body>)>,
    m0: Map<u32, (u32, Motion)>,
    f0: EntityFactory,
    b1: Map<u32, (u32, Morph<Body>)>,
    m1: Map<u32, (u32, Motion)>,
    f1: EntityFactory,
    spawned: Seq<Entity>,
) -> bool {
    exists|bs: Seq<Map<u32, (u32, Morph<Body>)>>, ms: Seq<Map<u32, (u32, Motion)>>, fs: Seq<EntityFactory>, outs: Seq<Option<Entity>>|
        #[trigger] command_trace(commands, b0, m0, f0, bs, ms, fs, outs) && {
            &&& f1 == fs.last()
            &&& b1 == moved_bodies(bs.last(), ms.last())
            &&& m1 == moved_motions(bs.last(), ms.last())
            &&& spawned == spawned_entities(outs)
        }
}

proof fn lemma_same_kind_reflexive(b: Body)
    ensures
        same_kind(b.shape, b.shape),
{
}

/// Runs the systems of one simulation tick in their fixed order.
pub struct Executor {}

impl Executor {
    pub fn new() -> (r: Executor) {
        Executor {  }
    }

    /// One tick: every body's state is committed first, then the commands are
    /// applied in order, then every entity moves. Returns the entities the commands
    /// spawned, in order; each of them is alive.
    pub fn execute(&mut self, components: &mut Components, forge: &mut Forge, commands: &[Command]) -> (spawned: Vec<Entity>)
        requires
            old(components).wf(),
            old(forge).wf(),
        ensures
            final(components).wf(),
            final(forge).wf(),
            tick_effect(
                commands@,
                old(components).bodies@,
                old(components).motions@,
                old(forge).factory(),
                final(components).bodies@,
                final(components).motions@,
                final(forge).factory(),
                spawned@,
            ),
            shapes_consistent(final(components).bodies@),
            spawned@.len() <= commands@.len(),
            forall|i: int| 0 <= i < spawned@.len() ==> final(forge).factory().is_alive(
                #[trigger] spawned@[i],
            ),
            forall|x: Entity| #[trigger]
                old(forge).factory().is_alive(x) ==> final(forge).factory().is_alive(x),
    {
        let ghost b_start = components.bodies@;
        let ghost m_start = components.motions@;
        let ghost f_start = forge.factory();
        commit_bodies(components);
        proof {
            assert forall|j: u32| #[trigger] components.bodies@.contains_key(j) implies same_kind(
                components.bodies@[j].1.old.shape,
                components.bodies@[j].1.new.shape,
            ) by {
                lemma_same_kind_reflexive(components.bodies@[j].1.new);
            }
        }
        let ghost mut bs = seq![components.bodies@];
        let ghost mut ms = seq![components.motions@];
        let ghost mut fs = seq![forge.factory()];
        let ghost mut outs: Seq<Option<Entity>> = seq![];
        let mut spawned: Vec<Entity> = Vec::new();
        let mut i: usize = 0;
        while i < commands.len()
            invariant
                components.wf(),
                forge.wf(),
                i <= commands@.len(),
                bs.len() == i + 1,
                ms.len() == i + 1,
                fs.len() == i + 1,
                outs.len() == i,
                bs[0] == committed(b_start),
                ms[0] == m_start,
                fs[0] == f_start,
                bs.last() == components.bodies@,
                ms.last() == components.motions@,
                fs.last() == forge.factory(),
                forall|k: int|
                    0 <= k < i ==> command_effect(
                        commands@[k],
                        bs[k],
                        ms[k],
                        fs[k],
                        bs[k + 1],
                        ms[k + 1],
                        fs[k + 1],
                        #[trigger] outs[k],
                    ),
                spawned@ == spawned_entities(outs),
                shapes_consistent(components.bodies@),
                spawned@.len() <= i,
                forall|k: int| 0 <= k < spawned@.len() ==> forge.factory().is_alive(
                    #[trigger] spawned@[k],
                ),
                forall|x: Entity| #[trigger]
                    f_start.is_alive(x) ==> forge.factory().is_alive(x),
            decreases commands@.len() - i,
        {
            let ghost b_before = components.bodies@;
            let out = commands[i].execute(components, forge);
            if let Some(e) = out {
                spawned.push(e);
            }
            proof {
                let old_outs = outs;
                bs = bs.push(components.bodies@);
                ms = ms.push(components.motions@);
                fs = fs.push(forge.factory());
                outs = outs.push(out);
                assert(outs.drop_last() =~= old_outs);
                assert forall|j: u32| #[trigger] components.bodies@.contains_key(j) implies same_kind(
                    components.bodies@[j].1.old.shape,
                    components.bodies@[j].1.new.shape,
                ) by {
                    if !b_before.contains_key(j) || components.bodies@[j] != b_before[j] {
                        lemma_same_kind_reflexive(components.bodies@[j].1.new);
                    }
                }
            }
            i = i + 1;
        }
        let ghost b_last = components.bodies@;
        let ghost m_last = components.motions@;
        motion(components);
        proof {
            assert(command_trace(commands@, b_start, m_start, f_start, bs, ms, fs, outs));
            assert forall|j: u32| #[trigger] components.bodies@.contains_key(j) implies same_kind(
                components.bodies@[j].1.old.shape,
                components.bodies@[j].1.new.shape,
            ) by {
                assert(b_last.contains_key(j));
            }
        }
        spawned
    }
}

/// The simulated world: the component tables and the forge that populates them.
pub struct Cosmos {
    pub components: Components,
    pub forge: Forge,
}

impl Cosmos {
    /// The tables and the forge are well formed, and every body can be interpolated.
    pub open spec fn wf(&self) -> bool {
        &&& self.components.wf()
        &&& self.forge.wf()
        &&& shapes_consistent(self.components.bodies@)
    }

    pub fn new() -> (r: Cosmos)
        ensures
            r.wf(),
            r.components.bodies@ == Map::<u32, (u32, Morph<Body>)>::empty(),
            r.components.motions@ == Map::<u32, (u32, Motion)>::empty(),
    {
        Cosmos { components: Components::new(), forge: Forge::new() }
    }

    /// Runs one simulation tick through the executor: every body is committed, the
    /// commands are applied in order, then every entity moves. Returns the entities
    /// the commands spawned, in order; each of them is alive.
    pub fn update(&mut self, commands: &[Command]) -> (spawned: Vec<Entity>)
        requires
            old(self).wf(),
        ensures
            final(self).wf(),
            tick_effect(
                commands@,
                old(self).components.bodies@,
                old(self).components.motions@,
                old(self).forge.factory(),
                final(self).components.bodies@,
                final(self).components.motions@,
                final(self).forge.factory(),
                spawned@,
            ),
            spawned@.len() <= commands@.len(),
            forall|i: int| 0 <= i < spawned@.len() ==> final(self).forge.factory().is_alive(
                #[trigger] spawned@[i],
            ),
            forall|x: Entity| #[trigger]
                old(self).forge.factory().is_alive(x) ==> final(self).forge.factory().is_alive(x),
    {
        let mut executor = Executor::new();
        executor.execute(&mut self.components, &mut self.forge, commands)
    }

    /// Destroys `entity` and purges its components; a stale handle changes nothing.
    pub fn destroy(&mut self, entity: Entity)
        requires
            old(self).wf(),
        ensures
            final(self).wf(),
            !final(self).forge.factory().is_alive(entity),
            crate::sparse_set::lookup(final(self).components.bodies@, entity) is None,
            crate::sparse_set::lookup(final(self).components.motions@, entity) is None,
    {
        self.forge.destroy(entity, &mut self.components);
    }
}

} // verus!

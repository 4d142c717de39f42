use vstd::prelude::*;

verus! {

/// A handle to an entity: a slot index and the generation of that slot it was
/// issued for. It is only ever looked up, never dereferenced.
#[derive(Copy, Clone, Debug, PartialEq, Eq, Structural, Hash)]
pub struct Entity {
    pub index: u32,
    pub generation: u32,
}

/// The generation a slot moves to when its entity is destroyed.
pub open spec fn next_generation(g: u32) -> u32 {
    if g == u32::MAX {
        0
    } else {
        (g + 1) as u32
    }
}

/// Allocates generational entity handles, reusing destroyed slots last-in first-out.
pub struct EntityFactory {
    generations: Vec<u32>,
    alive: Vec<bool>,
    free: Vec<u32>,
}

impl EntityFactory {
    /// The current generation of every slot ever handed out.
    pub closed spec fn generations(&self) -> Seq<u32> {
        self.generations@
    }

    /// Whether each slot holds a live entity.
    pub closed spec fn alive(&self) -> Seq<bool> {
        self.alive@
    }

    /// The destroyed slots waiting for reuse; the last one is reused first.
    pub closed spec fn free(&self) -> Seq<u32> {
        self.free@
    }

    pub closed spec fn wf(&self) -> bool {
        &&& self.generations@.len() == self.alive@.len()
        &&& self.generations@.len() <= u32::MAX + 1
        &&& self.free@.no_duplicates()
        &&& forall|i: int|
            0 <= i < self.free@.len() ==> {
                let s = #[trigger] self.free@[i];
                &&& s < self.generations@.len()
                &&& !self.alive@[s as int]
            }
        &&& forall|s: int|
            0 <= s < self.alive@.len() && !#[trigger] self.alive@[s] ==> self.free@.contains(
                s as u32,
            )
    }

    /// `e` names the entity that currently lives in its slot.
    pub open spec fn is_alive(&self, e: Entity) -> bool {
        &&& e.index < self.generations().len()
        &&& self.alive()[e.index as int]
        &&& self.generations()[e.index as int] == e.generation
    }

    /// A new entity can be handed out: a slot is free, or a fresh index fits in `u32`.
    pub open spec fn can_create(&self) -> bool {
        self.free().len() > 0 || self.generations().len() <= u32::MAX
    }

    /// The index the next `create` hands out.
    pub open spec fn next_index_spec(&self) -> int {
        if self.free().len() > 0 {
            self.free().last() as int
        } else {
            self.generations().len() as int
        }
    }

    /// The entity the next `create` hands out: the most recently freed slot with
    /// its current generation, or else a fresh slot with generation zero.
    pub open spec fn next_entity(&self) -> Entity {
        if self.free().len() > 0 {
            Entity { index: self.free().last(), generation: self.generations()[self.free().last() as int] }
        } else {
            Entity { index: self.generations().len() as u32, generation: 0 }
        }
    }

    /// The index the next `create` hands out.
    pub fn next_index(&self) -> (r: u64)
        requires
            self.wf(),
        ensures
            r == self.next_index_spec(),
    {
        if self.free.len() > 0 {
            self.free[self.free.len() - 1] as u64
        } else {
            self.generations.len() as u64
        }
    }

    /// Whether `create` can hand out another entity.
    pub fn can_create_exec(&self) -> (r: bool)
        requires
            self.wf(),
        ensures
            r == self.can_create(),
    {
        self.free.len() > 0 || self.generations.len() <= u32::MAX as usize
    }

    pub fn new() -> (r: EntityFactory)
        ensures
            r.wf(),
            r.generations().len() == 0,
            r.free().len() == 0,
    {
        EntityFactory { generations: Vec::new(), alive: Vec::new(), free: Vec::new() }
    }

    /// Hands out an entity: the most recently freed slot with its current
    /// generation, or else a new slot with generation zero.
    pub fn create(&mut self) -> (e: Entity)
        requires
            old(self).wf(),
            old(self).can_create(),
        ensures
            final(self).wf(),
            final(self).is_alive(e),
            e == old(self).next_entity(),
            old(self).free().len() > 0 ==> {
                &&& e.index == old(self).free().last()
                &&& e.generation == old(self).generations()[e.index as int]
                &&& final(self).free() == old(self).free().drop_last()
                &&& final(self).generations() == old(self).generations()
                &&& final(self).alive() == old(self).alive().update(e.index as int, true)
            },
            old(self).free().len() == 0 ==> {
                &&& e.index == old(self).generations().len()
                &&& e.generation == 0
                &&& final(self).free() == old(self).free()
                &&& final(self).generations() == old(self).generations().push(0)
                &&& final(self).alive() == old(self).alive().push(true)
            },
            forall|x: Entity| #[trigger]
                old(self).is_alive(x) ==> final(self).is_alive(x),
    {
        if let Some(index) = self.free.pop() {
            proof {
                assert(self.free@ == old(self).free@.drop_last());
                assert(old(self).free@[old(self).free@.len() - 1] == index);
            }
            let generation = self.generations[index as usize];
            self.alive.set(index as usize, true);
            proof {
                assert forall|i: int| 0 <= i < self.free@.len() implies {
                    let s = #[trigger] self.free@[i];
                    &&& s < self.generations@.len()
                    &&& !self.alive@[s as int]
                } by {
                    assert(self.free@[i] == old(self).free@[i]);
                    assert(old(self).free@[i] != index);
                }
                assert forall|s: int|
                    0 <= s < self.alive@.len() && !#[trigger] self.alive@[s] implies self.free@.contains(
                    s as u32,
                ) by {
                    assert(old(self).free@.contains(s as u32));
                    let k = choose|k: int| 0 <= k < old(self).free@.len() && old(self).free@[k] == s as u32;
                    assert(k != old(self).free@.len() - 1);
                    assert(self.free@[k] == s as u32);
                }
            }
            Entity { index, generation }
        } else {
            let index = self.generations.len() as u32;
            self.generations.push(0);
            self.alive.push(true);
            proof {
                assert forall|s: int|
                    0 <= s < self.alive@.len() && !#[trigger] self.alive@[s] implies self.free@.contains(
                    s as u32,
                ) by {
                    assert(s < old(self).alive@.len());
                    assert(old(self).alive@[s] == self.alive@[s]);
                }
            }
            Entity { index, generation: 0 }
        }
    }

    /// Destroys a live entity: its slot moves to the next generation, so every
    /// handle issued for it goes stale, and the slot is queued for reuse. A handle
    /// that is stale or unknown is ignored.
    pub fn destroy(&mut self, entity: Entity)
        requires
            old(self).wf(),
        ensures
            final(self).wf(),
            old(self).is_alive(entity) ==> {
                &&& final(self).generations() == old(self).generations().update(
                    entity.index as int,
                    next_generation(entity.generation),
                )
                &&& final(self).alive() == old(self).alive().update(entity.index as int, false)
                &&& final(self).free() == old(self).free().push(entity.index)
            },
            !old(self).is_alive(entity) ==> *final(self) == *old(self),
    {
        let i = entity.index as usize;
        if i < self.generations.len() && self.alive[i] && self.generations[i] == entity.generation {
            let next = entity.generation.wrapping_add(1);
            self.generations.set(i, next);
            self.alive.set(i, false);
            self.free.push(entity.index);
            proof {
                assert(!old(self).free@.contains(entity.index)) by {
                    if old(self).free@.contains(entity.index) {
                        let k = choose|k: int|
                            0 <= k < old(self).free@.len() && old(self).free@[k] == entity.index;
                        assert(!old(self).alive@[old(self).free@[k] as int]);
                    }
                }
                assert forall|a: int, b: int|
                    0 <= a < self.free@.len() && 0 <= b < self.free@.len() && a != b
                    implies self.free@[a] != self.free@[b] by {
                    if a < old(self).free@.len() && b < old(self).free@.len() {
                        assert(old(self).free@[a] != old(self).free@[b]);
                    } else if a < old(self).free@.len() {
                        assert(old(self).free@.contains(self.free@[a]));
                    } else if b < old(self).free@.len() {
                        assert(old(self).free@.contains(self.free@[b]));
                    }
                }
                assert forall|k: int| 0 <= k < self.free@.len() implies {
                    let s = #[trigger] self.free@[k];
                    &&& s < self.generations@.len()
                    &&& !self.alive@[s as int]
                } by {
                    if k < old(self).free@.len() {
                        assert(self.free@[k] == old(self).free@[k]);
                    }
                }
                assert forall|s: int|
                    0 <= s < self.alive@.len() && !#[trigger] self.alive@[s] implies self.free@.contains(
                    s as u32,
                ) by {
                    if s == i as int {
                        assert(self.free@[self.free@.len() - 1] == entity.index);
                    } else {
                        assert(old(self).free@.contains(s as u32));
                        let k = choose|k: int|
                            0 <= k < old(self).free@.len() && old(self).free@[k] == s as u32;
                        assert(self.free@[k] == s as u32);
                    }
                }
            }
        }
    }
}

/// A destroyed handle goes stale for good. Destroying `e` leaves its slot at the
/// next generation (`destroyed`); `create` hands out a reused slot with the slot's
/// generation at that time, so the handle of the entity that reuses the slot
/// differs from `e`, and `e` is no longer alive.
pub proof fn lemma_reuse_after_destroy_is_new(
    before: EntityFactory,
    e: Entity,
    destroyed: EntityFactory,
    reused: Entity,
)
    requires
        before.wf(),
        before.is_alive(e),
        destroyed.generations() == before.generations().update(
            e.index as int,
            next_generation(e.generation),
        ),
        reused.index == e.index,
        reused.generation == destroyed.generations()[reused.index as int],
    ensures
        reused != e,
        !destroyed.is_alive(e),
{
}

} // verus!

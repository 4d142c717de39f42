use vstd::prelude::*;

use crate::entity::{next_generation, Entity};

verus! {

/// The sparse entry of an entity index that has no component.
pub const TOMBSTONE: usize = usize::MAX;

/// What a component table holds for a handle: the value stored under its index,
/// provided the stored generation matches the handle's.
pub open spec fn lookup<T>(m: Map<u32, (u32, T)>, e: Entity) -> Option<T> {
    if m.contains_key(e.index) && m[e.index].0 == e.generation {
        Some(m[e.index].1)
    } else {
        None
    }
}

/// A component table keyed by entity, with O(1) insert, remove and lookup.
///
/// `sparse` maps an entity index to a slot of the two parallel dense arrays, or
/// to `TOMBSTONE`; `dense` and `entities` hold the components and their owners
/// compactly, in insertion order up to swap-removals. The capacity bounds the
/// entity indices the table can hold.
pub struct SparseSet<T> {
    sparse: Vec<usize>,
    dense: Vec<T>,
    entities: Vec<Entity>,
}

impl<T> SparseSet<T> {
    /// The largest entity index plus one that the table accepts.
    pub closed spec fn capacity(&self) -> nat {
        self.sparse@.len()
    }

    /// The dense slot of each entity index, or `TOMBSTONE`.
    pub closed spec fn sparse(&self) -> Seq<usize> {
        self.sparse@
    }

    /// The owners of the dense slots, in dense order.
    pub closed spec fn dense_entities(&self) -> Seq<Entity> {
        self.entities@
    }

    /// The components, in dense order.
    pub closed spec fn dense_values(&self) -> Seq<T> {
        self.dense@
    }

    /// The dense slot that the sparse entry of `index` points at.
    pub open spec fn slot_of(&self, index: u32) -> int {
        self.sparse()[index as int] as int
    }

    /// Every occupied dense slot is pointed at by the sparse entry of its owner,
    /// and every sparse entry is `TOMBSTONE` or points at a slot that it owns.
    pub open spec fn wf(&self) -> bool {
        &&& self.dense_values().len() == self.dense_entities().len()
        &&& self.dense_entities().len() <= self.capacity() <= usize::MAX
        &&& forall|i: int|
            0 <= i < self.dense_entities().len() ==> {
                let idx = #[trigger] self.dense_entities()[i].index;
                &&& idx < self.capacity()
                &&& self.sparse()[idx as int] == i
            }
        &&& forall|j: int|
            0 <= j < self.capacity() ==> {
                let slot = #[trigger] self.sparse()[j];
                slot == TOMBSTONE || (slot < self.dense_entities().len()
                    && self.dense_entities()[slot as int].index == j)
            }
    }

    /// The table as a map from entity index to the owner's generation and the component.
    pub open spec fn view(&self) -> Map<u32, (u32, T)> {
        Map::new(
            |j: u32| j < self.capacity() && self.sparse()[j as int] != TOMBSTONE,
            |j: u32|
                {
                    let slot = self.sparse()[j as int] as int;
                    (self.dense_entities()[slot].generation, self.dense_values()[slot])
                },
        )
    }

    /// An empty table for entity indices below `capacity`.
    pub fn new(capacity: usize) -> (r: SparseSet<T>)
        ensures
            r.wf(),
            r.capacity() == capacity,
            r@ == Map::<u32, (u32, T)>::empty(),
    {
        let mut sparse: Vec<usize> = Vec::new();
        let mut k: usize = 0;
        while k < capacity
            invariant
                k <= capacity,
                sparse@.len() == k,
                forall|j: int| 0 <= j < k ==> sparse@[j] == TOMBSTONE,
            decreases capacity - k,
        {
            sparse.push(TOMBSTONE);
            k = k + 1;
        }
        let r = SparseSet { sparse, dense: Vec::new(), entities: Vec::new() };
        assert(r@ =~= Map::<u32, (u32, T)>::empty());
        r
    }

    /// Number of stored components.
    pub fn len(&self) -> (r: usize)
        requires
            self.wf(),
        ensures
            r == self.dense_entities().len(),
    {
        self.entities.len()
    }

    pub fn is_empty(&self) -> (r: bool)
        requires
            self.wf(),
        ensures
            r == (self.dense_entities().len() == 0),
    {
        self.entities.len() == 0
    }

    /// The stored entities and their components as two parallel slices, in dense
    /// order. The order is not kept across removals.
    pub fn iter(&self) -> (r: (&[Entity], &[T]))
        requires
            self.wf(),
        ensures
            r.0@ == self.dense_entities(),
            r.1@ == self.dense_values(),
    {
        (self.entities.as_slice(), self.dense.as_slice())
    }

    /// The owner of dense slot `i`.
    pub fn entity_at(&self, i: usize) -> (e: Entity)
        requires
            self.wf(),
            i < self.dense_entities().len(),
        ensures
            e == self.dense_entities()[i as int],
            lookup(self@, e) == Some(self.dense_values()[i as int]),
    {
        proof {
            let e = self.dense_entities()[i as int];
            assert(self.sparse()[e.index as int] == i);
            assert(self@.contains_key(e.index));
        }
        self.entities[i]
    }

    /// The component in dense slot `i`.
    pub fn value_at(&self, i: usize) -> (v: &T)
        requires
            self.wf(),
            i < self.dense_entities().len(),
        ensures
            *v == self.dense_values()[i as int],
    {
        &self.dense[i]
    }

    /// Replaces the component in dense slot `i`, keeping its owner and the order.
    pub fn set_at(&mut self, i: usize, component: T)
        requires
            old(self).wf(),
            i < old(self).dense_entities().len(),
        ensures
            final(self).wf(),
            final(self).capacity() == old(self).capacity(),
            final(self).dense_entities() == old(self).dense_entities(),
            final(self).dense_values() == old(self).dense_values().update(i as int, component),
            final(self)@ == old(self)@.insert(
                old(self).dense_entities()[i as int].index,
                (old(self).dense_entities()[i as int].generation, component),
            ),
    {
        self.dense.set(i, component);
        proof {
            let e = old(self).dense_entities()[i as int];
            assert(old(self).sparse()[e.index as int] == i);
            assert(self@ =~= old(self)@.insert(e.index, (e.generation, component))) by {
                assert(self@.contains_key(e.index));
                assert forall|j: u32| #[trigger] old(self)@.contains_key(j) implies self@.contains_key(j) by {
                }
                assert forall|j: u32| #[trigger] self@.contains_key(j) && j != e.index implies self@[j]
                    == old(self)@[j] by {
                    let os = old(self).sparse()[j as int];
                    assert(old(self).dense_entities()[os as int].index == j);
                }
            }
        }
    }

    /// Stores `component` for `entity`. An entity index that already has a
    /// component has it replaced in place (owner and value), with no second dense
    /// entry. Returns false, changing nothing, when the index is beyond the capacity.
    pub fn insert(&mut self, entity: Entity, component: T) -> (stored: bool)
        requires
            old(self).wf(),
        ensures
            final(self).wf(),
            final(self).capacity() == old(self).capacity(),
            stored == (entity.index < old(self).capacity()),
            stored ==> final(self)@ == old(self)@.insert(
                entity.index,
                (entity.generation, component),
            ),
            !stored ==> *final(self) == *old(self),
            stored && old(self)@.contains_key(entity.index) ==> {
                let slot = old(self).slot_of(entity.index);
                &&& final(self).dense_entities() == old(self).dense_entities().update(slot, entity)
                &&& final(self).dense_values() == old(self).dense_values().update(slot, component)
            },
            stored && !old(self)@.contains_key(entity.index) ==> {
                &&& final(self).dense_entities() == old(self).dense_entities().push(entity)
                &&& final(self).dense_values() == old(self).dense_values().push(component)
            },
    {
        let index = entity.index as usize;
        if index >= self.sparse.len() {
            return false;
        }
        let slot = self.sparse[index];
        proof {
            assert(old(self).sparse()[index as int] == slot);
        }
        if slot != TOMBSTONE {
            self.dense.set(slot, component);
            self.entities.set(slot, entity);
            proof {
                assert forall|i: int| 0 <= i < self.entities@.len() implies {
                    let idx = #[trigger] self.entities@[i].index;
                    &&& idx < self.sparse@.len()
                    &&& self.sparse@[idx as int] == i
                } by {
                    if i != slot as int {
                        assert(self.entities@[i] == old(self).entities@[i]);
                        assert(old(self).dense_entities()[i].index == self.entities@[i].index);
                    }
                }
                assert forall|j: int| 0 <= j < self.sparse@.len() implies {
                    let s = #[trigger] self.sparse@[j];
                    s == TOMBSTONE || (s < self.entities@.len() && self.entities@[s as int].index
                        == j)
                } by {
                    assert(old(self).sparse()[j] == self.sparse@[j]);
                }
                assert(self@ =~= old(self)@.insert(entity.index, (entity.generation, component)))
                    by {
                    assert forall|j: u32| #[trigger] self@.contains_key(j) && j != entity.index implies self@[j]
                        == old(self)@[j] by {
                        let os = old(self).sparse()[j as int];
                        assert(os != slot);
                    }
                }
            }
        } else {
            proof {
                lemma_room_for_one_more(old(self), index as int);
            }
            let slot = self.dense.len();
            self.sparse.set(index, slot);
            self.dense.push(component);
            self.entities.push(entity);
            proof {
                assert forall|i: int| 0 <= i < self.entities@.len() implies {
                    let idx = #[trigger] self.entities@[i].index;
                    &&& idx < self.sparse@.len()
                    &&& self.sparse@[idx as int] == i
                } by {
                    if i < slot as int {
                        assert(self.entities@[i] == old(self).entities@[i]);
                        let oi = old(self).dense_entities()[i].index;
                        assert(old(self).sparse@[oi as int] == i);
                        assert(oi != entity.index);
                    }
                }
                assert forall|j: int| 0 <= j < self.sparse@.len() implies {
                    let s = #[trigger] self.sparse@[j];
                    s == TOMBSTONE || (s < self.entities@.len() && self.entities@[s as int].index
                        == j)
                } by {
                    if j != index as int {
                        assert(self.sparse@[j] == old(self).sparse@[j]);
                        assert(old(self).sparse()[j] == self.sparse@[j]);
                    }
                }
                assert(self@ =~= old(self)@.insert(entity.index, (entity.generation, component)))
                    by {
                    assert forall|j: u32| #[trigger] self@.contains_key(j) && j != entity.index implies self@[j]
                        == old(self)@[j] && old(self)@.contains_key(j) by {
                        let os = old(self).sparse()[j as int];
                        assert(os < slot);
                    }
                    assert(self@.contains_key(entity.index));
                    assert(self@[entity.index] == (entity.generation, component));
                    assert forall|j: u32| #[trigger] old(self)@.contains_key(j) implies self@.contains_key(j) by {
                        assert(old(self).sparse()[j as int] == self.sparse@[j as int] || j == entity.index);
                    }
                }
            }
        }
        true
    }

    /// The component of `entity`, or `None` when its index holds nothing or holds
    /// a component of another generation (a stale or foreign handle).
    pub fn get(&self, entity: &Entity) -> (r: Option<&T>)
        requires
            self.wf(),
        ensures
            r matches Some(v) ==> lookup(self@, *entity) == Some(*v),
            r is None ==> lookup(self@, *entity) is None,
    {
        let index = entity.index as usize;
        if index >= self.sparse.len() {
            return None;
        }
        let slot = self.sparse[index];
        if slot == TOMBSTONE {
            return None;
        }
        if self.entities[slot].generation != entity.generation {
            return None;
        }
        Some(&self.dense[slot])
    }

    /// Mutable access to the component of `entity`, under the same checks as `get`.
    pub fn get_mut(&mut self, entity: &Entity) -> (r: Option<&mut T>)
        requires
            old(self).wf(),
        ensures
            r is None ==> lookup(old(self)@, *entity) is None && *final(self) == *old(self),
            r matches Some(v) ==> {
                &&& lookup(old(self)@, *entity) == Some(*v)
                &&& final(self).wf()
                &&& final(self).capacity() == old(self).capacity()
                &&& final(self)@ == old(self)@.insert(
                    entity.index,
                    (entity.generation, *final(v)),
                )
                &&& final(self).dense_entities() == old(self).dense_entities()
                &&& final(self).dense_values() == old(self).dense_values().update(
                    old(self).slot_of(entity.index),
                    *final(v),
                )
            },
    {
        let index = entity.index as usize;
        if index >= self.sparse.len() {
            return None;
        }
        let slot = self.sparse[index];
        if slot == TOMBSTONE {
            return None;
        }
        if self.entities[slot].generation != entity.generation {
            return None;
        }
        let r = &mut self.dense[slot];
        Some(r)
    }

    /// Removes and returns the component of `entity`, under the same checks as
    /// `get`. The last dense entry moves into the vacated slot and its owner's
    /// sparse entry is re-pointed there, so the table stays compact.
    pub fn remove(&mut self, entity: &Entity) -> (r: Option<T>)
        requires
            old(self).wf(),
        ensures
            final(self).wf(),
            final(self).capacity() == old(self).capacity(),
            r == lookup(old(self)@, *entity),
            r is Some ==> final(self)@ == old(self)@.remove(entity.index),
            r is None ==> *final(self) == *old(self),
            r is Some ==> {
                let slot = old(self).slot_of(entity.index);
                let entities = old(self).dense_entities();
                let values = old(self).dense_values();
                &&& final(self).dense_entities() == entities.update(slot, entities.last()).drop_last()
                &&& final(self).dense_values() == values.update(slot, values.last()).drop_last()
                &&& final(self).dense_entities().len() == entities.len() - 1
            },
    {
        let index = entity.index as usize;
        if index >= self.sparse.len() {
            return None;
        }
        let slot = self.sparse[index];
        if slot == TOMBSTONE {
            return None;
        }
        if self.entities[slot].generation != entity.generation {
            return None;
        }
        let last = self.entities.len() - 1;
        let moved = self.entities[last];
        let removed = self.dense.swap_remove(slot);
        self.entities.swap_remove(slot);
        self.sparse.set(moved.index as usize, slot);
        self.sparse.set(index, TOMBSTONE);
        proof {
            assert(moved.index < old(self).sparse@.len());
            assert forall|i: int| 0 <= i < self.entities@.len() implies {
                let idx = #[trigger] self.entities@[i].index;
                &&& idx < self.sparse@.len()
                &&& self.sparse@[idx as int] == i
            } by {
                if i == slot as int {
                    assert(self.entities@[i] == moved);
                } else {
                    assert(self.entities@[i] == old(self).entities@[i]);
                    let oi = old(self).entities@[i].index;
                    assert(old(self).sparse@[oi as int] == i);
                    assert(oi != moved.index);
                    assert(oi != entity.index);
                }
            }
            assert forall|j: int| 0 <= j < self.sparse@.len() implies {
                let s = #[trigger] self.sparse@[j];
                s == TOMBSTONE || (s < self.entities@.len() && self.entities@[s as int].index == j)
            } by {
                if j != index as int && j != moved.index as int {
                    let os = old(self).sparse@[j];
                    assert(self.sparse@[j] == os);
                    if os != TOMBSTONE {
                        assert(os != slot);
                        assert(os != last);
                    }
                }
            }
            assert(self@ =~= old(self)@.remove(entity.index)) by {
                assert forall|j: u32| #[trigger] self@.contains_key(j) implies old(self)@.contains_key(j)
                    && j != entity.index && self@[j] == old(self)@[j] by {
                    if j == moved.index && moved.index != entity.index {
                        assert(self.sparse@[j as int] == slot);
                    } else {
                        let os = old(self).sparse@[j as int];
                        assert(os != slot);
                        assert(os != last);
                    }
                }
                assert forall|j: u32|
                    #[trigger] old(self)@.contains_key(j) && j != entity.index implies self@.contains_key(j) by {
                    let os = old(self).sparse@[j as int];
                    assert(old(self).entities@[os as int].index == j);
                }
            }
        }
        Some(removed)
    }
}

/// An index with no component leaves room for one more dense entry: the owners
/// of the dense entries have distinct indices, all below the capacity and none
/// equal to the free one.
proof fn lemma_room_for_one_more<T>(set: &SparseSet<T>, free: int)
    requires
        set.wf(),
        0 <= free < set.capacity(),
        set.sparse()[free] == TOMBSTONE,
    ensures
        set.dense_entities().len() < set.capacity(),
{
    let owners = set.dense_entities().map_values(|e: Entity| e.index as int);
    assert forall|a: int, b: int|
        0 <= a < owners.len() && 0 <= b < owners.len() && a != b implies owners[a] != owners[b] by {
        assert(set.sparse()[set.dense_entities()[a].index as int] == a);
        assert(set.sparse()[set.dense_entities()[b].index as int] == b);
    }
    owners.unique_seq_to_set();
    let room = vstd::set_lib::set_int_range(0, set.capacity() as int).remove(free);
    vstd::set_lib::lemma_int_range(0, set.capacity() as int);
    assert forall|x: int| owners.to_set().contains(x) implies room.contains(x) by {
        let k = choose|k: int| 0 <= k < owners.len() && owners[k] == x;
        assert(set.sparse()[set.dense_entities()[k].index as int] == k);
    }
    vstd::set_lib::lemma_len_subset(owners.to_set(), room);
}

/// A component stored for an entity is what looking that entity up returns, and
/// once it is removed the lookup comes back empty.
pub proof fn lemma_insert_get_remove<T>(set: SparseSet<T>, entity: Entity, component: T)
    requires
        set.wf(),
        entity.index < set.capacity(),
    ensures
        lookup(set@.insert(entity.index, (entity.generation, component)), entity) == Some(component),
        lookup(set@.insert(entity.index, (entity.generation, component)).remove(entity.index), entity)
            is None,
{
}

/// A handle of a destroyed entity never resolves again: purging the entity empties
/// its slot, and when the slot is reused the new occupant carries the next
/// generation, which the old handle does not match.
pub proof fn lemma_stale_handle_never_resolves<T>(
    table: Map<u32, (u32, T)>,
    entity: Entity,
    component: T,
)
    ensures
        lookup(table.remove(entity.index), entity) is None,
        lookup(
            table.remove(entity.index).insert(
                entity.index,
                (next_generation(entity.generation), component),
            ),
            entity,
        ) is None,
{
}

} // verus!

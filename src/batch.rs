use vstd::arithmetic::power2::pow2;
use vstd::prelude::*;

verus! {

/// A view-projection matrix as the bit patterns of its sixteen `f32` entries,
/// column by column. Two transforms are the same when every bit agrees.
pub type Transform = [u32; 16];

/// A contiguous run of the frame's vertices drawn with one transform: one draw call.
#[derive(Copy, Clone, Debug, PartialEq, Eq, Structural)]
pub struct RenderBatch {
    pub start: u32,
    pub end: u32,
    pub view_projection_idx: u32,
}

/// A batch that has vertices in it; the others are never submitted.
pub open spec fn is_drawn(b: RenderBatch) -> bool {
    b.start < b.end
}

/// The draw calls for a frame's batches: the ones with vertices, in creation order.
pub open spec fn draw_calls(batches: Seq<RenderBatch>) -> Seq<RenderBatch> {
    batches.filter(|b: RenderBatch| is_drawn(b))
}

/// Partitions one frame's vertices into batches by the transform in scope.
///
/// The frame starts with a base transform. Opening a scope closes the current
/// batch and opens one under the scope's transform; closing the scope closes that
/// batch and opens one under the enclosing scope's transform again, so nested
/// scopes compose. Transforms are deduplicated by value: each distinct one gets one
/// slot of the frame's uniform buffer.
pub struct FrameBatches {
    vertex_count: u32,
    closed: Vec<RenderBatch>,
    open_start: u32,
    transforms: Vec<Transform>,
    scopes: Vec<u32>,
}

impl FrameBatches {
    pub closed spec fn vertices(&self) -> nat {
        self.vertex_count as nat
    }

    /// The batches closed so far, in creation order.
    pub closed spec fn closed_batches(&self) -> Seq<RenderBatch> {
        self.closed@
    }

    /// The batch being drawn into; it ends at the current vertex count.
    pub closed spec fn open_batch(&self) -> RenderBatch {
        RenderBatch {
            start: self.open_start,
            end: self.vertex_count,
            view_projection_idx: self.scopes@.last(),
        }
    }

    /// The distinct transforms used this frame, by slot.
    pub closed spec fn transform_slots(&self) -> Seq<Transform> {
        self.transforms@
    }

    /// The transform slot of each open scope, outermost (the frame's base) first.
    pub closed spec fn scopes(&self) -> Seq<u32> {
        self.scopes@
    }

    /// Every batch of the frame so far, the open one last.
    pub open spec fn all_batches(&self) -> Seq<RenderBatch> {
        self.closed_batches().push(self.open_batch())
    }

    pub open spec fn wf(&self) -> bool {
        &&& self.scopes().len() >= 1
        &&& self.transform_slots().len() <= u32::MAX
        &&& forall|i: int|
            0 <= i < self.scopes().len() ==> #[trigger] self.scopes()[i] < self.transform_slots().len()
        &&& forall|i: int, j: int|
            0 <= i < j < self.transform_slots().len() ==> self.transform_slots()[i]@ != self.transform_slots()[j]@
        &&& self.open_batch().start <= self.vertices()
        &&& forall|i: int|
            0 <= i < self.closed_batches().len() ==> {
                let b = #[trigger] self.closed_batches()[i];
                &&& b.start <= b.end <= self.vertices()
                &&& b.view_projection_idx < self.transform_slots().len()
            }
    }

    /// A frame with nothing drawn yet, under the base transform.
    pub fn new(base: Transform) -> (r: FrameBatches)
        ensures
            r.wf(),
            r.vertices() == 0,
            r.closed_batches().len() == 0,
            r.transform_slots() == seq![base],
            r.scopes() == seq![0u32],
            r.open_batch() == (RenderBatch { start: 0, end: 0, view_projection_idx: 0 }),
    {
        let mut transforms: Vec<Transform> = Vec::new();
        transforms.push(base);
        let mut scopes: Vec<u32> = Vec::new();
        scopes.push(0);
        let r = FrameBatches { vertex_count: 0, closed: Vec::new(), open_start: 0, transforms, scopes };
        assert(r.transform_slots() =~= seq![base]);
        assert(r.scopes() =~= seq![0u32]);
        r
    }

    pub fn vertex_count(&self) -> (n: u32)
        ensures
            n == self.vertices(),
    {
        self.vertex_count
    }

    /// The distinct transforms of the frame, in slot order, for the uniform buffer.
    pub fn transforms(&self) -> (r: &[Transform])
        ensures
            r@ == self.transform_slots(),
    {
        self.transforms.as_slice()
    }

    /// Records `n` vertices appended to the frame's vertex buffer.
    pub fn push_vertices(&mut self, n: u32)
        requires
            old(self).wf(),
            old(self).vertices() + n <= u32::MAX,
        ensures
            final(self).wf(),
            final(self).vertices() == old(self).vertices() + n,
            final(self).closed_batches() == old(self).closed_batches(),
            final(self).transform_slots() == old(self).transform_slots(),
            final(self).scopes() == old(self).scopes(),
            final(self).open_batch().start == old(self).open_batch().start,
    {
        self.vertex_count = self.vertex_count + n;
        proof {
            assert forall|i: int| 0 <= i < self.closed@.len() implies {
                let b = #[trigger] self.closed@[i];
                &&& b.start <= b.end <= self.vertex_count
                &&& b.view_projection_idx < self.transforms@.len()
            } by {
                assert(old(self).closed_batches()[i] == self.closed@[i]);
            }
            assert forall|i: int| 0 <= i < self.scopes@.len() implies #[trigger] self.scopes@[i]
                < self.transforms@.len() by {
                assert(old(self).scopes()[i] < old(self).transform_slots().len());
            }
        }
    }

    /// The slot of `t`: the slot that already holds the same transform, or a new
    /// one at the end.
    fn slot_of(&mut self, t: Transform) -> (idx: u32)
        requires
            old(self).wf(),
            old(self).transform_slots().len() < u32::MAX,
        ensures
            final(self).vertices() == old(self).vertices(),
            final(self).closed_batches() == old(self).closed_batches(),
            final(self).scopes() == old(self).scopes(),
            final(self).open_start == old(self).open_start,
            idx < final(self).transform_slots().len(),
            final(self).transform_slots()[idx as int]@ == t@,
            (exists|k: int| 0 <= k < old(self).transform_slots().len() && old(self).transform_slots()[k]@ == t@)
                ==> final(self).transform_slots() == old(self).transform_slots(),
            !(exists|k: int|
                0 <= k < old(self).transform_slots().len() && old(self).transform_slots()[k]@ == t@)
                ==> final(self).transform_slots() == old(self).transform_slots().push(t),
            final(self).wf(),
    {
        let mut i: usize = 0;
        while i < self.transforms.len()
            invariant
                i <= self.transforms@.len(),
                *self == *old(self),
                self.wf(),
                self.transforms@.len() < u32::MAX,
                forall|k: int| 0 <= k < i ==> self.transforms@[k]@ != t@,
            decreases self.transforms@.len() - i,
        {
            if same_transform(&self.transforms[i], &t) {
                return i as u32;
            }
            i = i + 1;
        }
        let idx = self.transforms.len() as u32;
        self.transforms.push(t);
        proof {
            assert forall|a: int, b: int|
                0 <= a < b < self.transforms@.len() implies self.transforms@[a]@
                != self.transforms@[b]@ by {
                if b < old(self).transforms@.len() {
                    assert(old(self).transform_slots()[a]@ != old(self).transform_slots()[b]@);
                }
            }
            assert forall|i: int| 0 <= i < self.scopes@.len() implies #[trigger] self.scopes@[i]
                < self.transforms@.len() by {
                assert(old(self).scopes()[i] < old(self).transform_slots().len());
            }
            assert forall|i: int| 0 <= i < self.closed@.len() implies {
                let b = #[trigger] self.closed@[i];
                &&& b.start <= b.end <= self.vertex_count
                &&& b.view_projection_idx < self.transforms@.len()
            } by {
                assert(old(self).closed_batches()[i] == self.closed@[i]);
            }
        }
        idx
    }

    /// Opens a scope drawn with transform `t`: the current batch is closed and a
    /// new one begins under `t`'s slot, reusing a slot that holds the same
    /// transform. Returns that slot.
    pub fn begin_scope(&mut self, t: Transform) -> (idx: u32)
        requires
            old(self).wf(),
            old(self).transform_slots().len() < u32::MAX,
        ensures
            final(self).wf(),
            final(self).vertices() == old(self).vertices(),
            final(self).closed_batches() == old(self).closed_batches().push(old(self).open_batch()),
            final(self).transform_slots()[idx as int]@ == t@,
            (exists|k: int| 0 <= k < old(self).transform_slots().len() && old(self).transform_slots()[k]@ == t@)
                ==> final(self).transform_slots() == old(self).transform_slots(),
            !(exists|k: int|
                0 <= k < old(self).transform_slots().len() && old(self).transform_slots()[k]@ == t@)
                ==> final(self).transform_slots() == old(self).transform_slots().push(t),
            final(self).scopes() == old(self).scopes().push(idx),
            final(self).open_batch() == (RenderBatch {
                start: old(self).vertices() as u32,
                end: old(self).vertices() as u32,
                view_projection_idx: idx,
            }),
    {
        let current = RenderBatch {
            start: self.open_start,
            end: self.vertex_count,
            view_projection_idx: self.scopes[self.scopes.len() - 1],
        };
        let idx = self.slot_of(t);
        self.closed.push(current);
        self.scopes.push(idx);
        self.open_start = self.vertex_count;
        proof {
            assert(current == old(self).open_batch());
            assert(old(self).scopes()[old(self).scopes().len() - 1] < old(self).transform_slots().len());
            assert forall|i: int| 0 <= i < self.scopes@.len() implies #[trigger] self.scopes@[i]
                < self.transforms@.len() by {
                if i < old(self).scopes@.len() {
                    assert(old(self).scopes()[i] < old(self).transform_slots().len());
                }
            }
            assert forall|i: int| 0 <= i < self.closed@.len() implies {
                let b = #[trigger] self.closed@[i];
                &&& b.start <= b.end <= self.vertex_count
                &&& b.view_projection_idx < self.transforms@.len()
            } by {
                if i < old(self).closed@.len() {
                    assert(old(self).closed_batches()[i] == self.closed@[i]);
                }
            }
        }
        idx
    }

    /// Closes the innermost scope: its batch is closed and a new one begins under
    /// the enclosing scope's transform.
    pub fn end_scope(&mut self)
        requires
            old(self).wf(),
            old(self).scopes().len() >= 2,
        ensures
            final(self).wf(),
            final(self).vertices() == old(self).vertices(),
            final(self).closed_batches() == old(self).closed_batches().push(old(self).open_batch()),
            final(self).transform_slots() == old(self).transform_slots(),
            final(self).scopes() == old(self).scopes().drop_last(),
            final(self).open_batch() == (RenderBatch {
                start: old(self).vertices() as u32,
                end: old(self).vertices() as u32,
                view_projection_idx: old(self).scopes()[old(self).scopes().len() - 2],
            }),
    {
        let current = RenderBatch {
            start: self.open_start,
            end: self.vertex_count,
            view_projection_idx: self.scopes[self.scopes.len() - 1],
        };
        self.closed.push(current);
        self.scopes.pop();
        self.open_start = self.vertex_count;
        proof {
            assert(current == old(self).open_batch());
            assert(old(self).scopes()[old(self).scopes().len() - 1] < old(self).transform_slots().len());
            assert forall|i: int| 0 <= i < self.scopes@.len() implies #[trigger] self.scopes@[i]
                < self.transforms@.len() by {
                assert(old(self).scopes()[i] < old(self).transform_slots().len());
            }
            assert forall|i: int| 0 <= i < self.closed@.len() implies {
                let b = #[trigger] self.closed@[i];
                &&& b.start <= b.end <= self.vertex_count
                &&& b.view_projection_idx < self.transforms@.len()
            } by {
                if i < old(self).closed@.len() {
                    assert(old(self).closed_batches()[i] == self.closed@[i]);
                }
            }
        }
    }

    /// The frame's draw calls: every batch, the open one closed at the current
    /// vertex count, in creation order, without the ones no vertex was drawn into.
    pub fn finish(&self) -> (calls: Vec<RenderBatch>)
        requires
            self.wf(),
        ensures
            calls@ == draw_calls(self.all_batches()),
    {
        let mut calls: Vec<RenderBatch> = Vec::new();
        let mut i: usize = 0;
        while i < self.closed.len()
            invariant
                i <= self.closed@.len(),
                calls@ == draw_calls(self.closed@.take(i as int)),
            decreases self.closed@.len() - i,
        {
            let b = self.closed[i];
            if b.start < b.end {
                calls.push(b);
            }
            proof {
                let next = self.closed@.take(i + 1);
                assert(next.drop_last() =~= self.closed@.take(i as int));
                assert(next.last() == b);
                reveal(Seq::filter);
            }
            i = i + 1;
        }
        let last = RenderBatch {
            start: self.open_start,
            end: self.vertex_count,
            view_projection_idx: self.scopes[self.scopes.len() - 1],
        };
        if last.start < last.end {
            calls.push(last);
        }
        proof {
            assert(self.closed@.take(self.closed@.len() as int) =~= self.closed@);
            let all = self.all_batches();
            assert(all.drop_last() =~= self.closed@);
            assert(all.last() == last);
            reveal(Seq::filter);
        }
        calls
    }
}

/// Whether two transforms agree bit for bit.
fn same_transform(a: &Transform, b: &Transform) -> (r: bool)
    ensures
        r == (a@ == b@),
{
    let mut i: usize = 0;
    while i < 16
        invariant
            i <= 16,
            a@.len() == 16,
            b@.len() == 16,
            forall|k: int| 0 <= k < i ==> a@[k] == b@[k],
        decreases 16 - i,
    {
        if a[i] != b[i] {
            return false;
        }
        i = i + 1;
    }
    assert(a@ =~= b@);
    true
}

/// The capacity a buffer of `capacity` elements grows to so that it holds
/// `required`: doubled until it is large enough, and never shrunk.
pub fn grown_capacity(capacity: u64, required: u64) -> (r: u64)
    requires
        capacity > 0,
        required <= 0x8000_0000_0000_0000,
    ensures
        r >= required,
        exists|k: nat| r == capacity * pow2(k),
        capacity >= required ==> r == capacity,
        capacity < required ==> r < 2 * required,
{
    let mut r = capacity;
    let ghost mut k: nat = 0;
    proof {
        vstd::arithmetic::power2::lemma_pow2(0);
        assert(pow2(0) == 1) by {
            vstd::arithmetic::power2::lemma2_to64();
        }
    }
    while r < required
        invariant
            r >= capacity > 0,
            required <= 0x8000_0000_0000_0000,
            r == capacity * pow2(k),
            r > capacity ==> r < 2 * required,
            capacity >= required ==> r == capacity,
        decreases u64::MAX - r,
    {
        proof {
            vstd::arithmetic::power2::lemma_pow2_unfold(k + 1);
            assert(capacity * pow2(k + 1) == 2 * (capacity * pow2(k))) by (nonlinear_arith)
                requires
                    pow2(k + 1) == 2 * pow2(k),
            ;
        }
        r = r * 2;
        proof {
            k = k + 1;
        }
    }
    r
}

/// The distance between successive entries of `size` bytes in a buffer whose
/// entries must start at multiples of `alignment`: `size` rounded up to a multiple
/// of `alignment`.
pub fn aligned_stride(size: u64, alignment: u64) -> (stride: u64)
    requires
        alignment > 0,
        size + alignment <= u64::MAX,
    ensures
        stride % alignment == 0,
        size <= stride < size + alignment,
{
    proof {
        let q: int = (size + alignment - 1) as int / alignment as int;
        vstd::arithmetic::div_mod::lemma_fundamental_div_mod(
            (size + alignment - 1) as int,
            alignment as int,
        );
        vstd::arithmetic::div_mod::lemma_mod_multiples_basic(q, alignment as int);
        assert(q * alignment <= size + alignment - 1 && q * alignment >= size) by (nonlinear_arith)
            requires
                (size + alignment - 1) as int == alignment * q + ((size + alignment - 1) as int) % (
                alignment as int),
                0 <= ((size + alignment - 1) as int) % (alignment as int) < alignment,
                alignment > 0,
        ;
    }
    let stride = (size + alignment - 1) / alignment * alignment;
    stride
}

/// A batch that no vertex was drawn into, such as the one of a scope opened and
/// closed with nothing drawn, adds no draw call; one with vertices adds exactly one.
pub proof fn lemma_empty_batch_adds_no_draw_call(batches: Seq<RenderBatch>, b: RenderBatch)
    ensures
        b.start >= b.end ==> draw_calls(batches.push(b)) == draw_calls(batches),
        b.start < b.end ==> draw_calls(batches.push(b)) == draw_calls(batches).push(b),
{
    reveal(Seq::filter);
    assert(batches.push(b).drop_last() =~= batches);
}

/// A scope opened and closed with nothing drawn in it produces no draw call: the
/// frame's draw calls after `end_scope` are those it had before `begin_scope`.
/// `opened` is the frame as `begin_scope` leaves it and `closed` as `end_scope`
/// then leaves it, with no vertices pushed in between.
pub proof fn lemma_empty_scope_draws_nothing(
    before: FrameBatches,
    opened: FrameBatches,
    closed: FrameBatches,
)
    requires
        opened.closed_batches() == before.closed_batches().push(before.open_batch()),
        opened.open_batch().start == opened.open_batch().end,
        closed.closed_batches() == opened.closed_batches().push(opened.open_batch()),
    ensures
        draw_calls(closed.closed_batches()) == draw_calls(before.all_batches()),
{
    lemma_empty_batch_adds_no_draw_call(opened.closed_batches(), opened.open_batch());
}

} // verus!

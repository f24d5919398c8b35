use vstd::prelude::*;

verus! {

/// The bytes of one mesh as they go to the GPU: its index buffer and its
/// vertex buffer.
pub struct MeshBytes {
    pub indices: Vec<u8>,
    pub vertices: Vec<u8>,
}

/// What to do with one GPU buffer of a slot.
#[derive(Clone, Copy, Debug, PartialEq, Eq, Structural)]
pub enum BufferWrite {
    /// The buffer has the payload's size: copy the bytes into it.
    CopyInPlace,
    /// The buffer has another size: replace it with one made from the bytes.
    Reallocate,
    /// The slot is new: make a buffer from the bytes and append it.
    Allocate,
}

/// What to do with the index buffer and the vertex buffer of one slot.
#[derive(Clone, Copy, Debug, PartialEq, Eq, Structural)]
pub struct SlotWrite {
    pub index: BufferWrite,
    pub vertex: BufferWrite,
}

/// The contents of one slot: its index bytes and its vertex bytes.
pub type SlotContents = (Seq<u8>, Seq<u8>);

/// A grow-only pool of index/vertex buffer pairs, one pair per mesh of a
/// frame's batch. The pool tracks the byte size of every buffer; its view is
/// what each buffer holds once the caller has carried out every plan that
/// `sync` returned. Slot `i` serves mesh `i`; slots past the batch are kept
/// for later frames.
///
/// The buffers are rewritten in place, so the caller must make sure that no
/// earlier frame still reads them when it carries out a plan.
pub struct BufferPool {
    sizes: Vec<(usize, usize)>,
    contents: Ghost<Seq<SlotContents>>,
}

pub open spec fn payload_view(payloads: Seq<MeshBytes>) -> Seq<SlotContents> {
    Seq::new(payloads.len(), |i: int| (payloads[i].indices@, payloads[i].vertices@))
}

pub open spec fn write_of(current: Seq<u8>, payload: Seq<u8>) -> BufferWrite {
    if current.len() == payload.len() {
        BufferWrite::CopyInPlace
    } else {
        BufferWrite::Reallocate
    }
}

/// The plan that `sync` gives for `payloads` on a pool that holds `slots`.
pub open spec fn plan_of(slots: Seq<SlotContents>, payloads: Seq<SlotContents>) -> Seq<SlotWrite> {
    Seq::new(
        payloads.len(),
        |i: int|
            if i < slots.len() {
                SlotWrite {
                    index: write_of(slots[i].0, payloads[i].0),
                    vertex: write_of(slots[i].1, payloads[i].1),
                }
            } else {
                SlotWrite { index: BufferWrite::Allocate, vertex: BufferWrite::Allocate }
            },
    )
}

/// The slots after `sync`: the first `payloads.len()` hold the payloads, the
/// others are as they were.
pub open spec fn synced(slots: Seq<SlotContents>, payloads: Seq<SlotContents>) -> Seq<SlotContents> {
    Seq::new(
        if slots.len() >= payloads.len() {
            slots.len()
        } else {
            payloads.len()
        },
        |i: int|
            if i < payloads.len() {
                payloads[i]
            } else {
                slots[i]
            },
    )
}

impl BufferPool {
    pub closed spec fn view(&self) -> Seq<SlotContents> {
        self.contents@
    }

    pub closed spec fn wf(&self) -> bool {
        &&& self.sizes@.len() == self.contents@.len()
        &&& forall|i: int|
            0 <= i < self.sizes@.len() ==> (#[trigger] self.sizes@[i]).0 == self.contents@[i].0.len()
                && self.sizes@[i].1 == self.contents@[i].1.len()
    }

    /// An empty pool.
    pub fn new() -> (r: Self)
        ensures
            r.wf(),
            r.view() == Seq::<SlotContents>::empty(),
    {
        BufferPool { sizes: Vec::new(), contents: Ghost(Seq::empty()) }
    }

    /// Number of slots ever allocated.
    pub fn len(&self) -> (r: usize)
        requires
            self.wf(),
        ensures
            r == self.view().len(),
    {
        self.sizes.len()
    }

    /// Byte sizes of the index buffer and the vertex buffer of slot `i`.
    pub fn slot_sizes(&self, i: usize) -> (r: (usize, usize))
        requires
            self.wf(),
            i < self.view().len(),
        ensures
            r.0 == self.view()[i as int].0.len(),
            r.1 == self.view()[i as int].1.len(),
    {
        self.sizes[i]
    }

    /// Brings slot `i` to hold `payloads[i]` for every `i`, and returns for
    /// each slot what must be done to its two buffers: a copy in place where
    /// the size is unchanged, a new buffer where it changed, and new buffers
    /// for slots past the end. Slots past the batch are left as they are.
    pub fn sync(&mut self, payloads: &Vec<MeshBytes>) -> (plan: Vec<SlotWrite>)
        requires
            old(self).wf(),
        ensures
            final(self).wf(),
            final(self).view() == synced(old(self).view(), payload_view(payloads@)),
            plan@ == plan_of(old(self).view(), payload_view(payloads@)),
    {
        let ghost start = self.contents@;
        let ghost target = payload_view(payloads@);
        let mut plan: Vec<SlotWrite> = Vec::new();
        let mut i: usize = 0;
        while i < payloads.len()
            invariant
                self.wf(),
                i <= payloads.len(),
                target == payload_view(payloads@),
                self.contents@.len() == if start.len() >= i {
                    start.len()
                } else {
                    i as nat
                },
                forall|j: int| 0 <= j < i ==> #[trigger] self.contents@[j] == target[j],
                forall|j: int| i <= j < start.len() ==> #[trigger] self.contents@[j] == start[j],
                plan@ == plan_of(start, target).take(i as int),
            decreases payloads.len() - i,
        {
            let index_len = payloads[i].indices.len();
            let vertex_len = payloads[i].vertices.len();
            if i < self.sizes.len() {
                let (old_index, old_vertex) = self.sizes[i];
                let index = if old_index == index_len {
                    BufferWrite::CopyInPlace
                } else {
                    BufferWrite::Reallocate
                };
                let vertex = if old_vertex == vertex_len {
                    BufferWrite::CopyInPlace
                } else {
                    BufferWrite::Reallocate
                };
                plan.push(SlotWrite { index, vertex });
                self.sizes.set(i, (index_len, vertex_len));
                self.contents = Ghost(self.contents@.update(i as int, target[i as int]));
            } else {
                plan.push(SlotWrite { index: BufferWrite::Allocate, vertex: BufferWrite::Allocate });
                self.sizes.push((index_len, vertex_len));
                self.contents = Ghost(self.contents@.push(target[i as int]));
            }
            assert(plan@ =~= plan_of(start, target).take(i + 1));
            i = i + 1;
        }
        assert(self.contents@ =~= synced(start, target));
        assert(plan@ =~= plan_of(start, target));
        plan
    }
}

/// Syncing twice with the same payloads: the second sync changes no slot and
/// copies every buffer in place, reallocating none.
pub proof fn lemma_sync_idempotent(slots: Seq<SlotContents>, payloads: Seq<SlotContents>)
    ensures
        synced(synced(slots, payloads), payloads) == synced(slots, payloads),
        forall|i: int|
            0 <= i < payloads.len() ==> #[trigger] plan_of(synced(slots, payloads), payloads)[i]
                == (SlotWrite { index: BufferWrite::CopyInPlace, vertex: BufferWrite::CopyInPlace }),
{
    assert(synced(synced(slots, payloads), payloads) =~= synced(slots, payloads));
}

/// After a batch of `n` meshes on a pool of at most `n` slots, a batch of
/// `n + 1` meshes that begins with the same `n` appends exactly one slot and
/// leaves the first `n` as they were, copied in place.
pub proof fn lemma_sync_growth(
    slots: Seq<SlotContents>,
    batch: Seq<SlotContents>,
    next: Seq<SlotContents>,
)
    requires
        slots.len() <= batch.len(),
        next.len() == batch.len() + 1,
        next.take(batch.len() as int) == batch,
    ensures
        synced(synced(slots, batch), next).len() == synced(slots, batch).len() + 1,
        synced(synced(slots, batch), next).take(batch.len() as int) == synced(slots, batch),
        plan_of(synced(slots, batch), next)[batch.len() as int] == (SlotWrite {
            index: BufferWrite::Allocate,
            vertex: BufferWrite::Allocate,
        }),
        forall|i: int|
            0 <= i < batch.len() ==> #[trigger] plan_of(synced(slots, batch), next)[i] == (SlotWrite {
                index: BufferWrite::CopyInPlace,
                vertex: BufferWrite::CopyInPlace,
            }),
{
    let first = synced(slots, batch);
    assert(first.len() == batch.len());
    assert forall|i: int| 0 <= i < batch.len() implies next[i] == batch[i] by {
        assert(next.take(batch.len() as int)[i] == next[i]);
    }
    assert(synced(first, next).take(batch.len() as int) =~= first);
}

} // verus!

//! The staged upload primitive: host data reaches device-local memory
//! through a temporary host-visible staging buffer, a blocking copy, and
//! the unconditional destruction of the staging buffer.
//!
//! GPU memory is modeled as a store of byte buffers, so the upload's
//! guarantee — the destination holds exactly the input bytes, and exactly
//! one allocation outlives the call — is stated and proved directly.

use vstd::prelude::*;

verus! {

/// What a buffer was allocated for.
#[derive(Clone, Copy, Debug, PartialEq, Eq, Structural)]
pub enum BufferUsage {
    Vertex,
    Index,
    Uniform,
    TransferSrc,
}

/// One allocated buffer: whether it is still alive, whether the host can
/// map it, what it was allocated for, and its contents.
#[derive(Debug)]
pub struct BufferSlot {
    pub alive: bool,
    pub host_visible: bool,
    pub usage: BufferUsage,
    pub data: Vec<u8>,
}

/// The mathematical image of one buffer.
pub struct BufferModel {
    pub alive: bool,
    pub host_visible: bool,
    pub usage: BufferUsage,
    pub data: Seq<u8>,
}

impl View for BufferSlot {
    type V = BufferModel;

    open spec fn view(&self) -> BufferModel {
        BufferModel {
            alive: self.alive,
            host_visible: self.host_visible,
            usage: self.usage,
            data: self.data@,
        }
    }
}

/// How many buffers of `m` are alive.
pub open spec fn count_live(m: Seq<BufferModel>) -> int
    decreases m.len(),
{
    if m.len() == 0 {
        0
    } else {
        count_live(m.drop_last()) + if m.last().alive {
            1int
        } else {
            0int
        }
    }
}

/// Appending a buffer raises the live count by one exactly when the
/// buffer is alive.
pub proof fn lemma_count_live_push(m: Seq<BufferModel>, b: BufferModel)
    ensures
        count_live(m.push(b)) == count_live(m) + if b.alive {
            1int
        } else {
            0int
        },
{
    assert(m.push(b).drop_last() =~= m);
}

/// The live count is bounded by the number of buffers.
pub proof fn lemma_count_live_bounds(m: Seq<BufferModel>)
    ensures
        0 <= count_live(m) <= m.len(),
    decreases m.len(),
{
    if m.len() > 0 {
        lemma_count_live_bounds(m.drop_last());
    }
}

/// Replacing one buffer changes the live count by the difference of the
/// two alive flags.
pub proof fn lemma_count_live_update(m: Seq<BufferModel>, i: int, b: BufferModel)
    requires
        0 <= i < m.len(),
    ensures
        count_live(m.update(i, b)) == count_live(m) - (if m[i].alive {
            1int
        } else {
            0int
        }) + (if b.alive {
            1int
        } else {
            0int
        }),
    decreases m.len(),
{
    if i == m.len() - 1 {
        assert(m.update(i, b).drop_last() =~= m.drop_last());
    } else {
        assert(m.update(i, b).drop_last() =~= m.drop_last().update(i, b));
        lemma_count_live_update(m.drop_last(), i, b);
    }
}

/// What the staging buffer looks like once the upload is over: destroyed,
/// host-visible, still recording the bytes it shuttled.
pub open spec fn staging_model(data: Seq<u8>) -> BufferModel {
    BufferModel { alive: false, host_visible: true, usage: BufferUsage::TransferSrc, data }
}

/// The destination buffer an upload produces: alive, device-local, and
/// holding exactly the input bytes.
pub open spec fn uploaded_model(usage: BufferUsage, data: Seq<u8>) -> BufferModel {
    BufferModel { alive: true, host_visible: false, usage, data }
}

/// The whole effect of one staged upload on the store.
pub open spec fn upload_spec(
    m: Seq<BufferModel>,
    usage: BufferUsage,
    data: Seq<u8>,
) -> Seq<BufferModel> {
    m.push(staging_model(data)).push(uploaded_model(usage, data))
}

/// The store of GPU buffer allocations. Identifiers are handed out in
/// increasing order and never reused; freeing only clears the alive flag.
pub struct BufferAllocator {
    buffers: Vec<BufferSlot>,
    live: usize,
}

/// A zeroed byte vector of the given length, as freshly allocated memory.
fn zeroed(size: usize) -> (v: Vec<u8>)
    ensures
        v@ == Seq::new(size as nat, |i: int| 0u8),
{
    let mut v: Vec<u8> = Vec::new();
    let mut i: usize = 0;
    while i < size
        invariant
            i <= size,
            v@ =~= Seq::new(i as nat, |j: int| 0u8),
        decreases size - i,
    {
        v.push(0u8);
        i = i + 1;
    }
    proof {
        assert(v@ =~= Seq::new(size as nat, |i: int| 0u8));
    }
    v
}

impl BufferAllocator {
    /// Every buffer ever allocated, in allocation order.
    pub closed spec fn model(&self) -> Seq<BufferModel> {
        Seq::new(self.buffers@.len(), |i: int| self.buffers@[i]@)
    }

    /// How many buffers have been allocated over the store's lifetime.
    pub open spec fn buffer_count(&self) -> int {
        self.model().len() as int
    }

    /// The maintained live counter.
    pub closed spec fn live_counter(&self) -> int {
        self.live as int
    }

    /// The counter agrees with the store.
    pub open spec fn wf(&self) -> bool {
        self.live_counter() == count_live(self.model())
    }

    /// Whether `id` names a live buffer.
    pub open spec fn is_live(&self, id: int) -> bool {
        0 <= id < self.model().len() && self.model()[id].alive
    }

    /// An empty store.
    pub fn new() -> (a: BufferAllocator)
        ensures
            a.wf(),
            a.model() == Seq::<BufferModel>::empty(),
    {
        let a = BufferAllocator { buffers: Vec::new(), live: 0 };
        proof {
            assert(a.model() =~= Seq::<BufferModel>::empty());
        }
        a
    }

    /// Append one slot, keeping the counter honest.
    fn push_slot(&mut self, slot: BufferSlot) -> (id: usize)
        requires
            old(self).wf(),
            slot.alive,
            old(self).live_counter() < usize::MAX,
        ensures
            final(self).wf(),
            id == old(self).buffer_count(),
            final(self).model() == old(self).model().push(slot@),
            final(self).live_counter() == old(self).live_counter() + 1,
    {
        let id = self.buffers.len();
        proof {
            lemma_count_live_push(old(self).model(), slot@);
        }
        self.buffers.push(slot);
        self.live = self.live + 1;
        proof {
            assert(self.model() =~= old(self).model().push(self.buffers@[id as int]@));
        }
        id
    }

    /// Allocate a host-visible, host-coherent staging buffer sized
    /// exactly to the upload, zeroed as fresh memory.
    pub fn allocate_staging_buffer(&mut self, size: usize) -> (id: usize)
        requires
            old(self).wf(),
            old(self).live_counter() < usize::MAX,
        ensures
            final(self).wf(),
            id == old(self).buffer_count(),
            final(self).model() == old(self).model().push(
                BufferModel {
                    alive: true,
                    host_visible: true,
                    usage: BufferUsage::TransferSrc,
                    data: Seq::new(size as nat, |i: int| 0u8),
                },
            ),
            final(self).live_counter() == old(self).live_counter() + 1,
    {
        let data = zeroed(size);
        self.push_slot(
            BufferSlot { alive: true, host_visible: true, usage: BufferUsage::TransferSrc, data },
        )
    }

    /// Allocate a device-local buffer the host cannot map, zeroed.
    pub fn allocate_gpu_buffer(&mut self, size: usize, usage: BufferUsage) -> (id: usize)
        requires
            old(self).wf(),
            old(self).live_counter() < usize::MAX,
        ensures
            final(self).wf(),
            id == old(self).buffer_count(),
            final(self).model() == old(self).model().push(
                BufferModel {
                    alive: true,
                    host_visible: false,
                    usage,
                    data: Seq::new(size as nat, |i: int| 0u8),
                },
            ),
            final(self).live_counter() == old(self).live_counter() + 1,
    {
        let data = zeroed(size);
        self.push_slot(BufferSlot { alive: true, host_visible: false, usage, data })
    }

    /// Map a host-visible buffer, copy the bytes in, and unmap. The
    /// mapping is scoped to this call: it is released on every path.
    pub fn write(&mut self, id: usize, bytes: &Vec<u8>)
        requires
            old(self).wf(),
            old(self).is_live(id as int),
            old(self).model()[id as int].host_visible,
            bytes@.len() == old(self).model()[id as int].data.len(),
        ensures
            final(self).wf(),
            final(self).live_counter() == old(self).live_counter(),
            final(self).model() == old(self).model().update(
                id as int,
                BufferModel { data: bytes@, ..old(self).model()[id as int] },
            ),
    {
        proof {
            lemma_count_live_update(
                old(self).model(),
                id as int,
                BufferModel { data: bytes@, ..old(self).model()[id as int] },
            );
        }
        let alive = self.buffers[id].alive;
        let host_visible = self.buffers[id].host_visible;
        let usage = self.buffers[id].usage;
        let mut data: Vec<u8> = Vec::new();
        let mut i: usize = 0;
        while i < bytes.len()
            invariant
                i <= bytes@.len(),
                data@ =~= bytes@.take(i as int),
            decreases bytes@.len() - i,
        {
            data.push(bytes[i]);
            i = i + 1;
        }
        proof {
            assert(data@ =~= bytes@);
        }
        self.buffers[id] = BufferSlot { alive, host_visible, usage, data };
        proof {
            assert(self.model() =~= old(self).model().update(
                id as int,
                BufferModel { data: bytes@, ..old(self).model()[id as int] },
            ));
        }
    }

    /// Record a one-time copy command over the buffers' full byte range,
    /// submit it, and block until its completion fence signals. When the
    /// call returns, the destination holds the source's bytes.
    pub fn copy_buffer(&mut self, src: usize, dst: usize)
        requires
            old(self).wf(),
            old(self).is_live(src as int),
            old(self).is_live(dst as int),
            src != dst,
            old(self).model()[src as int].data.len() == old(self).model()[dst as int].data.len(),
        ensures
            final(self).wf(),
            final(self).live_counter() == old(self).live_counter(),
            final(self).model() == old(self).model().update(
                dst as int,
                BufferModel {
                    data: old(self).model()[src as int].data,
                    ..old(self).model()[dst as int]
                },
            ),
    {
        proof {
            lemma_count_live_update(
                old(self).model(),
                dst as int,
                BufferModel {
                    data: old(self).model()[src as int].data,
                    ..old(self).model()[dst as int]
                },
            );
        }
        let alive = self.buffers[dst].alive;
        let host_visible = self.buffers[dst].host_visible;
        let usage = self.buffers[dst].usage;
        let mut data: Vec<u8> = Vec::new();
        let n = self.buffers[src].data.len();
        let mut i: usize = 0;
        while i < n
            invariant
                i <= n,
                n == self.buffers@[src as int].data@.len(),
                src < self.buffers@.len(),
                data@ =~= self.buffers@[src as int].data@.take(i as int),
            decreases n - i,
        {
            let byte = self.buffers[src].data[i];
            data.push(byte);
            i = i + 1;
        }
        proof {
            assert(data@ =~= old(self).model()[src as int].data);
        }
        self.buffers[dst] = BufferSlot { alive, host_visible, usage, data };
        proof {
            assert(self.model() =~= old(self).model().update(
                dst as int,
                BufferModel {
                    data: old(self).model()[src as int].data,
                    ..old(self).model()[dst as int]
                },
            ));
        }
    }

    /// Destroy a live buffer and release its memory.
    pub fn free(&mut self, id: usize)
        requires
            old(self).wf(),
            old(self).is_live(id as int),
        ensures
            final(self).wf(),
            final(self).model() == old(self).model().update(
                id as int,
                BufferModel { alive: false, ..old(self).model()[id as int] },
            ),
            final(self).live_counter() == old(self).live_counter() - 1,
    {
        proof {
            lemma_count_live_update(
                old(self).model(),
                id as int,
                BufferModel { alive: false, ..old(self).model()[id as int] },
            );
            lemma_count_live_bounds(
                old(self).model().update(
                    id as int,
                    BufferModel { alive: false, ..old(self).model()[id as int] },
                ),
            );
        }
        self.buffers[id].alive = false;
        self.live = self.live - 1;
        proof {
            assert(self.model() =~= old(self).model().update(
                id as int,
                BufferModel { alive: false, ..old(self).model()[id as int] },
            ));
        }
    }

    /// The contents of a live buffer, observable at run time.
    pub fn contents(&self, id: usize) -> (r: &Vec<u8>)
        requires
            self.is_live(id as int),
        ensures
            r@ == self.model()[id as int].data,
    {
        &self.buffers[id].data
    }

    /// Whether `id` names a live buffer, observable at run time.
    pub fn live(&self, id: usize) -> (r: bool)
        ensures
            r == self.is_live(id as int),
    {
        id < self.buffers.len() && self.buffers[id].alive
    }

    /// How many buffers are currently alive.
    pub fn live_buffers(&self) -> (n: usize)
        requires
            self.wf(),
        ensures
            n == count_live(self.model()),
    {
        self.live
    }

    /// The staged upload: allocate a staging buffer sized exactly to the
    /// input and a device-local destination, fill the staging buffer,
    /// copy it across with a blocking one-time command, and destroy the
    /// staging buffer once the wait completes. Exactly one allocation —
    /// the destination, holding exactly the input bytes — survives.
    pub fn create_buffer_with_staging(&mut self, usage: BufferUsage, bytes: &Vec<u8>) -> (id:
        usize)
        requires
            old(self).wf(),
            old(self).live_counter() + 2 <= usize::MAX,
        ensures
            final(self).wf(),
            final(self).model() == upload_spec(old(self).model(), usage, bytes@),
            id == old(self).buffer_count() + 1,
            final(self).is_live(id as int),
            final(self).model()[id as int].data == bytes@,
            final(self).live_counter() == old(self).live_counter() + 1,
            !final(self).is_live(old(self).buffer_count()),
    {
        let staging = self.allocate_staging_buffer(bytes.len());
        let id = self.allocate_gpu_buffer(bytes.len(), usage);
        self.write(staging, bytes);
        self.copy_buffer(staging, id);
        self.free(staging);
        proof {
            assert(self.model() =~= upload_spec(old(self).model(), usage, bytes@));
            lemma_count_live_push(old(self).model(), staging_model(bytes@));
            lemma_count_live_push(
                old(self).model().push(staging_model(bytes@)),
                uploaded_model(usage, bytes@),
            );
        }
        id
    }

    /// Upload vertex data.
    pub fn create_vertex_buffer_with_staging(&mut self, bytes: &Vec<u8>) -> (id: usize)
        requires
            old(self).wf(),
            old(self).live_counter() + 2 <= usize::MAX,
        ensures
            final(self).wf(),
            final(self).model() == upload_spec(old(self).model(), BufferUsage::Vertex, bytes@),
            id == old(self).buffer_count() + 1,
            final(self).is_live(id as int),
            final(self).model()[id as int].data == bytes@,
            final(self).live_counter() == old(self).live_counter() + 1,
    {
        self.create_buffer_with_staging(BufferUsage::Vertex, bytes)
    }

    /// Upload index data.
    pub fn create_index_buffer_with_staging(&mut self, bytes: &Vec<u8>) -> (id: usize)
        requires
            old(self).wf(),
            old(self).live_counter() + 2 <= usize::MAX,
        ensures
            final(self).wf(),
            final(self).model() == upload_spec(old(self).model(), BufferUsage::Index, bytes@),
            id == old(self).buffer_count() + 1,
            final(self).is_live(id as int),
            final(self).model()[id as int].data == bytes@,
            final(self).live_counter() == old(self).live_counter() + 1,
    {
        self.create_buffer_with_staging(BufferUsage::Index, bytes)
    }

    /// Allocate one host-visible uniform buffer of the given size.
    pub fn create_uniform_buffer(&mut self, size: usize) -> (id: usize)
        requires
            old(self).wf(),
            old(self).live_counter() < usize::MAX,
        ensures
            final(self).wf(),
            id == old(self).buffer_count(),
            final(self).model() == old(self).model().push(
                BufferModel {
                    alive: true,
                    host_visible: true,
                    usage: BufferUsage::Uniform,
                    data: Seq::new(size as nat, |i: int| 0u8),
                },
            ),
            final(self).live_counter() == old(self).live_counter() + 1,
    {
        let data = zeroed(size);
        self.push_slot(
            BufferSlot { alive: true, host_visible: true, usage: BufferUsage::Uniform, data },
        )
    }
}

impl BufferAllocator {
    /// Allocate one host-visible uniform buffer per swapchain image, all
    /// of the given size. Their identifiers ascend consecutively.
    #[verifier::loop_isolation(false)]
    pub fn create_uniform_buffers(&mut self, size: usize, count: usize) -> (ids: Vec<usize>)
        requires
            old(self).wf(),
            old(self).live_counter() + count <= usize::MAX,
        ensures
            final(self).wf(),
            ids@.len() == count as int,
            forall|i: int| 0 <= i < count ==> (#[trigger] ids@[i]) as int == old(self).buffer_count() + i,
            final(self).buffer_count() == old(self).buffer_count() + count,
            final(self).live_counter() == old(self).live_counter() + count,
            forall|id: int|
                0 <= id < old(self).buffer_count() ==> final(self).model()[id] == old(self).model()[id],
            forall|i: int|
                0 <= i < count ==> final(self).model()[(#[trigger] ids@[i]) as int]
                    == (BufferModel {
                    alive: true,
                    host_visible: true,
                    usage: BufferUsage::Uniform,
                    data: Seq::new(size as nat, |k: int| 0u8),
                }),
    {
        let mut ids: Vec<usize> = Vec::new();
        let mut i: usize = 0;
        while i < count
            invariant
                i <= count,
                ids@.len() == i as int,
                self.wf(),
                self.buffer_count() == old(self).buffer_count() + i,
                self.live_counter() == old(self).live_counter() + i,
                forall|j: int|
                    0 <= j < i ==> (#[trigger] ids@[j]) as int == old(self).buffer_count() + j,
                forall|id: int|
                    0 <= id < old(self).buffer_count() ==> self.model()[id] == old(self).model()[id],
                forall|j: int|
                    0 <= j < i ==> self.model()[(#[trigger] ids@[j]) as int] == (BufferModel {
                        alive: true,
                        host_visible: true,
                        usage: BufferUsage::Uniform,
                        data: Seq::new(size as nat, |k: int| 0u8),
                    }),
            decreases count - i,
        {
            let id = self.create_uniform_buffer(size);
            ids.push(id);
            i = i + 1;
        }
        ids
    }

    /// Destroy a batch of live buffers with ascending identifiers, as
    /// when per-image uniform buffers are torn down alongside their
    /// swapchain generation.
    #[verifier::loop_isolation(false)]
    pub fn free_all(&mut self, ids: &Vec<usize>)
        requires
            old(self).wf(),
            forall|i: int, j: int| 0 <= i < j < ids@.len() ==> ids@[i] < ids@[j],
            forall|i: int| 0 <= i < ids@.len() ==> old(self).is_live((#[trigger] ids@[i]) as int),
        ensures
            final(self).wf(),
            final(self).buffer_count() == old(self).buffer_count(),
            final(self).live_counter() == old(self).live_counter() - ids@.len(),
            forall|i: int| 0 <= i < ids@.len() ==> !final(self).is_live((#[trigger] ids@[i]) as int),
            forall|id: int|
                0 <= id < old(self).buffer_count() && (forall|i: int|
                    0 <= i < ids@.len() ==> (#[trigger] ids@[i]) as int != id) ==> final(self).model()[id] == old(self).model()[id],
    {
        let n = ids.len();
        let mut i: usize = 0;
        while i < n
            invariant
                i <= n,
                self.wf(),
                self.buffer_count() == old(self).buffer_count(),
                self.live_counter() == old(self).live_counter() - i,
                forall|j: int| 0 <= j < i ==> !self.is_live((#[trigger] ids@[j]) as int),
                forall|j: int|
                    i <= j < n ==> self.model()[(#[trigger] ids@[j]) as int] == old(self).model()[ids@[j] as int],
                forall|id: int|
                    0 <= id < old(self).buffer_count() && (forall|j: int|
                        0 <= j < n ==> (#[trigger] ids@[j]) as int != id) ==> self.model()[id]
                        == old(self).model()[id],
            decreases n - i,
        {
            let id = ids[i];
            self.free(id);
            i = i + 1;
        }
    }
}

/// Uploading the same bytes twice has the same observable effect each
/// time: both destination buffers hold byte-identical contents, each
/// call leaves exactly one more live allocation than before it, and each
/// call's staging buffer ends destroyed.
pub proof fn lemma_upload_repeatable(m0: Seq<BufferModel>, usage: BufferUsage, data: Seq<u8>)
    ensures
        ({
            let m1 = upload_spec(m0, usage, data);
            let m2 = upload_spec(m1, usage, data);
            &&& m2[m0.len() + 1int].data == m2[m1.len() + 1int].data
            &&& m2[m0.len() + 1int].alive && m2[m1.len() + 1int].alive
            &&& !m2[m0.len() as int].alive && !m2[m1.len() as int].alive
            &&& count_live(m1) == count_live(m0) + 1
            &&& count_live(m2) == count_live(m1) + 1
        }),
{
    let m1 = upload_spec(m0, usage, data);
    let m2 = upload_spec(m1, usage, data);
    lemma_count_live_push(m0, staging_model(data));
    lemma_count_live_push(m0.push(staging_model(data)), uploaded_model(usage, data));
    lemma_count_live_push(m1, staging_model(data));
    lemma_count_live_push(m1.push(staging_model(data)), uploaded_model(usage, data));
}

} // verus!

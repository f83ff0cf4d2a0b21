//! Builder for a sparse memory bind call.

use vstd::prelude::*;

use crate::errors::UsageError;
use crate::handles::Buffer;
use crate::handles::DeviceMemory;
use crate::handles::Fence;
use crate::handles::Image;
use crate::handles::Queue;
use crate::handles::Semaphore;
use crate::semaphores_wait::SubmitSemaphoresWaitBuilder;

verus! {

/// One bind of a fixed-size region of a resource: the region starting at
/// `offset` with `size` bytes is bound to `memory` at `memory_offset`, or
/// unbound from any backing when `memory` is `None`.
#[derive(Clone, Copy, Debug, PartialEq, Eq)]
pub struct SparseMemoryBind {
    /// Offset of the region inside the resource, in bytes.
    pub offset: u64,
    /// Size of the region, in bytes.
    pub size: u64,
    /// The memory backing the region, or `None` to unbind it.
    pub memory: Option<DeviceMemory>,
    /// Offset inside `memory` where the backing starts, in bytes; zero for
    /// an unbind.
    pub memory_offset: u64,
}

/// One bind of a rectangular region of one subresource of an image: mip
/// level and array layer pick the subresource, offset and extent pick the
/// texel block region, and `memory` backs it (or `None` unbinds it).
#[derive(Clone, Copy, Debug, PartialEq, Eq)]
pub struct SparseImageMemoryBind {
    /// Mip level of the subresource the bind applies to.
    pub mip_level: u32,
    /// Array layer of the subresource the bind applies to.
    pub array_layer: u32,
    /// X coordinate of the first texel of the region.
    pub offset_x: i32,
    /// Y coordinate of the first texel of the region.
    pub offset_y: i32,
    /// Z coordinate of the first texel of the region.
    pub offset_z: i32,
    /// Width of the region, in texels.
    pub extent_width: u32,
    /// Height of the region, in texels.
    pub extent_height: u32,
    /// Depth of the region, in texels.
    pub extent_depth: u32,
    /// The memory backing the region, or `None` to unbind it.
    pub memory: Option<DeviceMemory>,
    /// Offset inside `memory` where the backing starts, in bytes; zero for
    /// an unbind.
    pub memory_offset: u64,
}

/// The binds accumulated for one buffer: the group targets exactly this
/// buffer, and its binds are applied in the order they were added.
#[derive(Clone, Debug)]
pub struct SubmitBindSparseBufferBindBuilder {
    /// The buffer every bind of this group targets.
    pub buffer: Buffer,
    /// The binds, in the order they were added.
    pub binds: Vec<SparseMemoryBind>,
}

impl SubmitBindSparseBufferBindBuilder {
    /// Creates a group for `buffer` with no binds.
    pub fn new(buffer: Buffer) -> (r: SubmitBindSparseBufferBindBuilder)
        ensures
            r.buffer == buffer,
            r.binds@ == Seq::<SparseMemoryBind>::empty(),
    {
        SubmitBindSparseBufferBindBuilder { buffer, binds: Vec::new() }
    }

    /// Appends the bind of the region at `offset` of `size` bytes to
    /// `memory` at `memory_offset`.
    pub fn add_bind(&mut self, offset: u64, size: u64, memory: DeviceMemory, memory_offset: u64)
        ensures
            final(self).buffer == old(self).buffer,
            final(self).binds@ == old(self).binds@.push(
                SparseMemoryBind { offset, size, memory: Some(memory), memory_offset },
            ),
    {
        self.binds.push(SparseMemoryBind { offset, size, memory: Some(memory), memory_offset });
    }

    /// Appends the unbind of the region at `offset` of `size` bytes.
    pub fn add_unbind(&mut self, offset: u64, size: u64)
        ensures
            final(self).buffer == old(self).buffer,
            final(self).binds@ == old(self).binds@.push(
                SparseMemoryBind { offset, size, memory: None, memory_offset: 0 },
            ),
    {
        self.binds.push(SparseMemoryBind { offset, size, memory: None, memory_offset: 0 });
    }
}

/// The opaque binds accumulated for one image: regions of the image without
/// a defined subresource layout, bound like buffer regions.
#[derive(Clone, Debug)]
pub struct SubmitBindSparseImageOpaqueBindBuilder {
    /// The image every bind of this group targets.
    pub image: Image,
    /// The binds, in the order they were added.
    pub binds: Vec<SparseMemoryBind>,
}

impl SubmitBindSparseImageOpaqueBindBuilder {
    /// Creates a group for `image` with no binds.
    pub fn new(image: Image) -> (r: SubmitBindSparseImageOpaqueBindBuilder)
        ensures
            r.image == image,
            r.binds@ == Seq::<SparseMemoryBind>::empty(),
    {
        SubmitBindSparseImageOpaqueBindBuilder { image, binds: Vec::new() }
    }

    /// Appends the bind of the region at `offset` of `size` bytes to
    /// `memory` at `memory_offset`.
    pub fn add_bind(&mut self, offset: u64, size: u64, memory: DeviceMemory, memory_offset: u64)
        ensures
            final(self).image == old(self).image,
            final(self).binds@ == old(self).binds@.push(
                SparseMemoryBind { offset, size, memory: Some(memory), memory_offset },
            ),
    {
        self.binds.push(SparseMemoryBind { offset, size, memory: Some(memory), memory_offset });
    }

    /// Appends the unbind of the region at `offset` of `size` bytes.
    pub fn add_unbind(&mut self, offset: u64, size: u64)
        ensures
            final(self).image == old(self).image,
            final(self).binds@ == old(self).binds@.push(
                SparseMemoryBind { offset, size, memory: None, memory_offset: 0 },
            ),
    {
        self.binds.push(SparseMemoryBind { offset, size, memory: None, memory_offset: 0 });
    }
}

/// The subresource-aware binds accumulated for one image.
#[derive(Clone, Debug)]
pub struct SubmitBindSparseImageBindBuilder {
    /// The image every bind of this group targets.
    pub image: Image,
    /// The binds, in the order they were added.
    pub binds: Vec<SparseImageMemoryBind>,
}

impl SubmitBindSparseImageBindBuilder {
    /// Creates a group for `image` with no binds.
    pub fn new(image: Image) -> (r: SubmitBindSparseImageBindBuilder)
        ensures
            r.image == image,
            r.binds@ == Seq::<SparseImageMemoryBind>::empty(),
    {
        SubmitBindSparseImageBindBuilder { image, binds: Vec::new() }
    }

    /// Appends `bind` after every bind added so far.
    pub fn add_bind(&mut self, bind: SparseImageMemoryBind)
        ensures
            final(self).image == old(self).image,
            final(self).binds@ == old(self).binds@.push(bind),
    {
        self.binds.push(bind);
    }
}

/// One batch of a sparse bind call: bind groups over any number of distinct
/// resources, sharing one set of semaphore waits and one set of signals.
#[derive(Clone, Debug)]
pub struct SubmitBindSparseBatchBuilder {
    /// Semaphores the batch waits on before any bind applies, in the order
    /// they were added.
    pub wait_semaphores: Vec<Semaphore>,
    /// Semaphores signaled when every bind of the batch has applied, in the
    /// order they were added.
    pub signal_semaphores: Vec<Semaphore>,
    /// Buffer bind groups, in the order they were added.
    pub buffer_binds: Vec<SubmitBindSparseBufferBindBuilder>,
    /// Image-opaque bind groups, in the order they were added.
    pub image_opaque_binds: Vec<SubmitBindSparseImageOpaqueBindBuilder>,
    /// Subresource-aware image bind groups, in the order they were added.
    pub image_binds: Vec<SubmitBindSparseImageBindBuilder>,
}

impl SubmitBindSparseBatchBuilder {
    /// Creates a batch with no semaphores and no binds.
    pub fn new() -> (r: SubmitBindSparseBatchBuilder)
        ensures
            r.wait_semaphores@ == Seq::<Semaphore>::empty(),
            r.signal_semaphores@ == Seq::<Semaphore>::empty(),
            r.buffer_binds@ == Seq::<SubmitBindSparseBufferBindBuilder>::empty(),
            r.image_opaque_binds@ == Seq::<SubmitBindSparseImageOpaqueBindBuilder>::empty(),
            r.image_binds@ == Seq::<SubmitBindSparseImageBindBuilder>::empty(),
    {
        SubmitBindSparseBatchBuilder {
            wait_semaphores: Vec::new(),
            signal_semaphores: Vec::new(),
            buffer_binds: Vec::new(),
            image_opaque_binds: Vec::new(),
            image_binds: Vec::new(),
        }
    }

    /// Appends a wait on `semaphore`, after every wait added so far.
    pub fn add_wait_semaphore(&mut self, semaphore: Semaphore)
        ensures
            final(self).wait_semaphores@ == old(self).wait_semaphores@.push(semaphore),
            final(self).signal_semaphores == old(self).signal_semaphores,
            final(self).buffer_binds == old(self).buffer_binds,
            final(self).image_opaque_binds == old(self).image_opaque_binds,
            final(self).image_binds == old(self).image_binds,
    {
        self.wait_semaphores.push(semaphore);
    }

    /// Appends `semaphore` to the signals, after every signal added so far.
    pub fn add_signal_semaphore(&mut self, semaphore: Semaphore)
        ensures
            final(self).signal_semaphores@ == old(self).signal_semaphores@.push(semaphore),
            final(self).wait_semaphores == old(self).wait_semaphores,
            final(self).buffer_binds == old(self).buffer_binds,
            final(self).image_opaque_binds == old(self).image_opaque_binds,
            final(self).image_binds == old(self).image_binds,
    {
        self.signal_semaphores.push(semaphore);
    }

    /// Appends the buffer bind group `buffer`, after every group added so
    /// far. A group with no binds is a caller error and must be elided by
    /// the caller before the flush; it is not checked here.
    pub fn add_buffer(&mut self, buffer: SubmitBindSparseBufferBindBuilder)
        ensures
            final(self).buffer_binds@ == old(self).buffer_binds@.push(buffer),
            final(self).wait_semaphores == old(self).wait_semaphores,
            final(self).signal_semaphores == old(self).signal_semaphores,
            final(self).image_opaque_binds == old(self).image_opaque_binds,
            final(self).image_binds == old(self).image_binds,
    {
        self.buffer_binds.push(buffer);
    }

    /// Appends the image-opaque bind group `image`, after every group added
    /// so far.
    pub fn add_image_opaque(&mut self, image: SubmitBindSparseImageOpaqueBindBuilder)
        ensures
            final(self).image_opaque_binds@ == old(self).image_opaque_binds@.push(image),
            final(self).wait_semaphores == old(self).wait_semaphores,
            final(self).signal_semaphores == old(self).signal_semaphores,
            final(self).buffer_binds == old(self).buffer_binds,
            final(self).image_binds == old(self).image_binds,
    {
        self.image_opaque_binds.push(image);
    }

    /// Appends the subresource-aware image bind group `image`, after every
    /// group added so far.
    pub fn add_image(&mut self, image: SubmitBindSparseImageBindBuilder)
        ensures
            final(self).image_binds@ == old(self).image_binds@.push(image),
            final(self).wait_semaphores == old(self).wait_semaphores,
            final(self).signal_semaphores == old(self).signal_semaphores,
            final(self).buffer_binds == old(self).buffer_binds,
            final(self).image_opaque_binds == old(self).image_opaque_binds,
    {
        self.image_binds.push(image);
    }
}

/// The one driver call a flushed [`SubmitBindSparseBuilder`] turns into:
/// every accumulated batch, in insertion order, and the fence if one was
/// set.
#[derive(Clone, Debug)]
pub struct BindSparseCall {
    /// The queue the call is submitted to.
    pub queue: Queue,
    /// The batches of the call, exactly as accumulated.
    pub batches: Vec<SubmitBindSparseBatchBuilder>,
    /// The fence signaled when the whole call has finished, if one was set.
    pub fence: Option<Fence>,
}

/// Accumulates an ordered list of sparse bind batches and at most one
/// fence, and flushes them as a single sparse bind call.
#[derive(Clone, Debug)]
pub struct SubmitBindSparseBuilder {
    /// The batches accumulated so far, in the order they were added.
    pub batches: Vec<SubmitBindSparseBatchBuilder>,
    /// The fence attached to the call, if [`Self::set_fence`] was called.
    pub fence: Option<Fence>,
}

impl SubmitBindSparseBuilder {
    /// Creates a builder with no batches and no fence.
    pub fn new() -> (r: SubmitBindSparseBuilder)
        ensures
            r.batches@ == Seq::<SubmitBindSparseBatchBuilder>::empty(),
            r.fence is None,
    {
        SubmitBindSparseBuilder { batches: Vec::new(), fence: None }
    }

    /// Appends `batch` after every batch added so far.
    pub fn add_batch(&mut self, batch: SubmitBindSparseBatchBuilder)
        ensures
            final(self).batches@ == old(self).batches@.push(batch),
            final(self).fence == old(self).fence,
    {
        self.batches.push(batch);
    }

    /// Attaches `fence` to the call. At most one fence is allowed: if one is
    /// already attached, the call fails with a usage error and the fence
    /// already attached stays exactly as it was.
    pub fn set_fence(&mut self, fence: Fence) -> (r: Result<(), UsageError>)
        ensures
            old(self).fence is None ==> {
                &&& r is Ok
                &&& final(self).fence == Some(fence)
                &&& final(self).batches == old(self).batches
            },
            old(self).fence is Some ==> {
                &&& r == Err::<(), UsageError>(UsageError::FenceAlreadySet)
                &&& *final(self) == *old(self)
            },
    {
        if self.fence.is_some() {
            Err(UsageError::FenceAlreadySet)
        } else {
            self.fence = Some(fence);
            Ok(())
        }
    }

    /// Fuses the waits of a pending wait-only builder into the first batch:
    /// the pending semaphores come first, in their own order, followed by
    /// every wait the first batch already held, in its order. A sparse bind
    /// waits on whole semaphores, so the pipeline-stage masks of the
    /// pending waits are dropped. With no batch to receive the waits the
    /// call fails with a usage error and changes nothing.
    pub fn merge_semaphores_wait(&mut self, pending: SubmitSemaphoresWaitBuilder) -> (r: Result<
        (),
        UsageError,
    >)
        ensures
            old(self).batches@.len() == 0 ==> {
                &&& r == Err::<(), UsageError>(UsageError::NoBatchForWaits)
                &&& *final(self) == *old(self)
            },
            old(self).batches@.len() > 0 ==> {
                &&& r is Ok
                &&& final(self).batches@.len() == old(self).batches@.len()
                &&& final(self).batches@[0].wait_semaphores@ == pending.waits@.map_values(
                    |w: (Semaphore, u32)| w.0,
                ) + old(self).batches@[0].wait_semaphores@
                &&& final(self).batches@[0].signal_semaphores == old(
                    self,
                ).batches@[0].signal_semaphores
                &&& final(self).batches@[0].buffer_binds == old(self).batches@[0].buffer_binds
                &&& final(self).batches@[0].image_opaque_binds == old(
                    self,
                ).batches@[0].image_opaque_binds
                &&& final(self).batches@[0].image_binds == old(self).batches@[0].image_binds
                &&& forall|i: int|
                    1 <= i < old(self).batches@.len() ==> final(self).batches@[i] == old(
                        self,
                    ).batches@[i]
                &&& final(self).fence == old(self).fence
            },
    {
        if self.batches.is_empty() {
            return Err(UsageError::NoBatchForWaits);
        }
        let mut first = self.batches.remove(0);
        let mut waits: Vec<Semaphore> = Vec::new();
        let n = pending.waits.len();
        for k in 0..n
            invariant
                n == pending.waits@.len(),
                waits@.len() == k,
                forall|i: int| 0 <= i < k ==> waits@[i] == pending.waits@[i].0,
        {
            waits.push(pending.waits[k].0);
        }
        waits.append(&mut first.wait_semaphores);
        first.wait_semaphores = waits;
        self.batches.insert(0, first);
        proof {
            assert(self.batches@ =~= old(self).batches@.update(0, self.batches@[0]));
            assert(self.batches@[0].wait_semaphores@ =~= pending.waits@.map_values(
                |w: (Semaphore, u32)| w.0,
            ) + old(self).batches@[0].wait_semaphores@);
        }
        Ok(())
    }

    /// Consumes the builder into the one driver call it was accumulated
    /// for: all batches in insertion order, the fence if one was set.
    pub fn flush(self, queue: Queue) -> (call: BindSparseCall)
        ensures
            call.queue == queue,
            call.batches == self.batches,
            call.fence == self.fence,
    {
        BindSparseCall { queue, batches: self.batches, fence: self.fence }
    }
}

} // verus!

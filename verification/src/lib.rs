//! Low-level builders that batch work for submission to a driver queue.
//!
//! A submission cycle accumulates synchronization dependencies (semaphore
//! waits and signals, an optional fence) and payloads (command buffers,
//! presentation requests, sparse memory binds) into one of the builders of
//! this crate, then flushes the builder into a single queue call that lists
//! everything in exactly the order it was added. Each builder is created
//! empty, filled by the one thread preparing work for its queue, consumed by
//! one flush and then discarded; none is reused.
//!
//! [`SubmitAnyBuilder`] holds the at most one submission pending at a time
//! and fuses a pending wait-only value into the real submission that
//! follows it, so that a wait inherited from earlier work costs no queue
//! call of its own.

use vstd::prelude::*;

mod bind_sparse;
mod errors;
mod handles;
mod queue_present;
mod queue_submit;
mod semaphores_wait;

pub use bind_sparse::BindSparseCall;
pub use bind_sparse::SparseImageMemoryBind;
pub use bind_sparse::SparseMemoryBind;
pub use bind_sparse::SubmitBindSparseBatchBuilder;
pub use bind_sparse::SubmitBindSparseBufferBindBuilder;
pub use bind_sparse::SubmitBindSparseBuilder;
pub use bind_sparse::SubmitBindSparseImageBindBuilder;
pub use bind_sparse::SubmitBindSparseImageOpaqueBindBuilder;
pub use errors::DriverError;
pub use errors::SurfaceStatus;
pub use errors::UsageError;
pub use handles::Buffer;
pub use handles::CommandBuffer;
pub use handles::DeviceMemory;
pub use handles::Fence;
pub use handles::Image;
pub use handles::Queue;
pub use handles::Semaphore;
pub use handles::Swapchain;
pub use queue_present::QueuePresentCall;
pub use queue_present::SubmitPresentBuilder;
pub use queue_present::collect_present_results;
pub use queue_present::first_failure;
pub use queue_submit::BatchAccumulateOp;
pub use queue_submit::CommandBufferBatch;
pub use queue_submit::QueueSubmitCall;
pub use queue_submit::SubmitCommandBufferBuilder;
pub use queue_submit::lemma_accumulate_preserves_insertion_order;
pub use queue_submit::signal_entries;
pub use queue_submit::signals_after;
pub use queue_submit::wait_entries;
pub use queue_submit::waits_after;
pub use semaphores_wait::SubmitSemaphoresWaitBuilder;

verus! {

/// The possible contents of the one pending submission slot: nothing, a
/// wait-only prototype, or one of the three real submission builders.
///
/// At most one value is pending at a time. A pending wait-only value is
/// fused into the real builder that follows it by [`SubmitAnyBuilder::merge`];
/// a pending real builder must be flushed before the next value can take
/// its place, and two real builders are never combined.
#[derive(Debug)]
pub enum SubmitAnyBuilder {
    Empty,
    SemaphoresWait(SubmitSemaphoresWaitBuilder),
    CommandBuffer(SubmitCommandBufferBuilder),
    QueuePresent(SubmitPresentBuilder),
    BindSparse(SubmitBindSparseBuilder),
}

impl SubmitAnyBuilder {
    /// True exactly of `SubmitAnyBuilder::Empty`.
    pub open spec fn spec_is_empty(self) -> bool {
        self is Empty
    }

    /// A command-buffer builder in the slot always holds its first batch.
    pub open spec fn wf(self) -> bool {
        match self {
            SubmitAnyBuilder::CommandBuffer(cb) => cb.wf(),
            _ => true,
        }
    }

    /// Returns true if equal to `SubmitAnyBuilder::Empty`.
    pub fn is_empty(&self) -> (r: bool)
        ensures
            r == self.spec_is_empty(),
    {
        matches!(self, SubmitAnyBuilder::Empty)
    }

    /// Fuses a pending wait-only value (`self`) into the real builder that
    /// follows it (`next`), replacing the contents of the slot with `next`
    /// carrying the pending waits in front of its own first waits.
    ///
    /// Only that one fusion exists: when the pending value is not
    /// wait-only, or `next` is not a real builder, or `next` is a
    /// sparse-bind builder with no batch to receive the waits, the call
    /// fails with the matching usage error and the slot keeps the pending
    /// value unchanged.
    pub fn merge(&mut self, next: SubmitAnyBuilder) -> (r: Result<(), UsageError>)
        requires
            next.wf(),
        ensures
            !(*old(self) is SemaphoresWait) ==> {
                &&& r == Err::<(), UsageError>(UsageError::PendingNotWaitOnly)
                &&& *final(self) == *old(self)
            },
            *old(self) is SemaphoresWait && (next is Empty || next is SemaphoresWait) ==> {
                &&& r == Err::<(), UsageError>(UsageError::NothingToMergeInto)
                &&& *final(self) == *old(self)
            },
            *old(self) is SemaphoresWait ==> (next matches SubmitAnyBuilder::BindSparse(b) ==> (
            b.batches@.len() == 0 ==> {
                &&& r == Err::<(), UsageError>(UsageError::NoBatchForWaits)
                &&& *final(self) == *old(self)
            })),
            *old(self) matches SubmitAnyBuilder::SemaphoresWait(w) ==> (next matches
                SubmitAnyBuilder::CommandBuffer(cb) ==> {
                &&& r is Ok
                &&& *final(self) matches SubmitAnyBuilder::CommandBuffer(m)
                &&& m.batches@.len() == cb.batches@.len()
                &&& m.batches@[0].wait_semaphores@ == w.waits@ + cb.batches@[0].wait_semaphores@
                &&& m.batches@[0].command_buffers == cb.batches@[0].command_buffers
                &&& m.batches@[0].signal_semaphores == cb.batches@[0].signal_semaphores
                &&& forall|i: int| 1 <= i < cb.batches@.len() ==> m.batches@[i] == cb.batches@[i]
                &&& m.fence == cb.fence
            }),
            *old(self) matches SubmitAnyBuilder::SemaphoresWait(w) ==> (next matches
                SubmitAnyBuilder::QueuePresent(p) ==> {
                &&& r is Ok
                &&& *final(self) matches SubmitAnyBuilder::QueuePresent(m)
                &&& m.wait_semaphores@ == w.waits@.map_values(|q: (Semaphore, u32)| q.0)
                    + p.wait_semaphores@
                &&& m.swapchains == p.swapchains
            }),
            *old(self) matches SubmitAnyBuilder::SemaphoresWait(w) ==> (next matches
                SubmitAnyBuilder::BindSparse(b) ==> (b.batches@.len() > 0 ==> {
                &&& r is Ok
                &&& *final(self) matches SubmitAnyBuilder::BindSparse(m)
                &&& m.batches@.len() == b.batches@.len()
                &&& m.batches@[0].wait_semaphores@ == w.waits@.map_values(
                    |q: (Semaphore, u32)| q.0,
                ) + b.batches@[0].wait_semaphores@
                &&& m.batches@[0].signal_semaphores == b.batches@[0].signal_semaphores
                &&& m.batches@[0].buffer_binds == b.batches@[0].buffer_binds
                &&& m.batches@[0].image_opaque_binds == b.batches@[0].image_opaque_binds
                &&& m.batches@[0].image_binds == b.batches@[0].image_binds
                &&& forall|i: int| 1 <= i < b.batches@.len() ==> m.batches@[i] == b.batches@[i]
                &&& m.fence == b.fence
            })),
    {
        let mut pending = SubmitAnyBuilder::Empty;
        core::mem::swap(self, &mut pending);
        match (pending, next) {
            (SubmitAnyBuilder::SemaphoresWait(w), SubmitAnyBuilder::CommandBuffer(mut cb)) => {
                cb.merge_semaphores_wait(w);
                *self = SubmitAnyBuilder::CommandBuffer(cb);
                Ok(())
            },
            (SubmitAnyBuilder::SemaphoresWait(w), SubmitAnyBuilder::QueuePresent(mut p)) => {
                p.merge_semaphores_wait(w);
                *self = SubmitAnyBuilder::QueuePresent(p);
                Ok(())
            },
            (SubmitAnyBuilder::SemaphoresWait(w), SubmitAnyBuilder::BindSparse(mut b)) => {
                if b.batches.is_empty() {
                    *self = SubmitAnyBuilder::SemaphoresWait(w);
                    Err(UsageError::NoBatchForWaits)
                } else {
                    let _merged = b.merge_semaphores_wait(w);
                    *self = SubmitAnyBuilder::BindSparse(b);
                    Ok(())
                }
            },
            (SubmitAnyBuilder::SemaphoresWait(w), _) => {
                *self = SubmitAnyBuilder::SemaphoresWait(w);
                Err(UsageError::NothingToMergeInto)
            },
            (prev, _) => {
                *self = prev;
                Err(UsageError::PendingNotWaitOnly)
            },
        }
    }
}

/// The pending slot is empty exactly when it holds `Empty`: whatever waits,
/// payloads or batches a builder was filled with — including none at all —
/// assigning it into the slot makes the slot report non-empty.
pub proof fn lemma_union_emptiness(
    w: SubmitSemaphoresWaitBuilder,
    cb: SubmitCommandBufferBuilder,
    p: SubmitPresentBuilder,
    b: SubmitBindSparseBuilder,
)
    ensures
        SubmitAnyBuilder::Empty.spec_is_empty(),
        !SubmitAnyBuilder::SemaphoresWait(w).spec_is_empty(),
        !SubmitAnyBuilder::CommandBuffer(cb).spec_is_empty(),
        !SubmitAnyBuilder::QueuePresent(p).spec_is_empty(),
        !SubmitAnyBuilder::BindSparse(b).spec_is_empty(),
{
}

} // verus!

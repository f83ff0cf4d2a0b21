//! Builder for a command-buffer submission call.

use vstd::prelude::*;

use crate::errors::UsageError;
use crate::handles::CommandBuffer;
use crate::handles::Fence;
use crate::handles::Queue;
use crate::handles::Semaphore;
use crate::semaphores_wait::SubmitSemaphoresWaitBuilder;

verus! {

/// One batch of a command-buffer submission: a group of command buffers
/// sharing one set of semaphore waits and one set of semaphore signals.
///
/// The waits and signals of a batch constrain that batch alone; across
/// batches of one call, command-buffer execution follows batch order on the
/// queue. A batch with no command buffers is legal and relays semaphores
/// only.
#[derive(Clone, Debug)]
pub struct CommandBufferBatch {
    /// `(semaphore, destination pipeline-stage mask)` pairs the batch waits
    /// on before it runs, in the order they were added.
    pub wait_semaphores: Vec<(Semaphore, u32)>,
    /// Command buffers executed by this batch, in the order they were added.
    pub command_buffers: Vec<CommandBuffer>,
    /// Semaphores signaled when the batch has finished, in the order they
    /// were added.
    pub signal_semaphores: Vec<Semaphore>,
}

impl CommandBufferBatch {
    /// True of a batch with no waits, no command buffers and no signals.
    pub open spec fn is_blank(self) -> bool {
        &&& self.wait_semaphores@.len() == 0
        &&& self.command_buffers@.len() == 0
        &&& self.signal_semaphores@.len() == 0
    }

    /// Creates a batch with nothing in it.
    pub fn new() -> (r: CommandBufferBatch)
        ensures
            r.is_blank(),
    {
        CommandBufferBatch {
            wait_semaphores: Vec::new(),
            command_buffers: Vec::new(),
            signal_semaphores: Vec::new(),
        }
    }
}

/// One accumulate call on the batch currently being filled: a wait on a
/// semaphore at some pipeline stages, or a signal of a semaphore.
pub enum BatchAccumulateOp {
    Wait(Semaphore, u32),
    Signal(Semaphore),
}

/// The wait entries among the calls in `ops`, in call order.
pub open spec fn wait_entries(ops: Seq<BatchAccumulateOp>) -> Seq<(Semaphore, u32)>
    decreases ops.len(),
{
    if ops.len() == 0 {
        Seq::empty()
    } else {
        match ops[0] {
            BatchAccumulateOp::Wait(s, m) => seq![(s, m)] + wait_entries(ops.drop_first()),
            BatchAccumulateOp::Signal(_) => wait_entries(ops.drop_first()),
        }
    }
}

/// The signal entries among the calls in `ops`, in call order.
pub open spec fn signal_entries(ops: Seq<BatchAccumulateOp>) -> Seq<Semaphore>
    decreases ops.len(),
{
    if ops.len() == 0 {
        Seq::empty()
    } else {
        match ops[0] {
            BatchAccumulateOp::Wait(_, _) => signal_entries(ops.drop_first()),
            BatchAccumulateOp::Signal(s) => seq![s] + signal_entries(ops.drop_first()),
        }
    }
}

/// The wait list of a batch that held `waits` after the calls in `ops` have
/// been applied to it, each one appending as
/// [`SubmitCommandBufferBuilder::add_wait_semaphore`] does.
pub open spec fn waits_after(
    waits: Seq<(Semaphore, u32)>,
    ops: Seq<BatchAccumulateOp>,
) -> Seq<(Semaphore, u32)>
    decreases ops.len(),
{
    if ops.len() == 0 {
        waits
    } else {
        match ops[0] {
            BatchAccumulateOp::Wait(s, m) => waits_after(waits.push((s, m)), ops.drop_first()),
            BatchAccumulateOp::Signal(_) => waits_after(waits, ops.drop_first()),
        }
    }
}

/// The signal list of a batch that held `signals` after the calls in `ops`
/// have been applied to it, each one appending as
/// [`SubmitCommandBufferBuilder::add_signal_semaphore`] does.
pub open spec fn signals_after(
    signals: Seq<Semaphore>,
    ops: Seq<BatchAccumulateOp>,
) -> Seq<Semaphore>
    decreases ops.len(),
{
    if ops.len() == 0 {
        signals
    } else {
        match ops[0] {
            BatchAccumulateOp::Wait(_, _) => signals_after(signals, ops.drop_first()),
            BatchAccumulateOp::Signal(s) => signals_after(signals.push(s), ops.drop_first()),
        }
    }
}

/// Order preservation: however wait and signal accumulate calls are
/// interleaved, the entries a batch already held stay in place and the new
/// entries follow them in exactly the order of the calls — the waits among
/// them in call order, and the signals among them in call order. Since
/// [`SubmitCommandBufferBuilder::flush`] hands the batch array over
/// unchanged, the flushed call lists every entry in insertion order.
pub proof fn lemma_accumulate_preserves_insertion_order(
    waits: Seq<(Semaphore, u32)>,
    signals: Seq<Semaphore>,
    ops: Seq<BatchAccumulateOp>,
)
    ensures
        waits_after(waits, ops) == waits + wait_entries(ops),
        signals_after(signals, ops) == signals + signal_entries(ops),
    decreases ops.len(),
{
    if ops.len() == 0 {
        assert(waits_after(waits, ops) =~= waits + wait_entries(ops));
        assert(signals_after(signals, ops) =~= signals + signal_entries(ops));
    } else {
        let rest = ops.drop_first();
        match ops[0] {
            BatchAccumulateOp::Wait(s, m) => {
                lemma_accumulate_preserves_insertion_order(waits.push((s, m)), signals, rest);
                assert(waits.push((s, m)) + wait_entries(rest) =~= waits + wait_entries(ops));
            },
            BatchAccumulateOp::Signal(s) => {
                lemma_accumulate_preserves_insertion_order(waits, signals.push(s), rest);
                assert(signals.push(s) + signal_entries(rest) =~= signals + signal_entries(ops));
            },
        }
    }
}

/// The one driver call a flushed [`SubmitCommandBufferBuilder`] turns into:
/// every accumulated batch, in insertion order, and the fence if one was set.
#[derive(Clone, Debug)]
pub struct QueueSubmitCall {
    /// The queue the call is submitted to.
    pub queue: Queue,
    /// The batches of the call, exactly as accumulated.
    pub batches: Vec<CommandBufferBatch>,
    /// The fence signaled when the whole call has finished, if one was set.
    pub fence: Option<Fence>,
}

/// Accumulates an ordered list of command-buffer batches and at most one
/// fence, and flushes them as a single queue-submission call.
///
/// A fresh builder holds one blank batch; every accumulate call appends to
/// the batch opened last, and [`Self::start_new_batch`] opens the next one.
/// The builder is consumed by [`Self::flush`] and never reused.
#[derive(Clone, Debug)]
pub struct SubmitCommandBufferBuilder {
    /// The batches accumulated so far; the last one is still being filled.
    pub batches: Vec<CommandBufferBatch>,
    /// The fence attached to the call, if [`Self::set_fence`] was called.
    pub fence: Option<Fence>,
}

impl SubmitCommandBufferBuilder {
    /// A builder always holds at least the batch currently being filled.
    pub open spec fn wf(self) -> bool {
        self.batches@.len() >= 1
    }

    /// The batch currently being filled.
    pub open spec fn current_batch(self) -> CommandBufferBatch {
        self.batches@.last()
    }

    /// Creates a builder with one blank batch and no fence.
    pub fn new() -> (r: SubmitCommandBufferBuilder)
        ensures
            r.wf(),
            r.batches@.len() == 1,
            r.batches@[0].is_blank(),
            r.fence is None,
    {
        let mut batches: Vec<CommandBufferBatch> = Vec::new();
        batches.push(CommandBufferBatch::new());
        SubmitCommandBufferBuilder { batches, fence: None }
    }

    /// Closes the batch currently being filled and opens a blank one after
    /// it; later accumulate calls go to the new batch.
    pub fn start_new_batch(&mut self)
        requires
            old(self).wf(),
        ensures
            final(self).wf(),
            final(self).batches@.len() == old(self).batches@.len() + 1,
            forall|i: int|
                0 <= i < old(self).batches@.len() ==> final(self).batches@[i] == old(
                    self,
                ).batches@[i],
            final(self).current_batch().is_blank(),
            final(self).fence == old(self).fence,
    {
        self.batches.push(CommandBufferBatch::new());
    }

    /// Appends a wait on `semaphore`, applying to the pipeline stages in
    /// `stages`, to the current batch, after every wait that batch already
    /// holds.
    pub fn add_wait_semaphore(&mut self, semaphore: Semaphore, stages: u32)
        requires
            old(self).wf(),
        ensures
            final(self).wf(),
            final(self).batches@.len() == old(self).batches@.len(),
            forall|i: int|
                0 <= i < old(self).batches@.len() - 1 ==> final(self).batches@[i] == old(
                    self,
                ).batches@[i],
            final(self).current_batch().wait_semaphores@ == old(
                self,
            ).current_batch().wait_semaphores@.push((semaphore, stages)),
            final(self).current_batch().command_buffers == old(
                self,
            ).current_batch().command_buffers,
            final(self).current_batch().signal_semaphores == old(
                self,
            ).current_batch().signal_semaphores,
            final(self).fence == old(self).fence,
    {
        let mut batch = self.batches.pop().unwrap();
        batch.wait_semaphores.push((semaphore, stages));
        self.batches.push(batch);
    }

    /// Appends `command_buffer` to the current batch, after every command
    /// buffer that batch already holds.
    pub fn add_command_buffer(&mut self, command_buffer: CommandBuffer)
        requires
            old(self).wf(),
        ensures
            final(self).wf(),
            final(self).batches@.len() == old(self).batches@.len(),
            forall|i: int|
                0 <= i < old(self).batches@.len() - 1 ==> final(self).batches@[i] == old(
                    self,
                ).batches@[i],
            final(self).current_batch().command_buffers@ == old(
                self,
            ).current_batch().command_buffers@.push(command_buffer),
            final(self).current_batch().wait_semaphores == old(
                self,
            ).current_batch().wait_semaphores,
            final(self).current_batch().signal_semaphores == old(
                self,
            ).current_batch().signal_semaphores,
            final(self).fence == old(self).fence,
    {
        let mut batch = self.batches.pop().unwrap();
        batch.command_buffers.push(command_buffer);
        self.batches.push(batch);
    }

    /// Appends `semaphore` to the signals of the current batch, after every
    /// signal that batch already holds.
    pub fn add_signal_semaphore(&mut self, semaphore: Semaphore)
        requires
            old(self).wf(),
        ensures
            final(self).wf(),
            final(self).batches@.len() == old(self).batches@.len(),
            forall|i: int|
                0 <= i < old(self).batches@.len() - 1 ==> final(self).batches@[i] == old(
                    self,
                ).batches@[i],
            final(self).current_batch().signal_semaphores@ == old(
                self,
            ).current_batch().signal_semaphores@.push(semaphore),
            final(self).current_batch().wait_semaphores == old(
                self,
            ).current_batch().wait_semaphores,
            final(self).current_batch().command_buffers == old(
                self,
            ).current_batch().command_buffers,
            final(self).fence == old(self).fence,
    {
        let mut batch = self.batches.pop().unwrap();
        batch.signal_semaphores.push(semaphore);
        self.batches.push(batch);
    }

    /// Attaches `fence` to the call. At most one fence is allowed: if one is
    /// already attached, the call fails with a usage error and the fence
    /// already attached stays exactly as it was.
    pub fn set_fence(&mut self, fence: Fence) -> (r: Result<(), UsageError>)
        ensures
            old(self).fence is None ==> {
                &&& r is Ok
                &&& final(self).fence == Some(fence)
                &&& final(self).batches == old(self).batches
            },
            old(self).fence is Some ==> {
                &&& r == Err::<(), UsageError>(UsageError::FenceAlreadySet)
                &&& *final(self) == *old(self)
            },
    {
        if self.fence.is_some() {
            Err(UsageError::FenceAlreadySet)
        } else {
            self.fence = Some(fence);
            Ok(())
        }
    }

    /// Fuses the waits of a pending wait-only builder into the first batch:
    /// the pending waits come first, in their own order, followed by every
    /// wait the first batch already held, in its order. If the pending
    /// builder held `n` waits and the first batch `m`, the first batch holds
    /// exactly `n + m` waits afterwards. Nothing else changes.
    pub fn merge_semaphores_wait(&mut self, pending: SubmitSemaphoresWaitBuilder)
        requires
            old(self).wf(),
        ensures
            final(self).wf(),
            final(self).batches@.len() == old(self).batches@.len(),
            final(self).batches@[0].wait_semaphores@ == pending.waits@ + old(
                self,
            ).batches@[0].wait_semaphores@,
            final(self).batches@[0].wait_semaphores@.len() == pending.waits@.len() + old(
                self,
            ).batches@[0].wait_semaphores@.len(),
            forall|i: int|
                0 <= i < pending.waits@.len() ==> final(self).batches@[0].wait_semaphores@[i]
                    == pending.waits@[i],
            final(self).batches@[0].command_buffers == old(self).batches@[0].command_buffers,
            final(self).batches@[0].signal_semaphores == old(self).batches@[0].signal_semaphores,
            forall|i: int|
                1 <= i < old(self).batches@.len() ==> final(self).batches@[i] == old(
                    self,
                ).batches@[i],
            final(self).fence == old(self).fence,
    {
        let mut first = self.batches.remove(0);
        let mut waits = pending.waits;
        waits.append(&mut first.wait_semaphores);
        first.wait_semaphores = waits;
        self.batches.insert(0, first);
        proof {
            assert(self.batches@ =~= old(self).batches@.update(
                0,
                self.batches@[0],
            ));
        }
    }

    /// Consumes the builder into the one driver call it was accumulated
    /// for: all batches in insertion order, the fence if one was set.
    pub fn flush(self, queue: Queue) -> (call: QueueSubmitCall)
        ensures
            call.queue == queue,
            call.batches == self.batches,
            call.fence == self.fence,
    {
        QueueSubmitCall { queue, batches: self.batches, fence: self.fence }
    }
}

} // verus!

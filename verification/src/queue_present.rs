//! Builder for a presentation call.

use vstd::prelude::*;

use crate::errors::DriverError;
use crate::errors::SurfaceStatus;
use crate::handles::Queue;
use crate::handles::Semaphore;
use crate::handles::Swapchain;
use crate::semaphores_wait::SubmitSemaphoresWaitBuilder;

verus! {

/// The one driver call a flushed [`SubmitPresentBuilder`] turns into: every
/// `(swapchain, image index)` pair and every wait, in insertion order.
#[derive(Clone, Debug)]
pub struct QueuePresentCall {
    /// The queue the call is submitted to.
    pub queue: Queue,
    /// Semaphores the whole call waits on before any image is presented.
    pub wait_semaphores: Vec<Semaphore>,
    /// The images presented by the call: `(swapchain, image index)` pairs.
    pub swapchains: Vec<(Swapchain, u32)>,
}

/// Accumulates `(swapchain, image index)` pairs and the semaphore waits they
/// share, and flushes them as a single presentation call.
///
/// The driver answers a presentation with one status code per presented
/// image; [`collect_present_results`] turns those per-surface codes into the
/// caller-facing result without collapsing them, since a caller presenting
/// to several surfaces must react to each one separately.
#[derive(Clone, Debug)]
pub struct SubmitPresentBuilder {
    /// Semaphores waited on before presenting, in the order they were added.
    pub wait_semaphores: Vec<Semaphore>,
    /// `(swapchain, image index)` pairs, in the order they were added.
    pub swapchains: Vec<(Swapchain, u32)>,
}

impl SubmitPresentBuilder {
    /// Creates a builder with no waits and nothing to present.
    pub fn new() -> (r: SubmitPresentBuilder)
        ensures
            r.wait_semaphores@ == Seq::<Semaphore>::empty(),
            r.swapchains@ == Seq::<(Swapchain, u32)>::empty(),
    {
        SubmitPresentBuilder { wait_semaphores: Vec::new(), swapchains: Vec::new() }
    }

    /// Appends a wait on `semaphore`, after every wait added so far.
    pub fn add_wait_semaphore(&mut self, semaphore: Semaphore)
        ensures
            final(self).wait_semaphores@ == old(self).wait_semaphores@.push(semaphore),
            final(self).swapchains == old(self).swapchains,
    {
        self.wait_semaphores.push(semaphore);
    }

    /// Appends the presentation of image `image_index` of `swapchain`, after
    /// every pair added so far.
    pub fn add_swapchain(&mut self, swapchain: Swapchain, image_index: u32)
        ensures
            final(self).swapchains@ == old(self).swapchains@.push((swapchain, image_index)),
            final(self).wait_semaphores == old(self).wait_semaphores,
    {
        self.swapchains.push((swapchain, image_index));
    }

    /// Fuses the waits of a pending wait-only builder into this call: the
    /// pending semaphores come first, in their own order, followed by every
    /// wait already held, in its order. A presentation waits on whole
    /// semaphores, so the pipeline-stage masks of the pending waits are
    /// dropped. Nothing else changes.
    pub fn merge_semaphores_wait(&mut self, pending: SubmitSemaphoresWaitBuilder)
        ensures
            final(self).wait_semaphores@ == pending.waits@.map_values(
                |w: (Semaphore, u32)| w.0,
            ) + old(self).wait_semaphores@,
            final(self).swapchains == old(self).swapchains,
    {
        let mut waits: Vec<Semaphore> = Vec::new();
        let n = pending.waits.len();
        for k in 0..n
            invariant
                n == pending.waits@.len(),
                waits@.len() == k,
                forall|i: int| 0 <= i < k ==> waits@[i] == pending.waits@[i].0,
        {
            waits.push(pending.waits[k].0);
        }
        waits.append(&mut self.wait_semaphores);
        self.wait_semaphores = waits;
        proof {
            assert(self.wait_semaphores@ =~= pending.waits@.map_values(
                |w: (Semaphore, u32)| w.0,
            ) + old(self).wait_semaphores@);
        }
    }

    /// Consumes the builder into the one driver call it was accumulated
    /// for: every pair and every wait, in insertion order.
    pub fn flush(self, queue: Queue) -> (call: QueuePresentCall)
        ensures
            call.queue == queue,
            call.wait_semaphores == self.wait_semaphores,
            call.swapchains == self.swapchains,
    {
        QueuePresentCall {
            queue,
            wait_semaphores: self.wait_semaphores,
            swapchains: self.swapchains,
        }
    }
}

/// The first hard error among the per-surface codes the driver returned, or
/// `None` when every surface came back with a status.
pub open spec fn first_failure(codes: Seq<Result<SurfaceStatus, DriverError>>) -> Option<
    DriverError,
>
    decreases codes.len(),
{
    if codes.len() == 0 {
        None
    } else {
        match codes[0] {
            Err(e) => Some(e),
            Ok(_) => first_failure(codes.drop_first()),
        }
    }
}

proof fn lemma_first_failure_skip(codes: Seq<Result<SurfaceStatus, DriverError>>, i: int)
    requires
        0 <= i <= codes.len(),
        forall|j: int| 0 <= j < i ==> codes[j] is Ok,
    ensures
        first_failure(codes) == first_failure(codes.skip(i)),
    decreases i,
{
    if i > 0 {
        lemma_first_failure_skip(codes, i - 1);
        assert(codes.skip(i - 1)[0] == codes[i - 1]);
        assert(codes.skip(i - 1).drop_first() =~= codes.skip(i));
        assert(first_failure(codes.skip(i - 1)) == first_failure(codes.skip(i)));
    } else {
        assert(codes.skip(0) =~= codes);
    }
}

/// Turns the per-surface codes the driver returned for one presentation
/// call into the caller-facing result: the first hard error if there is
/// one, and otherwise every per-surface status, in call order and none of
/// them demoted by the others.
pub fn collect_present_results(codes: Vec<Result<SurfaceStatus, DriverError>>) -> (r: Result<
    Vec<SurfaceStatus>,
    DriverError,
>)
    ensures
        r is Err <==> first_failure(codes@) is Some,
        r is Err ==> r == Err::<Vec<SurfaceStatus>, DriverError>(first_failure(codes@).unwrap()),
        r matches Ok(statuses) ==> {
            &&& statuses@.len() == codes@.len()
            &&& forall|i: int|
                0 <= i < codes@.len() ==> codes@[i] == Ok::<SurfaceStatus, DriverError>(
                    statuses@[i],
                )
        },
{
    let mut statuses: Vec<SurfaceStatus> = Vec::new();
    let n = codes.len();
    for k in 0..n
        invariant
            n == codes@.len(),
            statuses@.len() == k,
            forall|j: int| 0 <= j < k ==> codes@[j] is Ok,
            forall|j: int|
                0 <= j < k ==> codes@[j] == Ok::<SurfaceStatus, DriverError>(statuses@[j]),
    {
        match codes[k] {
            Ok(status) => {
                statuses.push(status);
            },
            Err(e) => {
                proof {
                    lemma_first_failure_skip(codes@, k as int);
                    assert(codes@.skip(k as int)[0] == codes@[k as int]);
                }
                return Err(e);
            },
        }
    }
    proof {
        lemma_first_failure_skip(codes@, n as int);
        assert(codes@.skip(n as int) =~= Seq::<Result<SurfaceStatus, DriverError>>::empty());
    }
    Ok(statuses)
}

} // verus!

//! A prototype of a submission that only waits on semaphores.

use vstd::prelude::*;

use crate::handles::Semaphore;

verus! {

/// Accumulates an ordered list of semaphore waits that carry no payload.
///
/// No queue entry point accepts a wait with nothing attached to it, so this
/// builder can never be flushed on its own. It exists to be fused into the
/// next real submission through [`crate::SubmitAnyBuilder::merge`], which
/// places these waits in front of the waits that submission already holds.
/// A wait-only builder that is discarded without ever being merged is a
/// caller error: its waits would silently never be waited on.
#[derive(Clone, Debug)]
pub struct SubmitSemaphoresWaitBuilder {
    /// `(semaphore, destination pipeline-stage mask)` pairs, in call order.
    pub waits: Vec<(Semaphore, u32)>,
}

impl SubmitSemaphoresWaitBuilder {
    /// Creates a builder with no waits.
    pub fn new() -> (r: SubmitSemaphoresWaitBuilder)
        ensures
            r.waits@ == Seq::<(Semaphore, u32)>::empty(),
    {
        SubmitSemaphoresWaitBuilder { waits: Vec::new() }
    }

    /// Appends one wait on `semaphore`, applying to the pipeline stages in
    /// `stages`, after all waits added so far.
    pub fn add_wait_semaphore(&mut self, semaphore: Semaphore, stages: u32)
        ensures
            final(self).waits@ == old(self).waits@.push((semaphore, stages)),
    {
        self.waits.push((semaphore, stages));
    }

    /// Returns true if no wait has been accumulated yet.
    pub fn is_empty(&self) -> (r: bool)
        ensures
            r <==> self.waits@.len() == 0,
    {
        self.waits.is_empty()
    }
}

} // verus!

//! Error values reported by this layer.
//!
//! Usage errors are raised immediately at the offending builder call and the
//! builder is left exactly as it was. Driver errors are whatever the queue
//! entry point reported for a flushed call; they are handed to the caller
//! verbatim, since only the caller can decide how to recover.

use vstd::prelude::*;

verus! {

/// A builder rule was broken by the caller. Reported at the offending call;
/// the call has no effect on the builder.
#[derive(Clone, Copy, PartialEq, Eq, Debug)]
pub enum UsageError {
    /// A fence was already attached to this call; at most one is allowed.
    FenceAlreadySet,
    /// The pending value is not a wait-only builder: a real pending
    /// submission must be flushed before new work can be combined.
    PendingNotWaitOnly,
    /// The incoming value is empty or wait-only, so there is no real
    /// submission for the pending waits to attach to.
    NothingToMergeInto,
    /// The incoming sparse-bind builder has no batch yet, so there is no
    /// wait list for the pending waits to be placed in front of.
    NoBatchForWaits,
}

/// A hard failure reported by the driver for a flushed call.
#[derive(Clone, Copy, PartialEq, Eq, Debug)]
pub enum DriverError {
    /// The driver ran out of host memory.
    OutOfHostMemory,
    /// The driver ran out of device memory.
    OutOfDeviceMemory,
    /// The device was lost; no further work can be submitted to it.
    DeviceLost,
    /// The surface behind a swapchain is gone.
    SurfaceLost,
    /// The driver's validation rejected the call.
    ValidationFailed,
}

/// Per-surface status code of a presentation call. All of these count as a
/// completed presentation: `Suboptimal` and `OutOfDate` are data for the
/// caller, which alone decides whether to recreate the swapchain.
#[derive(Clone, Copy, PartialEq, Eq, Debug)]
pub enum SurfaceStatus {
    /// The image was presented and the swapchain still matches the surface.
    Success,
    /// The image was presented, but the swapchain no longer matches the
    /// surface exactly.
    Suboptimal,
    /// The surface has changed and the swapchain must be recreated before
    /// the next presentation to it.
    OutOfDate,
}

} // verus!

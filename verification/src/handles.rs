//! Opaque handles to the driver-side objects a submission refers to.
//!
//! The builders in this crate never own the objects behind these handles.
//! The caller keeps ownership and must keep every referenced object alive
//! until the flush that carries it has been handed to the driver; a handle
//! is only an identifier carried through unchanged.

use vstd::prelude::*;

verus! {

/// Handle to a queue: the driver-side execution context a flushed call is
/// submitted to. Submitting to the same queue from several threads at once
/// needs external mutual exclusion around the flush; this layer provides none.
#[derive(Clone, Copy, PartialEq, Eq, Debug)]
pub struct Queue {
    pub handle: u64,
}

/// Handle to a GPU-side synchronization primitive that orders work between
/// submissions on the device.
#[derive(Clone, Copy, PartialEq, Eq, Debug)]
pub struct Semaphore {
    pub handle: u64,
}

/// Handle to a CPU-observable completion primitive. At most one fence can be
/// attached to a command-buffer or sparse-bind call; it is signaled by the
/// device when the whole call has finished, for the caller to wait on later.
#[derive(Clone, Copy, PartialEq, Eq, Debug)]
pub struct Fence {
    pub handle: u64,
}

/// Handle to an already-recorded, ready-to-submit command buffer. Its
/// contents are never inspected here.
#[derive(Clone, Copy, PartialEq, Eq, Debug)]
pub struct CommandBuffer {
    pub handle: u64,
}

/// Handle to a swapchain that an image index can be presented to.
#[derive(Clone, Copy, PartialEq, Eq, Debug)]
pub struct Swapchain {
    pub handle: u64,
}

/// Handle to a sparsely-bound buffer resource.
#[derive(Clone, Copy, PartialEq, Eq, Debug)]
pub struct Buffer {
    pub handle: u64,
}

/// Handle to a sparsely-bound image resource.
#[derive(Clone, Copy, PartialEq, Eq, Debug)]
pub struct Image {
    pub handle: u64,
}

/// Handle to a block of device memory that backs a sparse bind.
#[derive(Clone, Copy, PartialEq, Eq, Debug)]
pub struct DeviceMemory {
    pub handle: u64,
}

} // verus!

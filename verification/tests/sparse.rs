use submission::Buffer;
use submission::DeviceMemory;
use submission::Fence;
use submission::Image;
use submission::Queue;
use submission::Semaphore;
use submission::SparseImageMemoryBind;
use submission::SparseMemoryBind;
use submission::SubmitBindSparseBatchBuilder;
use submission::SubmitBindSparseBufferBindBuilder;
use submission::SubmitBindSparseBuilder;
use submission::SubmitBindSparseImageBindBuilder;
use submission::SubmitBindSparseImageOpaqueBindBuilder;
use submission::SubmitSemaphoresWaitBuilder;
use submission::UsageError;

#[test]
fn one_opaque_bind_in_one_batch_flushes_verbatim() {
    // One opaque-memory bind for one buffer (offset 0, size 1024, backed
    // at offset 0 of one memory block) in a batch with no semaphores: the
    // flushed call holds exactly that bind info and no fence.
    let r = Buffer { handle: 1 };
    let m = DeviceMemory { handle: 2 };

    let mut group = SubmitBindSparseBufferBindBuilder::new(r);
    group.add_bind(0, 1024, m, 0);

    let mut batch = SubmitBindSparseBatchBuilder::new();
    batch.add_buffer(group);

    let mut builder = SubmitBindSparseBuilder::new();
    builder.add_batch(batch);

    let call = builder.flush(Queue { handle: 3 });
    assert_eq!(call.queue, Queue { handle: 3 });
    assert_eq!(call.fence, None);
    assert_eq!(call.batches.len(), 1);

    let flushed = &call.batches[0];
    assert!(flushed.wait_semaphores.is_empty());
    assert!(flushed.signal_semaphores.is_empty());
    assert!(flushed.image_opaque_binds.is_empty());
    assert!(flushed.image_binds.is_empty());
    assert_eq!(flushed.buffer_binds.len(), 1);
    assert_eq!(flushed.buffer_binds[0].buffer, r);
    assert_eq!(
        flushed.buffer_binds[0].binds,
        vec![SparseMemoryBind { offset: 0, size: 1024, memory: Some(m), memory_offset: 0 }]
    );
}

#[test]
fn unbind_carries_no_memory() {
    let mut group = SubmitBindSparseBufferBindBuilder::new(Buffer { handle: 5 });
    group.add_bind(4096, 512, DeviceMemory { handle: 6 }, 128);
    group.add_unbind(8192, 256);

    assert_eq!(
        group.binds,
        vec![
            SparseMemoryBind {
                offset: 4096,
                size: 512,
                memory: Some(DeviceMemory { handle: 6 }),
                memory_offset: 128,
            },
            SparseMemoryBind { offset: 8192, size: 256, memory: None, memory_offset: 0 },
        ]
    );
}

#[test]
fn image_opaque_groups_accumulate_in_order() {
    let img = Image { handle: 9 };
    let mut group = SubmitBindSparseImageOpaqueBindBuilder::new(img);
    group.add_bind(0, 2048, DeviceMemory { handle: 10 }, 0);
    group.add_unbind(2048, 2048);

    let mut batch = SubmitBindSparseBatchBuilder::new();
    batch.add_image_opaque(group);
    assert_eq!(batch.image_opaque_binds.len(), 1);
    assert_eq!(batch.image_opaque_binds[0].image, img);
    assert_eq!(batch.image_opaque_binds[0].binds.len(), 2);
    assert_eq!(batch.image_opaque_binds[0].binds[1].memory, None);
}

#[test]
fn image_subresource_binds_accumulate_in_order() {
    let img = Image { handle: 11 };
    let bind = SparseImageMemoryBind {
        mip_level: 2,
        array_layer: 1,
        offset_x: 0,
        offset_y: 64,
        offset_z: 0,
        extent_width: 128,
        extent_height: 64,
        extent_depth: 1,
        memory: Some(DeviceMemory { handle: 12 }),
        memory_offset: 4096,
    };

    let mut group = SubmitBindSparseImageBindBuilder::new(img);
    group.add_bind(bind);

    let mut batch = SubmitBindSparseBatchBuilder::new();
    batch.add_image(group);
    assert_eq!(batch.image_binds.len(), 1);
    assert_eq!(batch.image_binds[0].image, img);
    assert_eq!(batch.image_binds[0].binds, vec![bind]);
}

#[test]
fn batch_semaphores_keep_insertion_order() {
    let w1 = Semaphore { handle: 1 };
    let w2 = Semaphore { handle: 2 };
    let s1 = Semaphore { handle: 3 };

    let mut batch = SubmitBindSparseBatchBuilder::new();
    batch.add_wait_semaphore(w1);
    batch.add_signal_semaphore(s1);
    batch.add_wait_semaphore(w2);

    assert_eq!(batch.wait_semaphores, vec![w1, w2]);
    assert_eq!(batch.signal_semaphores, vec![s1]);
}

#[test]
fn sparse_second_fence_is_rejected_and_first_kept() {
    let first = Fence { handle: 30 };
    let second = Fence { handle: 40 };

    let mut builder = SubmitBindSparseBuilder::new();
    builder.add_batch(SubmitBindSparseBatchBuilder::new());
    assert_eq!(builder.set_fence(first), Ok(()));
    assert_eq!(builder.set_fence(second), Err(UsageError::FenceAlreadySet));

    let call = builder.flush(Queue { handle: 0 });
    assert_eq!(call.fence, Some(first));
}

#[test]
fn sparse_merge_without_batch_is_rejected() {
    let mut builder = SubmitBindSparseBuilder::new();
    let mut pending = SubmitSemaphoresWaitBuilder::new();
    pending.add_wait_semaphore(Semaphore { handle: 50 }, 0x1);
    assert_eq!(
        builder.merge_semaphores_wait(pending),
        Err(UsageError::NoBatchForWaits)
    );
    assert!(builder.batches.is_empty());
}

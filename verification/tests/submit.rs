use submission::CommandBuffer;
use submission::Fence;
use submission::Queue;
use submission::Semaphore;
use submission::SubmitCommandBufferBuilder;
use submission::UsageError;

#[test]
fn accumulation_preserves_insertion_order() {
    // Waits and signals interleaved in one batch: the flushed call must
    // list the waits in the order they were added, and likewise the
    // signals and the command buffers.
    let w1 = Semaphore { handle: 1 };
    let s1 = Semaphore { handle: 2 };
    let w2 = Semaphore { handle: 3 };
    let s2 = Semaphore { handle: 4 };
    let c1 = CommandBuffer { handle: 5 };
    let c2 = CommandBuffer { handle: 6 };

    let mut builder = SubmitCommandBufferBuilder::new();
    builder.add_wait_semaphore(w1, 0x1);
    builder.add_signal_semaphore(s1);
    builder.add_command_buffer(c1);
    builder.add_wait_semaphore(w2, 0x2);
    builder.add_command_buffer(c2);
    builder.add_signal_semaphore(s2);

    let call = builder.flush(Queue { handle: 0 });
    assert_eq!(call.batches.len(), 1);
    assert_eq!(call.batches[0].wait_semaphores, vec![(w1, 0x1), (w2, 0x2)]);
    assert_eq!(call.batches[0].command_buffers, vec![c1, c2]);
    assert_eq!(call.batches[0].signal_semaphores, vec![s1, s2]);
}

#[test]
fn batches_flush_in_submission_order() {
    let c1 = CommandBuffer { handle: 1 };
    let c2 = CommandBuffer { handle: 2 };
    let c3 = CommandBuffer { handle: 3 };

    let mut builder = SubmitCommandBufferBuilder::new();
    builder.add_command_buffer(c1);
    builder.start_new_batch();
    builder.add_command_buffer(c2);
    builder.add_command_buffer(c3);

    let call = builder.flush(Queue { handle: 4 });
    assert_eq!(call.batches.len(), 2);
    assert_eq!(call.batches[0].command_buffers, vec![c1]);
    assert_eq!(call.batches[1].command_buffers, vec![c2, c3]);
}

#[test]
fn a_new_batch_starts_blank() {
    let mut builder = SubmitCommandBufferBuilder::new();
    builder.add_wait_semaphore(Semaphore { handle: 1 }, 0x1);
    builder.add_signal_semaphore(Semaphore { handle: 2 });
    builder.start_new_batch();

    let call = builder.flush(Queue { handle: 0 });
    assert_eq!(call.batches.len(), 2);
    assert!(call.batches[1].wait_semaphores.is_empty());
    assert!(call.batches[1].command_buffers.is_empty());
    assert!(call.batches[1].signal_semaphores.is_empty());
}

#[test]
fn second_fence_is_rejected_and_first_kept() {
    let first = Fence { handle: 10 };
    let second = Fence { handle: 20 };

    let mut builder = SubmitCommandBufferBuilder::new();
    assert_eq!(builder.set_fence(first), Ok(()));
    assert_eq!(builder.set_fence(second), Err(UsageError::FenceAlreadySet));

    let call = builder.flush(Queue { handle: 0 });
    assert_eq!(call.fence, Some(first));
}

#[test]
fn flush_without_fence_carries_none() {
    let builder = SubmitCommandBufferBuilder::new();
    let call = builder.flush(Queue { handle: 9 });
    assert_eq!(call.fence, None);
    assert_eq!(call.queue, Queue { handle: 9 });
    assert_eq!(call.batches.len(), 1);
    assert!(call.batches[0].command_buffers.is_empty());
}

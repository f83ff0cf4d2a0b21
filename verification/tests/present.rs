use submission::DriverError;
use submission::Queue;
use submission::Semaphore;
use submission::SubmitPresentBuilder;
use submission::SurfaceStatus;
use submission::Swapchain;
use submission::collect_present_results;

#[test]
fn present_flush_preserves_insertion_order() {
    let w1 = Semaphore { handle: 1 };
    let w2 = Semaphore { handle: 2 };
    let sc1 = Swapchain { handle: 3 };
    let sc2 = Swapchain { handle: 4 };

    let mut builder = SubmitPresentBuilder::new();
    builder.add_wait_semaphore(w1);
    builder.add_swapchain(sc1, 0);
    builder.add_wait_semaphore(w2);
    builder.add_swapchain(sc2, 5);

    let call = builder.flush(Queue { handle: 7 });
    assert_eq!(call.queue, Queue { handle: 7 });
    assert_eq!(call.wait_semaphores, vec![w1, w2]);
    assert_eq!(call.swapchains, vec![(sc1, 0), (sc2, 5)]);
}

#[test]
fn out_of_date_surface_does_not_demote_the_successful_one() {
    // Two surfaces, the first presented fine and the second out of date:
    // the overall result is a status array, the second element signals
    // out-of-date and the first stays a success.
    let codes = vec![
        Ok(SurfaceStatus::Success),
        Ok(SurfaceStatus::OutOfDate),
    ];
    let collected = collect_present_results(codes);
    assert_eq!(
        collected,
        Ok(vec![SurfaceStatus::Success, SurfaceStatus::OutOfDate])
    );
}

#[test]
fn suboptimal_surface_is_reported_as_data() {
    let codes = vec![
        Ok(SurfaceStatus::Suboptimal),
        Ok(SurfaceStatus::Success),
    ];
    let collected = collect_present_results(codes);
    assert_eq!(
        collected,
        Ok(vec![SurfaceStatus::Suboptimal, SurfaceStatus::Success])
    );
}

#[test]
fn first_hard_error_wins() {
    let codes = vec![
        Ok(SurfaceStatus::Success),
        Err(DriverError::DeviceLost),
        Err(DriverError::OutOfHostMemory),
    ];
    assert_eq!(collect_present_results(codes), Err(DriverError::DeviceLost));
}

#[test]
fn every_hard_error_kind_is_surfaced_verbatim() {
    let errors = vec![
        DriverError::OutOfHostMemory,
        DriverError::OutOfDeviceMemory,
        DriverError::DeviceLost,
        DriverError::SurfaceLost,
        DriverError::ValidationFailed,
    ];
    for e in errors {
        let codes = vec![Ok(SurfaceStatus::Success), Err(e)];
        assert_eq!(collect_present_results(codes), Err(e));
    }
}

#[test]
fn collecting_no_surfaces_yields_no_statuses() {
    let collected = collect_present_results(Vec::new());
    assert_eq!(collected, Ok(Vec::new()));
}

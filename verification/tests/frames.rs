use krysalis_native::lifecycle::{build_order, teardown_order, BuildStage, TeardownStep};
use krysalis_native::scheduler::{
    AcquireOutcome, FrameScheduler, PresentOutcome, TickPhase, FRAMES_IN_FLIGHT,
};

fn run_full_tick(scheduler: &mut FrameScheduler, image_index: u32) {
    scheduler.on_fence_waited();
    scheduler.on_acquire(AcquireOutcome::Acquired(image_index));
    let submit = scheduler.begin_submit();
    assert_eq!(submit.image_index, image_index);
    scheduler.on_present(PresentOutcome::Presented);
}

#[test]
fn fresh_scheduler_starts_at_slot_zero_with_signaled_fences() {
    let scheduler = FrameScheduler::new(3);
    assert_eq!(scheduler.slots.len(), FRAMES_IN_FLIGHT);
    assert_eq!(scheduler.current_frame, 0);
    assert_eq!(scheduler.phase, TickPhase::Idle);
    assert!(scheduler.slots.iter().all(|s| s.fence_signaled));
    assert!(!scheduler.needs_recreate);
    assert!(!scheduler.shutdown_requested);
    assert_eq!(scheduler.image_count, 3);
}

#[test]
fn current_frame_cycles_zero_one_zero_one() {
    // Cycling is the same however many swapchain images there are.
    for image_count in [2u32, 3, 6] {
        let mut scheduler = FrameScheduler::new(image_count);
        let mut expected = [0usize, 1, 0, 1, 0, 1].iter();
        for tick in 0..6u32 {
            assert_eq!(scheduler.current_frame, *expected.next().unwrap());
            run_full_tick(&mut scheduler, tick % image_count);
        }
        assert_eq!(scheduler.current_frame, 0);
    }
}

#[test]
fn fence_is_reset_only_at_submission() {
    let mut scheduler = FrameScheduler::new(2);
    scheduler.on_fence_waited();
    assert!(scheduler.slots[0].fence_signaled);
    scheduler.on_acquire(AcquireOutcome::Acquired(0));
    // The wait has happened; only now may the fence be reset.
    assert!(scheduler.slots[0].fence_signaled);
    let submit = scheduler.begin_submit();
    assert_eq!(submit.frame_slot, 0);
    assert!(!scheduler.slots[0].fence_signaled);
    assert_eq!(submit.wait_stage_mask, 0x400);
    scheduler.on_present(PresentOutcome::Presented);
    // The other slot's fence is untouched.
    assert!(scheduler.slots[1].fence_signaled);
}

#[test]
fn stale_acquire_skips_submit_and_present() {
    let mut scheduler = FrameScheduler::new(2);
    let frame_before = scheduler.current_frame;
    scheduler.on_fence_waited();
    scheduler.on_acquire(AcquireOutcome::Stale);
    // The tick was aborted: back to idle, nothing submitted, slot kept.
    assert_eq!(scheduler.phase, TickPhase::Idle);
    assert!(scheduler.needs_recreate);
    assert_eq!(scheduler.current_frame, frame_before);
    assert!(scheduler.slots[0].fence_signaled);
}

#[test]
fn recreation_rebuilds_resources_before_the_next_tick() {
    let mut scheduler = FrameScheduler::new(2);
    scheduler.on_fence_waited();
    scheduler.on_acquire(AcquireOutcome::Stale);
    assert!(scheduler.needs_recreate);
    // The swapchain is rebuilt with an updated image count...
    scheduler.on_swapchain_recreated(4);
    assert!(!scheduler.needs_recreate);
    assert_eq!(scheduler.image_count, 4);
    assert!(scheduler.resources_generation < scheduler.swapchain_generation);
    // ...and pipeline, framebuffers and command buffers are rebuilt
    // before any further tick.
    scheduler.on_resources_rebuilt();
    assert_eq!(scheduler.resources_generation, scheduler.swapchain_generation);
    run_full_tick(&mut scheduler, 1);
}

#[test]
fn stale_present_is_tolerated_and_flags_recreation() {
    let mut scheduler = FrameScheduler::new(2);
    scheduler.on_fence_waited();
    scheduler.on_acquire(AcquireOutcome::Acquired(0));
    scheduler.begin_submit();
    scheduler.on_present(PresentOutcome::Stale);
    // The tick still completed and the slot advanced.
    assert_eq!(scheduler.current_frame, 1);
    assert!(scheduler.needs_recreate);
    scheduler.on_swapchain_recreated(2);
    scheduler.on_resources_rebuilt();
    run_full_tick(&mut scheduler, 0);
}

#[test]
fn resize_flags_recreation() {
    let mut scheduler = FrameScheduler::new(2);
    scheduler.on_resize();
    assert!(scheduler.needs_recreate);
    scheduler.on_swapchain_recreated(2);
    scheduler.on_resources_rebuilt();
    assert!(!scheduler.needs_recreate);
}

#[test]
fn close_request_leads_to_idle_wait_before_any_destruction() {
    let mut scheduler = FrameScheduler::new(2);
    run_full_tick(&mut scheduler, 0);
    // A close request arrives mid-loop.
    scheduler.on_close_requested();
    assert!(scheduler.shutdown_requested);
    // Teardown starts with the full device-idle wait, before any handle
    // is destroyed.
    let steps = teardown_order(true);
    assert_eq!(steps[0], TeardownStep::WaitDeviceIdle);
    assert!(steps[1..].iter().all(|s| *s != TeardownStep::WaitDeviceIdle));
}

#[test]
fn teardown_walks_the_ownership_chain_in_reverse() {
    let steps = teardown_order(true);
    let position = |step: TeardownStep| steps.iter().position(|s| *s == step).unwrap();
    // Framebuffers reference image views; image views reference the
    // swapchain; everything device-owned precedes the device; the
    // device, diagnostics and surface precede the instance.
    assert!(position(TeardownStep::DestroyFramebuffers) < position(TeardownStep::DestroyImageViews));
    assert!(position(TeardownStep::DestroyImageViews) < position(TeardownStep::DestroySwapchain));
    assert!(position(TeardownStep::DestroySwapchain) < position(TeardownStep::DestroyDevice));
    assert!(
        position(TeardownStep::DestroyGraphicsPipeline)
            < position(TeardownStep::DestroyPipelineLayout)
    );
    assert!(position(TeardownStep::DestroyVertexBuffer) < position(TeardownStep::FreeVertexBufferMemory));
    assert!(position(TeardownStep::DestroyDevice) < position(TeardownStep::DestroyInstance));
    assert!(position(TeardownStep::DestroyDebugMessenger) < position(TeardownStep::DestroyInstance));
    assert!(position(TeardownStep::DestroySurface) < position(TeardownStep::DestroyInstance));
    assert_eq!(*steps.last().unwrap(), TeardownStep::DestroyInstance);
}

#[test]
fn teardown_without_diagnostics_skips_the_messenger() {
    let steps = teardown_order(false);
    assert!(steps.iter().all(|s| *s != TeardownStep::DestroyDebugMessenger));
    assert_eq!(steps[0], TeardownStep::WaitDeviceIdle);
    assert_eq!(*steps.last().unwrap(), TeardownStep::DestroyInstance);
}

#[test]
fn build_order_constructs_dependencies_first() {
    let order = build_order();
    let position = |stage: BuildStage| order.iter().position(|s| *s == stage).unwrap();
    assert_eq!(order[0], BuildStage::CreateInstance);
    assert!(position(BuildStage::CreateSurface) < position(BuildStage::PickPhysicalDevice));
    assert!(position(BuildStage::PickPhysicalDevice) < position(BuildStage::CreateLogicalDevice));
    assert!(position(BuildStage::CreateLogicalDevice) < position(BuildStage::CreateSwapchain));
    assert!(position(BuildStage::CreateSwapchain) < position(BuildStage::CreateImageViews));
    assert!(position(BuildStage::CreateRenderPass) < position(BuildStage::CreateGraphicsPipeline));
    assert!(position(BuildStage::CreateGraphicsPipeline) < position(BuildStage::CreateCommandBuffers));
    assert!(position(BuildStage::CreateVertexBuffer) < position(BuildStage::CreateCommandBuffers));
    assert_eq!(*order.last().unwrap(), BuildStage::CreateSyncObjects);
}

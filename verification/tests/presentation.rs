use lumr::extent::Extent;
use lumr::presentation::{
    AcquireResult, AcquireStep, Fence, FlushResult, FrameReadiness, Phase, PresentationLoop,
};
use lumr::renderer::{DrawWorkload, Renderer};
use lumr::swapchain_manager::{CompositeAlpha, SwapchainConfig, SwapchainManager};

fn setup(image_count: u32) -> (SwapchainManager, Renderer, PresentationLoop) {
    let manager = SwapchainManager::new(&SwapchainConfig {
        image_count,
        format: 7,
        composite_alpha: CompositeAlpha::Opaque,
        extent: Extent::new(800, 600),
    });
    let renderer = Renderer::new(&manager, Extent::new(800, 600), DrawWorkload::full_buffer(3));
    let state = PresentationLoop::new(manager.image_count);
    (manager, renderer, state)
}

fn run_one_frame(state: &mut PresentationLoop, index: usize, flush: FlushResult) {
    let step = state.on_acquire(&AcquireResult::Success { index });
    assert_eq!(step, AcquireStep::Proceed { index });
    state.fence_wait_done();
    state.record_submission(&flush);
}

#[test]
fn new_state_has_all_fence_slots_empty() {
    let (_, _, state) = setup(3);
    assert_eq!(state.fences, vec![None, None, None]);
    assert!(!state.stale);
    assert_eq!(state.previous_index, 0);
    assert_eq!(state.phase, Phase::Idle);
}

#[test]
fn out_of_date_acquire_sets_stale_and_stores_no_fence() {
    let (_, _, mut state) = setup(2);
    let step = state.on_acquire(&AcquireResult::OutOfDate);
    assert_eq!(step, AcquireStep::Abort);
    assert!(state.stale);
    assert_eq!(state.fences, vec![None, None]);
    assert_eq!(state.phase, Phase::Idle);
}

#[test]
fn suboptimal_acquire_proceeds_but_marks_stale() {
    let (_, _, mut state) = setup(2);
    let step = state.on_acquire(&AcquireResult::Suboptimal { index: 1 });
    assert_eq!(step, AcquireStep::Proceed { index: 1 });
    assert!(state.stale);
    assert_eq!(state.phase, Phase::Acquired { index: 1 });
    assert_eq!(state.fences, vec![None, None]);
}

#[test]
fn other_acquire_failure_is_fatal_and_changes_nothing() {
    let (_, _, mut state) = setup(2);
    let step = state.on_acquire(&AcquireResult::OtherFailure {
        detail: String::from("device lost"),
    });
    assert_eq!(step, AcquireStep::Fatal);
    assert!(!state.stale);
    assert_eq!(state.phase, Phase::Idle);
}

#[test]
fn successful_flush_stores_an_unsignaled_fence_and_advances_previous() {
    let (_, _, mut state) = setup(2);
    run_one_frame(&mut state, 1, FlushResult::Success);
    assert_eq!(state.fences, vec![None, Some(Fence { signaled: false })]);
    assert_eq!(state.previous_index, 1);
    assert!(!state.stale);
    assert_eq!(state.phase, Phase::Idle);
}

#[test]
fn out_of_date_flush_sets_stale_and_stores_no_fence() {
    let (_, _, mut state) = setup(2);
    run_one_frame(&mut state, 0, FlushResult::OutOfDate);
    assert_eq!(state.fences, vec![None, None]);
    assert!(state.stale);
    assert_eq!(state.previous_index, 0);
}

#[test]
fn other_flush_failure_leaves_slot_empty_and_continues() {
    let (_, _, mut state) = setup(2);
    run_one_frame(&mut state, 0, FlushResult::OtherFailure { detail: String::from("oom") });
    assert_eq!(state.fences, vec![None, None]);
    assert!(!state.stale);
    assert_eq!(state.previous_index, 0);
}

#[test]
fn fence_wait_is_needed_only_for_an_unsignaled_slot() {
    let (_, _, mut state) = setup(2);
    run_one_frame(&mut state, 0, FlushResult::Success);

    // Acquiring image 0 again finds its prior fence unsignaled.
    state.on_acquire(&AcquireResult::Success { index: 0 });
    assert!(state.needs_fence_wait());
    state.fence_wait_done();
    assert_eq!(state.fences[0], Some(Fence { signaled: true }));
    state.record_submission(&FlushResult::Success);

    // Acquiring image 1, whose slot is empty, needs no wait.
    state.on_acquire(&AcquireResult::Success { index: 1 });
    assert!(!state.needs_fence_wait());
}

#[test]
fn previous_fence_is_reported_for_chaining() {
    let (_, _, mut state) = setup(2);
    assert!(!state.has_previous_fence());
    run_one_frame(&mut state, 1, FlushResult::Success);
    assert!(state.has_previous_fence());
    run_one_frame(&mut state, 0, FlushResult::OutOfDate);
    assert!(!state.has_previous_fence());
}

#[test]
fn resize_check_without_resize_or_staleness_is_a_no_op() {
    let (mut manager, mut renderer, mut state) = setup(2);
    let readiness = state.resize_check(&mut manager, &mut renderer, Extent::new(800, 600), false);
    assert_eq!(readiness, FrameReadiness::Proceed);
    assert_eq!(manager.generation, 0);
    assert_eq!(renderer.pipeline.generation, 0);
    assert!(!state.stale);
}

#[test]
fn skipped_recreation_defers_the_frame_and_keeps_the_flag() {
    let (mut manager, mut renderer, mut state) = setup(2);
    let framebuffers_before = manager.framebuffers.clone();
    let readiness = state.resize_check(&mut manager, &mut renderer, Extent::new(0, 0), true);
    assert_eq!(readiness, FrameReadiness::Deferred);
    assert!(state.stale);
    assert_eq!(manager.generation, 0);
    assert_eq!(manager.framebuffers, framebuffers_before);
    assert_eq!(renderer.pipeline.generation, 0);
    assert_eq!(state.previous_index, 0);
    assert_eq!(state.fences, vec![None, None]);
}

#[test]
fn resize_recreates_swapchain_and_rebuilds_command_buffers() {
    let (mut manager, mut renderer, mut state) = setup(2);
    let readiness = state.resize_check(&mut manager, &mut renderer, Extent::new(1024, 768), true);
    assert_eq!(readiness, FrameReadiness::Proceed);
    assert!(!state.stale);
    assert_eq!(manager.generation, 1);
    assert_eq!(manager.extent, Extent::new(1024, 768));
    assert_eq!(renderer.pipeline.generation, 1);
    assert_eq!(renderer.pipeline.viewport, Extent::new(1024, 768));
    assert_eq!(renderer.command_buffers.len(), 2);
    for cb in &renderer.command_buffers {
        assert_eq!(cb.generation, 1);
    }
}

#[test]
fn stale_recreation_without_resize_keeps_command_buffers() {
    let (mut manager, mut renderer, mut state) = setup(2);
    state.on_acquire(&AcquireResult::OutOfDate);
    assert!(state.stale);
    let readiness = state.resize_check(&mut manager, &mut renderer, Extent::new(800, 600), false);
    assert_eq!(readiness, FrameReadiness::Proceed);
    assert!(!state.stale);
    assert_eq!(manager.generation, 1);
    assert_eq!(renderer.pipeline.generation, 0);
    for cb in &renderer.command_buffers {
        assert_eq!(cb.generation, 0);
    }
}

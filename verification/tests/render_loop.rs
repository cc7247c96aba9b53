use vkbase::error::SwapchainSyncError;
use vkbase::error::VkError;
use vkbase::error::VkErrorKind;
use vkbase::frame::FrameAction;
use vkbase::loops::LoopDirective;
use vkbase::loops::LoopState;
use vkbase::loops::ProcPipeline;
use vkbase::loops::RenderEvent;
use vkbase::sync::FencePhase;

fn render_one_good_frame(pipeline: &mut ProcPipeline, image_index: u32) {
    let outcome = pipeline
        .render_frame(RenderEvent::Submitted { image_index, present: Ok(()) })
        .expect("a presented frame is not an error");
    assert_eq!(outcome, FrameAction::Rendering);
    let directive = pipeline.handle_feedback(outcome);
    assert_eq!(directive, LoopDirective::Proceed);
    pipeline.complete_frame();
}

#[test]
fn session_initial_state() {
    let pipeline = ProcPipeline::new(2);
    assert_eq!(pipeline.frame_in_flight(), 2);
    assert_eq!(pipeline.state, LoopState::Running);
    assert_eq!(pipeline.frame_counter.current_frame(), 0);
    assert_eq!(pipeline.syncs.fence_for(0), FencePhase::Ready);
    assert_eq!(pipeline.syncs.fence_for(1), FencePhase::Ready);
    assert!(!pipeline.syncs.await_present);
}

#[test]
fn presented_frame_leaves_fence_in_flight_and_advances_slot() {
    let mut pipeline = ProcPipeline::new(2);
    render_one_good_frame(&mut pipeline, 0);
    assert_eq!(pipeline.syncs.fence_for(0), FencePhase::InFlight);
    assert_eq!(pipeline.syncs.fence_for(1), FencePhase::Ready);
    assert_eq!(pipeline.frame_counter.current_frame(), 1);
    assert!(!pipeline.syncs.await_present);
}

#[test]
fn suboptimal_acquisition_on_frame_seven_recreates_without_advancing() {
    let mut pipeline = ProcPipeline::new(3);
    for frame in 0..7u32 {
        render_one_good_frame(&mut pipeline, frame % 3);
    }
    assert_eq!(pipeline.frame_counter.current_frame(), 7 % 3);

    // frame 7 aborts at image acquisition with a suboptimal surface
    let outcome = pipeline
        .render_frame(RenderEvent::AcquireRejected(SwapchainSyncError::SubOptimal))
        .expect("a stale surface is recoverable");
    assert_eq!(outcome, FrameAction::SwapchainRecreate);
    let directive = pipeline.handle_feedback(outcome);
    assert_eq!(directive, LoopDirective::RebuildSwapchain);

    // the rebuild: device idle, swapchain recreated, loop resumes
    pipeline.on_device_idle();
    assert_eq!(pipeline.state, LoopState::Running);
    // the aborted frame is not counted: the loop resumes at slot 7 mod 3
    assert_eq!(pipeline.frame_counter.current_frame(), 7 % 3);

    // the retried frame then completes normally
    render_one_good_frame(&mut pipeline, 1);
    assert_eq!(pipeline.frame_counter.current_frame(), 8 % 3);
}

#[test]
fn out_of_date_surface_at_presentation_recreates() {
    let mut pipeline = ProcPipeline::new(2);
    let outcome = pipeline
        .render_frame(RenderEvent::Submitted {
            image_index: 0,
            present: Err(SwapchainSyncError::SurfaceOutDate),
        })
        .expect("a stale surface is recoverable");
    assert_eq!(outcome, FrameAction::SwapchainRecreate);
    // the frame's work was submitted before presentation failed
    assert_eq!(pipeline.syncs.fence_for(0), FencePhase::InFlight);
    assert!(!pipeline.syncs.await_present);
    assert_eq!(pipeline.frame_counter.current_frame(), 0);
}

#[test]
fn terminate_mid_render_is_honored_at_the_next_iteration_boundary() {
    let mut pipeline = ProcPipeline::new(2);
    // the cancel signal arrives while this frame is mid-render; the frame
    // still runs to presentation and is counted
    render_one_good_frame(&mut pipeline, 0);
    assert_eq!(pipeline.state, LoopState::Running);
    assert_eq!(pipeline.frame_counter.current_frame(), 1);
    // only the next iteration's input poll observes the terminate request
    let directive = pipeline.handle_feedback(FrameAction::Terminal);
    assert_eq!(directive, LoopDirective::Exit);
    assert_eq!(pipeline.state, LoopState::Terminated);
    // the completed frame stayed counted
    assert_eq!(pipeline.frame_counter.current_frame(), 1);
}

#[test]
fn fence_wait_failure_is_fatal_device_error() {
    let mut pipeline = ProcPipeline::new(2);
    let err = pipeline.render_frame(RenderEvent::WaitFailed).unwrap_err();
    assert_eq!(err.kind(), VkErrorKind::Device);
    assert_eq!(pipeline.state, LoopState::Terminated);
    // nothing happened to the fence before the failed wait
    assert_eq!(pipeline.syncs.fence_for(0), FencePhase::Ready);
}

#[test]
fn acquisition_timeout_is_fatal() {
    let mut pipeline = ProcPipeline::new(2);
    let err = pipeline
        .render_frame(RenderEvent::AcquireRejected(SwapchainSyncError::TimeOut))
        .unwrap_err();
    assert_eq!(err.kind(), VkErrorKind::Other);
    assert_eq!(pipeline.state, LoopState::Terminated);
}

#[test]
fn unknown_presentation_error_is_fatal() {
    let mut pipeline = ProcPipeline::new(2);
    let err = pipeline
        .render_frame(RenderEvent::Submitted {
            image_index: 0,
            present: Err(SwapchainSyncError::Unknown),
        })
        .unwrap_err();
    assert_eq!(err.kind(), VkErrorKind::Other);
    assert_eq!(pipeline.state, LoopState::Terminated);
}

#[test]
fn fence_reset_failure_is_fatal_device_error() {
    let mut pipeline = ProcPipeline::new(2);
    let err = pipeline.render_frame(RenderEvent::ResetFailed).unwrap_err();
    assert_eq!(err.kind(), VkErrorKind::Device);
    assert_eq!(pipeline.state, LoopState::Terminated);
}

#[test]
fn render_callback_error_propagates_unchanged() {
    let mut pipeline = ProcPipeline::new(2);
    let err = pipeline
        .render_frame(RenderEvent::RenderFailed(VkError::create("Graphics Pipeline")))
        .unwrap_err();
    assert_eq!(err.kind(), VkErrorKind::Create);
    assert_eq!(err.subject(), "Graphics Pipeline");
    assert_eq!(pipeline.state, LoopState::Terminated);
}

#[test]
fn recreate_feedback_keeps_loop_running() {
    let mut pipeline = ProcPipeline::new(2);
    let directive = pipeline.handle_feedback(FrameAction::SwapchainRecreate);
    assert_eq!(directive, LoopDirective::RebuildSwapchain);
    assert_eq!(pipeline.state, LoopState::Running);
    assert_eq!(pipeline.frame_counter.current_frame(), 0);
}

#[test]
fn resynchronize_restarts_slots_with_new_count() {
    let mut pipeline = ProcPipeline::new(2);
    render_one_good_frame(&mut pipeline, 0);
    pipeline.on_device_idle();
    pipeline.resynchronize(3);
    assert_eq!(pipeline.frame_in_flight(), 3);
    assert_eq!(pipeline.frame_counter.current_frame(), 0);
    for slot in 0..3 {
        assert_eq!(pipeline.syncs.fence_for(slot), FencePhase::Ready);
    }
}

#[test]
fn discard_releases_the_pool() {
    let mut pipeline = ProcPipeline::new(2);
    pipeline.on_device_idle();
    pipeline.discard();
    assert_eq!(pipeline.syncs.sync_fences.len(), 0);
}

#[test]
fn full_session_recreate_then_terminate() {
    let mut pipeline = ProcPipeline::new(2);
    // two good frames
    render_one_good_frame(&mut pipeline, 0);
    render_one_good_frame(&mut pipeline, 1);
    assert_eq!(pipeline.frame_counter.current_frame(), 0);
    // a stale surface forces a rebuild
    let outcome = pipeline
        .render_frame(RenderEvent::AcquireRejected(SwapchainSyncError::SurfaceOutDate))
        .expect("a stale surface is recoverable");
    assert_eq!(pipeline.handle_feedback(outcome), LoopDirective::RebuildSwapchain);
    pipeline.on_device_idle();
    // one more good frame after the rebuild, then termination
    render_one_good_frame(&mut pipeline, 0);
    assert_eq!(pipeline.frame_counter.current_frame(), 1);
    assert_eq!(pipeline.handle_feedback(FrameAction::Terminal), LoopDirective::Exit);
    assert_eq!(pipeline.state, LoopState::Terminated);
}

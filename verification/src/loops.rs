//! The frame orchestrator: the decision core of the render loop.
//!
//! A single control thread drives the loop; all GPU work is asynchronous to
//! it and coordinated only through the synchronization pool.  The functions
//! here take the outcome of each outside step (input polling, fence waits,
//! image acquisition, the render callback, presentation) as an explicit
//! event and decide what happens next, while tracking the fence protocol
//! and the frame counter.  The unverified driver performs the actual API
//! calls in the fixed per-iteration order and reports each outcome back.
use vstd::prelude::*;

use crate::error::SwapchainSyncError;
use crate::error::VkError;
use crate::error::VkErrorKind;
use crate::error::VkResult;
use crate::frame::FrameAction;
use crate::frame::FrameCounter;
use crate::sync::fence_run;
use crate::sync::FenceOp;
use crate::sync::FencePhase;
use crate::sync::SyncResource;

verus! {

/// The orchestrator's loop state.  `Terminated` is terminal: it is entered
/// on the `Terminal` action or on any fatal error, never left.
#[derive(Clone, Copy, Debug, PartialEq, Eq, Structural)]
pub enum LoopState {
    Running,
    Terminated,
}

/// What the driver must do after an iteration outcome was classified.
#[derive(Clone, Copy, Debug, PartialEq, Eq, Structural)]
pub enum LoopDirective {
    /// Go on with the current iteration.
    Proceed,
    /// Wait for the device to go idle, rebuild the swapchain, let the
    /// application rebuild swapchain-dependent resources, then resume.
    RebuildSwapchain,
    /// Leave the loop.
    Exit,
}

/// What happened while rendering one frame, reported by the driver.  Each
/// variant stands for one prefix of the fixed step order
/// wait-fence / acquire-image / reset-fence / submit / present, cut off at
/// the first step that did not complete normally.
pub enum RenderEvent {
    /// The blocking wait on the current slot's fence reported an error.
    WaitFailed,
    /// The wait succeeded but no image could be acquired.
    AcquireRejected(SwapchainSyncError),
    /// An image was acquired but resetting the fence reported an error.
    ResetFailed,
    /// The fence was reset but the render callback failed; its error is
    /// propagated unchanged.
    RenderFailed(VkError),
    /// The callback submitted the frame's work; `present` is the outcome of
    /// presenting the acquired image.
    Submitted { image_index: u32, present: Result<(), SwapchainSyncError> },
}

/// The operations a [`RenderEvent`] performs on the current slot's fence,
/// in order.
pub open spec fn render_fence_ops(event: RenderEvent) -> Seq<FenceOp> {
    match event {
        RenderEvent::WaitFailed => Seq::empty(),
        RenderEvent::AcquireRejected(_) => seq![FenceOp::WaitOk],
        RenderEvent::ResetFailed => seq![FenceOp::WaitOk],
        RenderEvent::RenderFailed(_) => seq![FenceOp::WaitOk, FenceOp::Reset],
        RenderEvent::Submitted { .. } => seq![
            FenceOp::WaitOk,
            FenceOp::Reset,
            FenceOp::Submit,
        ],
    }
}

proof fn lemma_run_wait(p: FencePhase)
    requires
        p != FencePhase::Cleared,
    ensures
        fence_run(p, seq![FenceOp::WaitOk]) == Some(FencePhase::Ready),
{
    let s = seq![FenceOp::WaitOk];
    assert(s[0] == FenceOp::WaitOk);
    assert(s.skip(1) =~= Seq::<FenceOp>::empty());
    assert(fence_run(FencePhase::Ready, s.skip(1)) == Some(FencePhase::Ready));
}

proof fn lemma_run_wait_reset(p: FencePhase)
    requires
        p != FencePhase::Cleared,
    ensures
        fence_run(p, seq![FenceOp::WaitOk, FenceOp::Reset]) == Some(FencePhase::Cleared),
{
    let s = seq![FenceOp::WaitOk, FenceOp::Reset];
    assert(s[0] == FenceOp::WaitOk);
    let s1 = seq![FenceOp::Reset];
    assert(s.skip(1) =~= s1);
    assert(s1[0] == FenceOp::Reset);
    assert(s1.skip(1) =~= Seq::<FenceOp>::empty());
    assert(fence_run(FencePhase::Cleared, s1.skip(1)) == Some(FencePhase::Cleared));
    assert(fence_run(FencePhase::Ready, s1) == Some(FencePhase::Cleared));
}

proof fn lemma_run_wait_reset_submit(p: FencePhase)
    requires
        p != FencePhase::Cleared,
    ensures
        fence_run(p, seq![FenceOp::WaitOk, FenceOp::Reset, FenceOp::Submit]) == Some(
            FencePhase::InFlight,
        ),
{
    let s = seq![FenceOp::WaitOk, FenceOp::Reset, FenceOp::Submit];
    assert(s[0] == FenceOp::WaitOk);
    let s1 = seq![FenceOp::Reset, FenceOp::Submit];
    assert(s.skip(1) =~= s1);
    assert(s1[0] == FenceOp::Reset);
    let s2 = seq![FenceOp::Submit];
    assert(s1.skip(1) =~= s2);
    assert(s2[0] == FenceOp::Submit);
    assert(s2.skip(1) =~= Seq::<FenceOp>::empty());
    assert(fence_run(FencePhase::InFlight, s2.skip(1)) == Some(FencePhase::InFlight));
    assert(fence_run(FencePhase::Cleared, s2) == Some(FencePhase::InFlight));
    assert(fence_run(FencePhase::Ready, s1) == Some(FencePhase::InFlight));
}

/// The render-loop session: the synchronization pool and the frame counter,
/// exclusively owned for the lifetime of the loop.
pub struct ProcPipeline {
    pub syncs: SyncResource,
    pub frame_counter: FrameCounter,
    pub state: LoopState,
}

impl ProcPipeline {
    /// Session invariant, restored at every iteration boundary: the pool
    /// and counter agree on the frame-in-flight count, the image-acquired
    /// semaphore has no unconsumed signal, and no fence sits in the
    /// transient reset-but-unsubmitted phase (so the next wait cannot
    /// deadlock).
    pub open spec fn wf(&self) -> bool {
        &&& self.syncs.wf()
        &&& self.frame_counter.wf()
        &&& self.frame_counter.frame_count == self.syncs.frame_count
        &&& !self.syncs.await_present
        &&& self.syncs.none_cleared()
    }

    /// The active frame-in-flight slot.
    pub open spec fn current_slot(&self) -> int {
        self.frame_counter.current_frame as int
    }

    /// Create a session for `frame_in_flight` overlapping frames: all slot
    /// fences signaled, no outstanding image acquisition, slot 0 active.
    pub fn new(frame_in_flight: usize) -> (r: ProcPipeline)
        requires
            frame_in_flight >= 1,
        ensures
            r.wf(),
            r.state == LoopState::Running,
            r.syncs.frame_count == frame_in_flight,
            r.syncs.all_ready(),
            r.frame_counter.current_frame == 0,
            r.frame_counter.frames_completed@ == 0,
    {
        ProcPipeline {
            syncs: SyncResource::new(frame_in_flight),
            frame_counter: FrameCounter::new(frame_in_flight),
            state: LoopState::Running,
        }
    }

    /// The number of frames that may be in flight at once.
    pub fn frame_in_flight(&self) -> (r: usize)
        ensures
            r == self.syncs.frame_count,
    {
        self.syncs.frame_count
    }

    /// Classify a per-iteration outcome.  `Rendering` lets the iteration
    /// proceed; `SwapchainRecreate` is absorbed into a rebuild directive and
    /// the loop stays running; `Terminal` ends the session.
    pub fn handle_feedback(&mut self, action: FrameAction) -> (r: LoopDirective)
        requires
            old(self).wf(),
            old(self).state == LoopState::Running,
        ensures
            final(self).wf(),
            final(self).syncs == old(self).syncs,
            final(self).frame_counter == old(self).frame_counter,
            r == (match action {
                FrameAction::Rendering => LoopDirective::Proceed,
                FrameAction::SwapchainRecreate => LoopDirective::RebuildSwapchain,
                FrameAction::Terminal => LoopDirective::Exit,
            }),
            final(self).state == (if action == FrameAction::Terminal {
                LoopState::Terminated
            } else {
                LoopState::Running
            }),
    {
        match action {
            FrameAction::Rendering => LoopDirective::Proceed,
            FrameAction::SwapchainRecreate => LoopDirective::RebuildSwapchain,
            FrameAction::Terminal => {
                self.state = LoopState::Terminated;
                LoopDirective::Exit
            },
        }
    }

    /// Account for one rendered frame, following the fixed step order:
    /// wait on the current slot's fence, acquire an image with the shared
    /// semaphore, reset the fence (only after the wait succeeded), delegate
    /// submission to the render callback, present.
    ///
    /// The driver reports how far the steps got as `event`; this function
    /// updates the model accordingly and decides the outcome:
    /// a stale or suboptimal surface at acquisition or presentation yields
    /// `Ok(SwapchainRecreate)` with no work lost, everything else that goes
    /// wrong is fatal, and a fully presented frame yields `Ok(Rendering)`.
    /// The frame counter never moves here.
    pub fn render_frame(&mut self, event: RenderEvent) -> (r: VkResult<FrameAction>)
        requires
            old(self).wf(),
            old(self).state == LoopState::Running,
        ensures
            final(self).frame_counter == old(self).frame_counter,
            final(self).syncs.frame_count == old(self).syncs.frame_count,
            final(self).syncs.sync_fences@.len() == old(self).syncs.sync_fences@.len(),
            forall|i: int|
                0 <= i < old(self).syncs.sync_fences@.len() && i != old(self).current_slot()
                    ==> final(self).syncs.sync_fences@[i] == old(self).syncs.sync_fences@[i],
            fence_run(
                old(self).syncs.sync_fences@[old(self).current_slot()],
                render_fence_ops(event),
            ) == Some(final(self).syncs.sync_fences@[old(self).current_slot()]),
            final(self).syncs.fence_ops@.len() == old(self).syncs.fence_ops@.len(),
            forall|i: int|
                0 <= i < old(self).syncs.fence_ops@.len() && i != old(self).current_slot()
                    ==> final(self).syncs.fence_ops@[i] == old(self).syncs.fence_ops@[i],
            final(self).syncs.fence_ops@[old(self).current_slot()] == old(
                self,
            ).syncs.fence_ops@[old(self).current_slot()] + render_fence_ops(event),
            r is Ok <==> (match event {
                RenderEvent::WaitFailed => false,
                RenderEvent::AcquireRejected(e) => e.spec_is_recoverable(),
                RenderEvent::ResetFailed => false,
                RenderEvent::RenderFailed(_) => false,
                RenderEvent::Submitted { present, .. } => (present matches Err(e)
                    ==> e.spec_is_recoverable()),
            }),
            r is Ok ==> r == Ok::<FrameAction, VkError>(
                match event {
                    RenderEvent::Submitted { present: Ok(()), .. } => FrameAction::Rendering,
                    _ => FrameAction::SwapchainRecreate,
                },
            ),
            r is Ok ==> final(self).wf() && final(self).state == LoopState::Running,
            r is Err ==> final(self).state == LoopState::Terminated,
            (match event {
                RenderEvent::WaitFailed => r matches Err(e) && e.kind == VkErrorKind::Device,
                RenderEvent::AcquireRejected(e) => !e.spec_is_recoverable() ==> (r matches
                    Err(err) && err.kind == VkErrorKind::Other),
                RenderEvent::ResetFailed => r matches Err(e) && e.kind == VkErrorKind::Device,
                RenderEvent::RenderFailed(e) => r == Err::<FrameAction, VkError>(e),
                RenderEvent::Submitted { present, .. } => (present matches Err(pe)
                    && !pe.spec_is_recoverable()) ==> (r matches Err(err) && err.kind
                    == VkErrorKind::Other),
            }),
            // the image-acquired signal is consumed exactly when the frame
            // was submitted; earlier exits leave it unsignaled, and the two
            // fatal mid-frame exits leave it unconsumed
            final(self).syncs.await_present == (match event {
                RenderEvent::WaitFailed => false,
                RenderEvent::AcquireRejected(_) => false,
                RenderEvent::ResetFailed => true,
                RenderEvent::RenderFailed(_) => true,
                RenderEvent::Submitted { .. } => false,
            }),
    {
        let slot = self.frame_counter.current_frame();
        proof {
            lemma_run_wait(self.syncs.sync_fences@[slot as int]);
            lemma_run_wait_reset(self.syncs.sync_fences@[slot as int]);
            lemma_run_wait_reset_submit(self.syncs.sync_fences@[slot as int]);
        }
        proof {
            let h = self.syncs.fence_ops@[slot as int];
            assert(h + Seq::<FenceOp>::empty() =~= h);
            assert(h.push(FenceOp::WaitOk) =~= h + seq![FenceOp::WaitOk]);
            assert(h.push(FenceOp::WaitOk).push(FenceOp::Reset) =~= h + seq![
                FenceOp::WaitOk,
                FenceOp::Reset,
            ]);
            assert(h.push(FenceOp::WaitOk).push(FenceOp::Reset).push(FenceOp::Submit) =~= h
                + seq![FenceOp::WaitOk, FenceOp::Reset, FenceOp::Submit]);
        }
        match event {
            RenderEvent::WaitFailed => {
                self.state = LoopState::Terminated;
                Err(VkError::device("Fence waiting"))
            },
            RenderEvent::AcquireRejected(e) => {
                self.syncs.mark_wait_ok(slot);
                if e.is_recoverable() {
                    Ok(FrameAction::SwapchainRecreate)
                } else {
                    self.state = LoopState::Terminated;
                    Err(VkError::other("Swapchain image acquisition"))
                }
            },
            RenderEvent::ResetFailed => {
                self.syncs.mark_wait_ok(slot);
                self.syncs.mark_image_acquired();
                self.state = LoopState::Terminated;
                Err(VkError::device("Fence Resetting"))
            },
            RenderEvent::RenderFailed(e) => {
                self.syncs.mark_wait_ok(slot);
                self.syncs.mark_image_acquired();
                self.syncs.mark_reset(slot);
                self.state = LoopState::Terminated;
                Err(e)
            },
            RenderEvent::Submitted { image_index: _, present } => {
                self.syncs.mark_wait_ok(slot);
                self.syncs.mark_image_acquired();
                self.syncs.mark_reset(slot);
                self.syncs.mark_submitted(slot);
                self.syncs.mark_acquire_consumed();
                match present {
                    Ok(()) => Ok(FrameAction::Rendering),
                    Err(e) => {
                        if e.is_recoverable() {
                            Ok(FrameAction::SwapchainRecreate)
                        } else {
                            self.state = LoopState::Terminated;
                            Err(VkError::other("Swapchain presentation"))
                        }
                    },
                }
            },
        }
    }

    /// Advance the frame slot.  Called exactly once per completed frame,
    /// after presentation succeeded — an aborted frame (swapchain rebuild)
    /// does not advance the slot.
    pub fn complete_frame(&mut self)
        requires
            old(self).wf(),
            old(self).state == LoopState::Running,
        ensures
            final(self).wf(),
            final(self).state == LoopState::Running,
            final(self).syncs == old(self).syncs,
            final(self).frame_counter.frame_count == old(self).frame_counter.frame_count,
            final(self).frame_counter.frames_completed@ == old(
                self,
            ).frame_counter.frames_completed@ + 1,
            final(self).frame_counter.current_frame as nat == (old(
                self,
            ).frame_counter.frames_completed@ + 1) % (old(self).syncs.frame_count as nat),
    {
        self.frame_counter.next_frame();
    }

    /// Record that a device-idle wait completed, as performed before a
    /// swapchain rebuild: every submission has finished, so every GPU-owned
    /// fence is now signaled.
    pub fn on_device_idle(&mut self)
        requires
            old(self).wf(),
        ensures
            final(self).wf(),
            final(self).syncs.all_ready(),
            final(self).syncs.frame_count == old(self).syncs.frame_count,
            final(self).frame_counter == old(self).frame_counter,
            final(self).state == old(self).state,
            forall|k: int|
                0 <= k < old(self).syncs.sync_fences@.len() ==> final(self).syncs.fence_ops@[k]
                    == (if old(self).syncs.sync_fences@[k] == FencePhase::InFlight {
                    old(self).syncs.fence_ops@[k].push(FenceOp::WaitOk)
                } else {
                    old(self).syncs.fence_ops@[k]
                }),
    {
        self.syncs.on_device_idle();
    }

    /// Full resynchronization, used when swapchain recreation changes the
    /// frame-in-flight count: the pool is rebuilt and the counter restarts
    /// at slot 0.  The device must be idle (no fence GPU-owned).
    pub fn resynchronize(&mut self, frame_in_flight: usize)
        requires
            old(self).wf(),
            old(self).syncs.none_in_flight(),
            frame_in_flight >= 1,
        ensures
            final(self).wf(),
            final(self).syncs.frame_count == frame_in_flight,
            final(self).syncs.all_ready(),
            final(self).frame_counter.current_frame == 0,
            final(self).frame_counter.frames_completed@ == 0,
            final(self).state == old(self).state,
    {
        self.syncs = SyncResource::new(frame_in_flight);
        self.frame_counter = FrameCounter::new(frame_in_flight);
    }

    /// Release the synchronization primitives at session end.  The device
    /// must be idle: no GPU work may still reference them.
    pub fn discard(&mut self)
        requires
            old(self).wf(),
            old(self).syncs.none_in_flight(),
        ensures
            final(self).syncs.sync_fences@.len() == 0,
            !final(self).syncs.await_present,
    {
        self.syncs.discard();
    }
}

} // verus!

//! The frame counter and the per-iteration outcome classification.
use vstd::prelude::*;

verus! {

/// Tagged outcome of the poll-input, render-frame and present steps of one
/// loop iteration.  Any layer may escalate `Terminal`; `SwapchainRecreate`
/// is absorbed and retried by the orchestrator, never propagated further.
#[derive(Clone, Copy, Debug, PartialEq, Eq, Structural)]
pub enum FrameAction {
    /// Normal operation: keep rendering.
    Rendering,
    /// The surface became stale or suboptimal; rebuild the swapchain.
    SwapchainRecreate,
    /// The user or the application requested exit.
    Terminal,
}

/// Tracks the current frame-in-flight slot.
///
/// The slot advances by exactly 1 (mod `frame_count`) once per completed
/// frame, never skips, and resets only on full resynchronization.  The ghost
/// total of completed frames makes that law precise: the slot always equals
/// `frames_completed % frame_count`.
pub struct FrameCounter {
    pub frame_count: usize,
    pub current_frame: usize,
    pub frames_completed: Ghost<nat>,
}

impl FrameCounter {
    pub open spec fn wf(&self) -> bool {
        &&& self.frame_count >= 1
        &&& self.current_frame < self.frame_count
        &&& self.current_frame as nat == self.frames_completed@ % (self.frame_count as nat)
    }

    pub fn new(frame_in_flight: usize) -> (r: FrameCounter)
        requires
            frame_in_flight >= 1,
        ensures
            r.wf(),
            r.frame_count == frame_in_flight,
            r.current_frame == 0,
            r.frames_completed@ == 0,
    {
        proof {
            vstd::arithmetic::div_mod::lemma_small_mod(0nat, frame_in_flight as nat);
        }
        FrameCounter {
            frame_count: frame_in_flight,
            current_frame: 0,
            frames_completed: Ghost(0nat),
        }
    }

    /// The active frame-in-flight slot.
    pub fn current_frame(&self) -> (r: usize)
        ensures
            r == self.current_frame,
    {
        self.current_frame
    }

    /// Advance to the next slot.  Called exactly once per completed frame,
    /// after presentation, never before.
    pub fn next_frame(&mut self)
        requires
            old(self).wf(),
        ensures
            final(self).wf(),
            final(self).frame_count == old(self).frame_count,
            final(self).frames_completed@ == old(self).frames_completed@ + 1,
            final(self).current_frame as nat == (old(self).frames_completed@ + 1)
                % (old(self).frame_count as nat),
    {
        let n = self.frame_count;
        proof {
            vstd::arithmetic::div_mod::lemma_add_mod_noop(
                self.frames_completed@ as int,
                1int,
                n as int,
            );
            if n > 1 {
                vstd::arithmetic::div_mod::lemma_small_mod(1nat, n as nat);
            }
            vstd::arithmetic::div_mod::lemma_mod_self_0(n as int);
            vstd::arithmetic::div_mod::lemma_small_mod(0nat, n as nat);
        }
        if self.current_frame + 1 == n {
            self.current_frame = 0;
            proof {
                assert((self.frames_completed@ % (n as nat) + 1) % (n as nat) == 0nat);
            }
        } else {
            self.current_frame = self.current_frame + 1;
            proof {
                vstd::arithmetic::div_mod::lemma_small_mod(
                    (self.frames_completed@ % (n as nat) + 1) as nat,
                    n as nat,
                );
            }
        }
        self.frames_completed = Ghost(self.frames_completed@ + 1);
    }
}

/// The slot value always equals the number of completed frames modulo the
/// frame-in-flight count: this holds in every well-formed counter state,
/// hence after any sequence of completed frames.
pub proof fn lemma_slot_tracks_completed_frames(c: FrameCounter)
    requires
        c.wf(),
    ensures
        c.current_frame as nat == c.frames_completed@ % (c.frame_count as nat),
{
}

} // verus!

//! The synchronization pool: one reusable "image acquired" semaphore and one
//! fence per frame-in-flight slot, together with the protocol that governs
//! fence reuse.
//!
//! A fence gates reuse of a slot's per-frame resources.  The CPU may reset a
//! fence only after a wait on it has succeeded, and must submit work that
//! signals it again before either waiting on it or resetting it once more.
//! The protocol is captured by the [`fence_step`] transition system; the
//! proof functions at the end of this module state its two safety laws.
use vstd::prelude::*;

verus! {

/// CPU-observable phase of one fence.
#[derive(Clone, Copy, Debug, PartialEq, Eq, Structural)]
pub enum FencePhase {
    /// Known signaled: just created signaled, or a wait on it succeeded.
    Ready,
    /// Reset (un-signaled) and not yet handed to a submission.
    Cleared,
    /// Handed to a submission that will signal it; the GPU owns it.
    InFlight,
}

/// The operations the orchestrator performs on one fence.
#[derive(Clone, Copy, Debug, PartialEq, Eq, Structural)]
pub enum FenceOp {
    /// A blocking wait on the fence returned successfully.
    WaitOk,
    /// The fence was reset to the un-signaled state.
    Reset,
    /// Work that signals the fence on completion was submitted.
    Submit,
}

/// The fence protocol: which operation is legal in which phase, and the
/// phase it leads to.  `None` marks a forbidden operation: waiting on a
/// cleared fence would deadlock, and resetting or resubmitting a fence the
/// GPU still owns races with the work that signals it.
pub open spec fn fence_step(p: FencePhase, op: FenceOp) -> Option<FencePhase> {
    match op {
        FenceOp::WaitOk => match p {
            FencePhase::Ready => Some(FencePhase::Ready),
            FencePhase::InFlight => Some(FencePhase::Ready),
            FencePhase::Cleared => None,
        },
        FenceOp::Reset => match p {
            FencePhase::Ready => Some(FencePhase::Cleared),
            _ => None,
        },
        FenceOp::Submit => match p {
            FencePhase::Cleared => Some(FencePhase::InFlight),
            _ => None,
        },
    }
}

/// Run a sequence of fence operations from a starting phase; `None` as soon
/// as one of them is forbidden.
pub open spec fn fence_run(p: FencePhase, ops: Seq<FenceOp>) -> Option<FencePhase>
    decreases ops.len(),
{
    if ops.len() == 0 {
        Some(p)
    } else {
        match fence_step(p, ops[0]) {
            Some(q) => fence_run(q, ops.skip(1)),
            None => None,
        }
    }
}

/// Running a concatenation runs the two parts in order.
pub proof fn lemma_fence_run_split(p: FencePhase, s: Seq<FenceOp>, t: Seq<FenceOp>)
    ensures
        fence_run(p, s + t) == match fence_run(p, s) {
            Some(q) => fence_run(q, t),
            None => None,
        },
    decreases s.len(),
{
    if s.len() == 0 {
        assert(s + t =~= t);
    } else {
        assert((s + t)[0] == s[0]);
        match fence_step(p, s[0]) {
            Some(q) => {
                assert((s + t).skip(1) =~= s.skip(1) + t);
                lemma_fence_run_split(q, s.skip(1), t);
            },
            None => {},
        }
    }
}

/// The phase reached by extending a run with one more operation at the
/// end.
pub proof fn lemma_fence_run_push(p: FencePhase, ops: Seq<FenceOp>, op: FenceOp)
    ensures
        fence_run(p, ops.push(op)) == match fence_run(p, ops) {
            Some(q) => fence_step(q, op),
            None => None::<FencePhase>,
        },
{
    assert(ops.push(op) =~= ops + seq![op]);
    lemma_fence_run_split(p, ops, seq![op]);
    match fence_run(p, ops) {
        Some(q) => {
            assert(seq![op][0] == op);
            assert(seq![op].skip(1) =~= Seq::<FenceOp>::empty());
            match fence_step(q, op) {
                Some(q2) => {
                    assert(fence_run(q2, seq![op].skip(1)) == Some(q2));
                },
                None => {},
            }
        },
        None => {},
    }
}

/// A legal run stays legal on every prefix.
pub proof fn lemma_fence_run_prefix(p: FencePhase, ops: Seq<FenceOp>, m: int)
    requires
        fence_run(p, ops) is Some,
        0 <= m <= ops.len(),
    ensures
        fence_run(p, ops.take(m)) is Some,
{
    assert(ops.take(m) + ops.skip(m) =~= ops);
    lemma_fence_run_split(p, ops.take(m), ops.skip(m));
}

/// In a legal run, the phase just before any reset is `Ready`: a reset
/// happens only after the fence is known signaled, i.e. after a successful
/// wait (or right after signaled creation).
pub proof fn lemma_reset_only_from_ready(p: FencePhase, ops: Seq<FenceOp>, j: int)
    requires
        fence_run(p, ops) is Some,
        0 <= j < ops.len(),
        ops[j] == FenceOp::Reset,
    ensures
        fence_run(p, ops.take(j)) == Some(FencePhase::Ready),
{
    assert(ops.take(j) + ops.skip(j) =~= ops);
    lemma_fence_run_split(p, ops.take(j), ops.skip(j));
    let q = fence_run(p, ops.take(j))->Some_0;
    assert(ops.skip(j)[0] == ops[j]);
    assert(fence_step(q, FenceOp::Reset) is Some);
    assert(q == FencePhase::Ready);
}

/// The phase reached by extending a run with one more operation.
pub proof fn lemma_fence_run_snoc(p: FencePhase, ops: Seq<FenceOp>, m: int)
    requires
        0 <= m < ops.len(),
    ensures
        fence_run(p, ops.take(m + 1)) == match fence_run(p, ops.take(m)) {
            Some(q) => fence_step(q, ops[m]),
            None => None::<FencePhase>,
        },
{
    assert(ops.take(m + 1) =~= ops.take(m) + seq![ops[m]]);
    lemma_fence_run_split(p, ops.take(m), seq![ops[m]]);
    match fence_run(p, ops.take(m)) {
        Some(q) => {
            assert(seq![ops[m]][0] == ops[m]);
            assert(seq![ops[m]].skip(1) =~= Seq::<FenceOp>::empty());
            match fence_step(q, ops[m]) {
                Some(q2) => {
                    assert(fence_run(q2, seq![ops[m]].skip(1)) == Some(q2));
                    assert(fence_run(q, seq![ops[m]]) == Some(q2));
                },
                None => {
                    assert(fence_run(q, seq![ops[m]]) == None::<FencePhase>);
                },
            }
        },
        None => {},
    }
}

/// A fence is never reset twice between two submissions: in any legal run,
/// a submission stands between any two resets (in fact immediately after
/// the first of them).
pub proof fn lemma_no_double_reset(p: FencePhase, ops: Seq<FenceOp>, i: int, j: int)
    requires
        fence_run(p, ops) is Some,
        0 <= i < j < ops.len(),
        ops[i] == FenceOp::Reset,
        ops[j] == FenceOp::Reset,
    ensures
        exists|k: int| i < k < j && ops[k] == FenceOp::Submit,
{
    lemma_reset_only_from_ready(p, ops, i);
    lemma_reset_only_from_ready(p, ops, j);
    lemma_fence_run_snoc(p, ops, i);
    assert(fence_run(p, ops.take(i + 1)) == Some(FencePhase::Cleared));
    if i + 1 == j {
        assert(false);
    }
    lemma_fence_run_prefix(p, ops, i + 2);
    lemma_fence_run_snoc(p, ops, i + 1);
    assert(fence_step(FencePhase::Cleared, ops[i + 1]) is Some);
    assert(ops[i + 1] == FenceOp::Submit);
}

/// A fence is never reset while the GPU still owns it: in any legal run, a
/// successful wait stands between a submission and any later reset (in fact
/// immediately after the submission).
pub proof fn lemma_no_reset_before_wait(p: FencePhase, ops: Seq<FenceOp>, i: int, j: int)
    requires
        fence_run(p, ops) is Some,
        0 <= i < j < ops.len(),
        ops[i] == FenceOp::Submit,
        ops[j] == FenceOp::Reset,
    ensures
        exists|k: int| i < k < j && ops[k] == FenceOp::WaitOk,
{
    lemma_fence_run_prefix(p, ops, i + 1);
    lemma_fence_run_snoc(p, ops, i);
    assert(fence_run(p, ops.take(i + 1)) == Some(FencePhase::InFlight));
    lemma_reset_only_from_ready(p, ops, j);
    if i + 1 == j {
        assert(false);
    }
    lemma_fence_run_prefix(p, ops, i + 2);
    lemma_fence_run_snoc(p, ops, i + 1);
    assert(fence_step(FencePhase::InFlight, ops[i + 1]) is Some);
    assert(ops[i + 1] == FenceOp::WaitOk);
}

/// The synchronization primitives of the render loop: the shared
/// "image acquired" semaphore and one fence per frame-in-flight slot.
///
/// `await_present` is true while an acquired-image signal is outstanding,
/// i.e. after an acquisition and before the submission that waits on it.
/// At most one such signal exists at a time, because acquisition and
/// submission are strictly interleaved by the orchestrator.
pub struct SyncResource {
    pub frame_count: usize,
    pub await_present: bool,
    pub sync_fences: Vec<FencePhase>,
    /// Per slot, the operations performed on its fence since creation; the
    /// well-formedness invariant keeps every history a legal run of the
    /// fence protocol, so the safety laws proved of legal runs hold of
    /// every reachable pool state.
    pub fence_ops: Ghost<Seq<Seq<FenceOp>>>,
}

impl SyncResource {
    pub open spec fn wf(&self) -> bool {
        &&& self.frame_count >= 1
        &&& self.sync_fences@.len() == self.frame_count
        &&& self.fence_ops@.len() == self.frame_count
        &&& forall|s: int|
            0 <= s < self.frame_count ==> fence_run(FencePhase::Ready, self.fence_ops@[s])
                == Some(#[trigger] self.sync_fences@[s])
    }

    /// All fences known signaled, as right after creation.
    pub open spec fn all_ready(&self) -> bool {
        forall|i: int|
            0 <= i < self.sync_fences@.len() ==> self.sync_fences@[i] == FencePhase::Ready
    }

    /// No fence is in the transient reset-but-unsubmitted phase.  This holds
    /// between loop iterations; it guarantees that a wait on any slot's
    /// fence cannot deadlock.
    pub open spec fn none_cleared(&self) -> bool {
        forall|i: int|
            0 <= i < self.sync_fences@.len() ==> self.sync_fences@[i] != FencePhase::Cleared
    }

    /// No fence is owned by the GPU; holds after a device-idle wait, as
    /// required before destroying or rebuilding the primitives.
    pub open spec fn none_in_flight(&self) -> bool {
        forall|i: int|
            0 <= i < self.sync_fences@.len() ==> self.sync_fences@[i] != FencePhase::InFlight
    }

    /// Create the pool: `frame_count` fences, all initially signaled (so the
    /// first frame does not block), and the image-acquired semaphore with no
    /// outstanding signal.
    pub fn new(frame_count: usize) -> (r: SyncResource)
        requires
            frame_count >= 1,
        ensures
            r.wf(),
            r.frame_count == frame_count,
            r.all_ready(),
            !r.await_present,
    {
        let mut sync_fences: Vec<FencePhase> = Vec::new();
        let mut i: usize = 0;
        while i < frame_count
            invariant
                i <= frame_count,
                sync_fences@.len() == i,
                forall|k: int| 0 <= k < i ==> sync_fences@[k] == FencePhase::Ready,
            decreases frame_count - i,
        {
            sync_fences.push(FencePhase::Ready);
            i = i + 1;
        }
        let ghost histories = Seq::new(frame_count as nat, |s: int| Seq::<FenceOp>::empty());
        proof {
            assert forall|s: int| 0 <= s < frame_count implies fence_run(
                FencePhase::Ready,
                histories[s],
            ) == Some(sync_fences@[s]) by {
                assert(histories[s].len() == 0);
            }
        }
        SyncResource { frame_count, await_present: false, sync_fences, fence_ops: Ghost(histories) }
    }

    /// The phase of the fence guarding reuse of `slot`'s per-frame
    /// resources.
    pub fn fence_for(&self, slot: usize) -> (r: FencePhase)
        requires
            slot < self.sync_fences@.len(),
        ensures
            r == self.sync_fences@[slot as int],
    {
        self.sync_fences[slot]
    }

    /// Record that a blocking wait on `slot`'s fence returned successfully.
    pub fn mark_wait_ok(&mut self, slot: usize)
        requires
            old(self).wf(),
            slot < old(self).sync_fences@.len(),
            fence_step(old(self).sync_fences@[slot as int], FenceOp::WaitOk) is Some,
        ensures
            final(self).wf(),
            final(self).frame_count == old(self).frame_count,
            final(self).await_present == old(self).await_present,
            final(self).sync_fences@ == old(self).sync_fences@.update(
                slot as int,
                FencePhase::Ready,
            ),
            Some(final(self).sync_fences@[slot as int]) == fence_step(
                old(self).sync_fences@[slot as int],
                FenceOp::WaitOk,
            ),
            final(self).fence_ops@ == old(self).fence_ops@.update(
                slot as int,
                old(self).fence_ops@[slot as int].push(FenceOp::WaitOk),
            ),
    {
        self.sync_fences[slot] = FencePhase::Ready;
        proof {
            lemma_fence_run_push(
                FencePhase::Ready,
                self.fence_ops@[slot as int],
                FenceOp::WaitOk,
            );
        }
        self.fence_ops = Ghost(
            self.fence_ops@.update(
                slot as int,
                self.fence_ops@[slot as int].push(FenceOp::WaitOk),
            ),
        );
    }

    /// Record that `slot`'s fence was reset (un-signaled).  Legal only in
    /// the `Ready` phase: never before its wait succeeded, never twice.
    pub fn mark_reset(&mut self, slot: usize)
        requires
            old(self).wf(),
            slot < old(self).sync_fences@.len(),
            fence_step(old(self).sync_fences@[slot as int], FenceOp::Reset) is Some,
        ensures
            final(self).wf(),
            final(self).frame_count == old(self).frame_count,
            final(self).await_present == old(self).await_present,
            final(self).sync_fences@ == old(self).sync_fences@.update(
                slot as int,
                FencePhase::Cleared,
            ),
            Some(final(self).sync_fences@[slot as int]) == fence_step(
                old(self).sync_fences@[slot as int],
                FenceOp::Reset,
            ),
            final(self).fence_ops@ == old(self).fence_ops@.update(
                slot as int,
                old(self).fence_ops@[slot as int].push(FenceOp::Reset),
            ),
    {
        self.sync_fences[slot] = FencePhase::Cleared;
        proof {
            lemma_fence_run_push(FencePhase::Ready, self.fence_ops@[slot as int], FenceOp::Reset);
        }
        self.fence_ops = Ghost(
            self.fence_ops@.update(slot as int, self.fence_ops@[slot as int].push(FenceOp::Reset)),
        );
    }

    /// Record that work signaling `slot`'s fence was submitted.  Legal only
    /// in the `Cleared` phase: the fence must have been reset first.
    pub fn mark_submitted(&mut self, slot: usize)
        requires
            old(self).wf(),
            slot < old(self).sync_fences@.len(),
            fence_step(old(self).sync_fences@[slot as int], FenceOp::Submit) is Some,
        ensures
            final(self).wf(),
            final(self).frame_count == old(self).frame_count,
            final(self).await_present == old(self).await_present,
            final(self).sync_fences@ == old(self).sync_fences@.update(
                slot as int,
                FencePhase::InFlight,
            ),
            Some(final(self).sync_fences@[slot as int]) == fence_step(
                old(self).sync_fences@[slot as int],
                FenceOp::Submit,
            ),
            final(self).fence_ops@ == old(self).fence_ops@.update(
                slot as int,
                old(self).fence_ops@[slot as int].push(FenceOp::Submit),
            ),
    {
        self.sync_fences[slot] = FencePhase::InFlight;
        proof {
            lemma_fence_run_push(FencePhase::Ready, self.fence_ops@[slot as int], FenceOp::Submit);
        }
        self.fence_ops = Ghost(
            self.fence_ops@.update(slot as int, self.fence_ops@[slot as int].push(FenceOp::Submit)),
        );
    }

    /// Record that an image was acquired with the shared semaphore.  The
    /// previous signal must already have been consumed: at most one
    /// outstanding acquisition exists at a time.
    pub fn mark_image_acquired(&mut self)
        requires
            !old(self).await_present,
        ensures
            *final(self) == (SyncResource { await_present: true, ..*old(self) }),
    {
        self.await_present = true;
    }

    /// Record that the frame's submission consumed (waited on) the
    /// image-acquired signal.
    pub fn mark_acquire_consumed(&mut self)
        requires
            old(self).await_present,
        ensures
            *final(self) == (SyncResource { await_present: false, ..*old(self) }),
    {
        self.await_present = false;
    }

    /// Record that the device went idle: every submission completed, so all
    /// fences the GPU owned are now signaled.  Requires that no fence sits
    /// reset-but-unsubmitted, which an idle wait would not signal.
    pub fn on_device_idle(&mut self)
        requires
            old(self).wf(),
            old(self).none_cleared(),
        ensures
            final(self).wf(),
            final(self).frame_count == old(self).frame_count,
            final(self).await_present == old(self).await_present,
            final(self).all_ready(),
            forall|k: int|
                0 <= k < old(self).sync_fences@.len() ==> final(self).fence_ops@[k] == (
                if old(self).sync_fences@[k] == FencePhase::InFlight {
                    old(self).fence_ops@[k].push(FenceOp::WaitOk)
                } else {
                    old(self).fence_ops@[k]
                }),
    {
        let n = self.sync_fences.len();
        let mut i: usize = 0;
        while i < n
            invariant
                i <= n,
                old(self).wf(),
                old(self).none_cleared(),
                n == old(self).frame_count,
                self.sync_fences@.len() == n,
                self.fence_ops@.len() == n,
                self.frame_count == old(self).frame_count,
                self.await_present == old(self).await_present,
                forall|k: int|
                    i <= k < n ==> self.sync_fences@[k] == old(self).sync_fences@[k]
                        && self.fence_ops@[k] == old(self).fence_ops@[k],
                forall|k: int| 0 <= k < i ==> self.sync_fences@[k] == FencePhase::Ready,
                forall|k: int|
                    0 <= k < i ==> fence_run(FencePhase::Ready, self.fence_ops@[k]) == Some(
                        #[trigger] self.sync_fences@[k],
                    ),
                forall|k: int|
                    0 <= k < i ==> self.fence_ops@[k] == (
                    if old(self).sync_fences@[k] == FencePhase::InFlight {
                        old(self).fence_ops@[k].push(FenceOp::WaitOk)
                    } else {
                        old(self).fence_ops@[k]
                    }),
            decreases n - i,
        {
            // observing the idle device is the successful wait for every
            // fence a submission still owned
            if self.sync_fences[i] == FencePhase::InFlight {
                self.sync_fences[i] = FencePhase::Ready;
                proof {
                    lemma_fence_run_push(
                        FencePhase::Ready,
                        self.fence_ops@[i as int],
                        FenceOp::WaitOk,
                    );
                }
                self.fence_ops = Ghost(
                    self.fence_ops@.update(
                        i as int,
                        self.fence_ops@[i as int].push(FenceOp::WaitOk),
                    ),
                );
            }
            i = i + 1;
        }
    }

    /// Destroy and recreate all primitives, as when the frame-in-flight
    /// count changes on swapchain recreation.  The caller must have waited
    /// for the device to go idle: no fence may still be GPU-owned.
    pub fn reset(&mut self)
        requires
            old(self).wf(),
            old(self).none_in_flight(),
        ensures
            final(self).wf(),
            final(self).frame_count == old(self).frame_count,
            final(self).all_ready(),
            !final(self).await_present,
    {
        let fresh = SyncResource::new(self.frame_count);
        *self = fresh;
    }

    /// Release all primitives.  The caller must have waited for the device
    /// to go idle: destroying a GPU-owned fence is undefined behavior at the
    /// API level, not a recoverable error.
    pub fn discard(&mut self)
        requires
            old(self).wf(),
            old(self).none_in_flight(),
        ensures
            final(self).sync_fences@.len() == 0,
            !final(self).await_present,
            final(self).frame_count == old(self).frame_count,
    {
        self.sync_fences.clear();
        self.await_present = false;
        self.fence_ops = Ghost(Seq::empty());
    }
}

/// No double reset, over every reachable pool state: whenever one slot's
/// recorded history holds two resets, a submission stands between them.
pub proof fn lemma_pool_no_double_reset(pool: SyncResource, slot: int, i: int, j: int)
    requires
        pool.wf(),
        0 <= slot < pool.fence_ops@.len(),
        0 <= i < j < pool.fence_ops@[slot].len(),
        pool.fence_ops@[slot][i] == FenceOp::Reset,
        pool.fence_ops@[slot][j] == FenceOp::Reset,
    ensures
        exists|k: int| i < k < j && pool.fence_ops@[slot][k] == FenceOp::Submit,
{
    assert(fence_run(FencePhase::Ready, pool.fence_ops@[slot]) == Some(
        pool.sync_fences@[slot],
    ));
    lemma_no_double_reset(FencePhase::Ready, pool.fence_ops@[slot], i, j);
}

/// No reset before wait, over every reachable pool state: whenever one
/// slot's recorded history resets the fence after a submission, a
/// successful wait stands between the two.
pub proof fn lemma_pool_no_reset_before_wait(pool: SyncResource, slot: int, i: int, j: int)
    requires
        pool.wf(),
        0 <= slot < pool.fence_ops@.len(),
        0 <= i < j < pool.fence_ops@[slot].len(),
        pool.fence_ops@[slot][i] == FenceOp::Submit,
        pool.fence_ops@[slot][j] == FenceOp::Reset,
    ensures
        exists|k: int| i < k < j && pool.fence_ops@[slot][k] == FenceOp::WaitOk,
{
    assert(fence_run(FencePhase::Ready, pool.fence_ops@[slot]) == Some(
        pool.sync_fences@[slot],
    ));
    lemma_no_reset_before_wait(FencePhase::Ready, pool.fence_ops@[slot], i, j);
}

} // verus!

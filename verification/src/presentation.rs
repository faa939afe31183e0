//! The presentation loop: drives the per-frame sequence of
//! resize-check, acquire, wait-for-prior-use, submit and present, using one
//! fence slot per swapchain image to bound in-flight frames and a sticky
//! staleness flag to trigger recreation.
//!
//! The GPU calls themselves (acquire an image, wait on a fence, flush a
//! submission) are the driver's; the caller performs them and hands their
//! outcomes back. Every decision between those calls is made here, and the
//! per-frame phase recorded in the state makes the ordering discipline
//! checkable: a submission can only be recorded for an image slot after the
//! fence wait for that slot has been performed.

use vstd::prelude::*;

use crate::extent::Extent;
use crate::renderer::Renderer;
use crate::swapchain_manager::{RecreateOutcome, SwapchainManager};

verus! {

/// One fence slot's record of submitted GPU work: "the GPU has finished
/// consuming swapchain image i and its command buffer" once signaled.
#[derive(Clone, Copy, Debug, PartialEq, Eq, Structural)]
pub struct Fence {
    pub signaled: bool,
}

/// Where the loop stands within the current frame. A frame runs
/// `Idle -> Acquired -> Waited -> Idle`; resize handling and an aborted
/// acquire keep it in `Idle`.
#[derive(Clone, Copy, Debug, PartialEq, Eq, Structural)]
pub enum Phase {
    /// Between frames, or before acquisition.
    Idle,
    /// Image `index` has been acquired; its fence slot has not been waited
    /// on yet.
    Acquired { index: usize },
    /// The fence wait for slot `index` is done; submission may be recorded.
    Waited { index: usize },
}

/// What the driver reported for an image acquisition.
#[derive(Clone, Debug)]
pub enum AcquireResult {
    /// Image `index` is ready for rendering.
    Success { index: usize },
    /// Image `index` is usable, but the swapchain no longer matches the
    /// surface ideally; present this frame, recreate next frame.
    Suboptimal { index: usize },
    /// The swapchain no longer matches the surface; nothing was acquired.
    OutOfDate,
    /// Any other acquisition failure: a broken device, not a recoverable
    /// condition.
    OtherFailure { detail: String },
}

/// What the loop does with an acquisition outcome.
#[derive(Clone, Copy, Debug, PartialEq, Eq, Structural)]
pub enum AcquireStep {
    /// Wait on slot `index`'s fence, then submit and present image `index`.
    Proceed { index: usize },
    /// Abort this frame without submitting; recreation runs next frame.
    Abort,
    /// A broken environment; the caller aborts the process.
    Fatal,
}

/// What the driver reported for the signal-fence-and-flush of a submitted
/// frame.
#[derive(Clone, Debug)]
pub enum FlushResult {
    /// The submission is in flight; its fence will signal on completion.
    Success,
    /// The swapchain went out of date; the frame was dropped and nothing is
    /// in flight for the slot.
    OutOfDate,
    /// Any other flush failure: the frame is dropped best-effort, the loop
    /// continues.
    OtherFailure { detail: String },
}

/// Whether the frame may proceed past the resize check.
#[derive(Clone, Copy, Debug, PartialEq, Eq, Structural)]
pub enum FrameReadiness {
    /// Resources match the surface; acquire an image.
    Proceed,
    /// The surface cannot currently be presented to; this frame does no
    /// further work.
    Deferred,
}

/// The presentation loop's per-frame mutable state: the sticky staleness
/// flag, one fence slot per swapchain image, and the index of the most
/// recently submitted frame, used to chain queue submissions causally.
pub struct PresentationLoop {
    /// Set by an out-of-date acquire or flush, a suboptimal acquire, or a
    /// skipped recreation; cleared only by a successful recreation.
    pub stale: bool,
    /// Slot i records the fence of the last submission that consumed image
    /// i, or nothing if no such work is in flight.
    pub fences: Vec<Option<Fence>>,
    /// The most recently submitted image index.
    pub previous_index: usize,
    /// Where the loop stands within the current frame.
    pub phase: Phase,
}

impl PresentationLoop {
    /// Slot i holds no unsignaled fence: no prior GPU work on image i can
    /// still be in flight.
    pub open spec fn slot_clear(self, i: int) -> bool {
        self.fences@[i] matches Some(f) ==> f.signaled
    }

    /// The slot count never changes, the bookkeeping indices stay in
    /// bounds, and once the fence wait for the acquired slot is done, that
    /// slot is clear — the discipline that makes overwriting a command
    /// buffer the GPU might still read impossible.
    pub open spec fn wf(self) -> bool {
        &&& self.fences@.len() > 0
        &&& self.previous_index < self.fences@.len()
        &&& match self.phase {
            Phase::Idle => true,
            Phase::Acquired { index } => index < self.fences@.len(),
            Phase::Waited { index } => index < self.fences@.len() && self.slot_clear(index as int),
        }
    }

    /// The loop state is as it was.
    pub open spec fn unchanged(self, other: PresentationLoop) -> bool {
        &&& self.stale == other.stale
        &&& self.fences@ == other.fences@
        &&& self.previous_index == other.previous_index
        &&& self.phase == other.phase
    }

    /// Fresh state for a swapchain of `image_count` images: every fence
    /// slot empty, nothing stale, nothing submitted yet.
    pub fn new(image_count: usize) -> (r: PresentationLoop)
        requires
            image_count > 0,
        ensures
            r.wf(),
            r.fences@.len() == image_count,
            forall|i: int| 0 <= i < image_count ==> r.fences@[i] is None,
            !r.stale,
            r.previous_index == 0,
            r.phase is Idle,
    {
        let mut fences: Vec<Option<Fence>> = Vec::new();
        let mut i: usize = 0;
        while i < image_count
            invariant
                i <= image_count,
                fences@.len() == i,
                forall|j: int| 0 <= j < i ==> fences@[j] is None,
            decreases image_count - i,
        {
            fences.push(None);
            i = i + 1;
        }
        PresentationLoop { stale: false, fences, previous_index: 0, phase: Phase::Idle }
    }

    /// The resize check that opens every frame. If the swapchain is stale
    /// or the window was resized, attempt recreation: a skipped attempt (a
    /// zero-area surface) leaves the swapchain, the framebuffers and the
    /// command buffers untouched, keeps the flag set, and defers all
    /// further work this frame; a successful one clears the flag and, when
    /// the resize changed the viewport, rebuilds the command buffers with a
    /// pipeline built for the new extent. When nothing was stale and no
    /// resize occurred, the frame proceeds with everything unchanged.
    pub fn resize_check(
        &mut self,
        manager: &mut SwapchainManager,
        renderer: &mut Renderer,
        extent: Extent,
        window_resized: bool,
    ) -> (r: FrameReadiness)
        requires
            old(self).wf(),
            old(self).phase is Idle,
            old(manager).wf(),
            old(manager).generation < u64::MAX,
            old(renderer).pipeline.generation < u64::MAX,
        ensures
            final(self).wf(),
            final(manager).wf(),
            final(self).phase is Idle,
            final(self).fences@ == old(self).fences@,
            final(self).previous_index == old(self).previous_index,
            !old(self).stale && !window_resized ==> {
                &&& r is Proceed
                &&& final(self).unchanged(*old(self))
                &&& final(manager).unchanged(*old(manager))
                &&& final(renderer).unchanged(*old(renderer))
            },
            (old(self).stale || window_resized) && extent.zero_area() ==> {
                &&& r is Deferred
                &&& final(self).stale
                &&& final(manager).unchanged(*old(manager))
                &&& final(renderer).unchanged(*old(renderer))
            },
            (old(self).stale || window_resized) && !extent.zero_area() ==> {
                &&& r is Proceed
                &&& !final(self).stale
                &&& final(manager).generation == old(manager).generation + 1
                &&& final(manager).image_count == old(manager).image_count
                &&& final(manager).extent == extent
                &&& final(manager).render_pass == old(manager).render_pass
                &&& (window_resized ==> {
                    &&& final(renderer).targets(final(manager).framebuffers@)
                    &&& final(renderer).pipeline.viewport == extent
                    &&& final(renderer).pipeline.generation == old(renderer).pipeline.generation
                        + 1
                })
                &&& (!window_resized ==> final(renderer).unchanged(*old(renderer)))
            },
    {
        if self.stale || window_resized {
            let outcome = manager.recreate(extent);
            match outcome {
                RecreateOutcome::Skipped => {
                    // A zero-area or transiently invalid surface cannot be
                    // rendered to: leave the flag set and retry next frame.
                    self.stale = true;
                    return FrameReadiness::Deferred;
                },
                RecreateOutcome::Recreated { image_count: _ } => {
                    self.stale = false;
                    if window_resized {
                        renderer.recreate_command_buffer(manager, extent);
                    }
                },
            }
        }
        FrameReadiness::Proceed
    }

    /// Records the driver's acquisition outcome. Out-of-date sets the
    /// stale flag and aborts the frame with no fence stored for any slot;
    /// suboptimal proceeds this frame but marks the swapchain stale so
    /// recreation happens next iteration; any other failure is fatal. No
    /// fence slot is touched by acquisition.
    pub fn on_acquire(&mut self, result: &AcquireResult) -> (r: AcquireStep)
        requires
            old(self).wf(),
            old(self).phase is Idle,
            result matches AcquireResult::Success { index } ==> index < old(self).fences@.len(),
            result matches AcquireResult::Suboptimal { index } ==> index < old(self).fences@.len(),
        ensures
            final(self).wf(),
            final(self).fences@ == old(self).fences@,
            final(self).previous_index == old(self).previous_index,
            match *result {
                AcquireResult::Success { index } => {
                    &&& r == (AcquireStep::Proceed { index })
                    &&& final(self).phase == (Phase::Acquired { index })
                    &&& final(self).stale == old(self).stale
                },
                AcquireResult::Suboptimal { index } => {
                    &&& r == (AcquireStep::Proceed { index })
                    &&& final(self).phase == (Phase::Acquired { index })
                    &&& final(self).stale
                },
                AcquireResult::OutOfDate => {
                    &&& r is Abort
                    &&& final(self).phase is Idle
                    &&& final(self).stale
                },
                AcquireResult::OtherFailure { .. } => {
                    &&& r is Fatal
                    &&& final(self).unchanged(*old(self))
                },
            },
    {
        match result {
            AcquireResult::Success { index } => {
                self.phase = Phase::Acquired { index: *index };
                AcquireStep::Proceed { index: *index }
            },
            AcquireResult::Suboptimal { index } => {
                self.stale = true;
                self.phase = Phase::Acquired { index: *index };
                AcquireStep::Proceed { index: *index }
            },
            AcquireResult::OutOfDate => {
                self.stale = true;
                AcquireStep::Abort
            },
            AcquireResult::OtherFailure { .. } => AcquireStep::Fatal,
        }
    }

    /// Whether the acquired image's fence slot holds a prior, not yet
    /// signaled fence, so that the caller must block on it before reusing
    /// the image's command buffer.
    pub fn needs_fence_wait(&self) -> (r: bool)
        requires
            self.wf(),
            self.phase matches Phase::Acquired { .. },
        ensures
            (self.phase matches Phase::Acquired { index } ==> r == !self.slot_clear(index as int)),
    {
        match self.phase {
            Phase::Acquired { index } => {
                match &self.fences[index] {
                    Some(f) => !f.signaled,
                    None => false,
                }
            },
            _ => false,
        }
    }

    /// Records that the fence wait for the acquired slot is done (a
    /// no-op when the slot held no fence). Only this step leads to the
    /// phase in which a submission may be recorded, so GPU work targeting
    /// an image is never submitted over an unsignaled fence for that image.
    pub fn fence_wait_done(&mut self)
        requires
            old(self).wf(),
            old(self).phase matches Phase::Acquired { .. },
        ensures
            final(self).wf(),
            old(self).phase matches Phase::Acquired { index } ==> {
                &&& final(self).phase == (Phase::Waited { index })
                &&& final(self).slot_clear(index as int)
                &&& (old(self).fences@[index as int] is None
                    <==> final(self).fences@[index as int] is None)
                &&& forall|j: int|
                    0 <= j < old(self).fences@.len() && j != index ==> final(self).fences@[j]
                        == old(self).fences@[j]
            },
            final(self).fences@.len() == old(self).fences@.len(),
            final(self).stale == old(self).stale,
            final(self).previous_index == old(self).previous_index,
    {
        match self.phase {
            Phase::Acquired { index } => {
                match &self.fences[index] {
                    Some(_) => {
                        self.fences.set(index, Some(Fence { signaled: true }));
                    },
                    None => {},
                }
                self.phase = Phase::Waited { index };
            },
            _ => {},
        }
    }

    /// Whether the most recently submitted frame left a fence to chain the
    /// next submission on; when it did not, the caller chains on an
    /// immediately-ready sentinel instead.
    pub fn has_previous_fence(&self) -> (r: bool)
        requires
            self.wf(),
        ensures
            r == (self.fences@[self.previous_index as int] is Some),
    {
        self.fences[self.previous_index].is_some()
    }

    /// Records the outcome of submitting and presenting the acquired
    /// image. A successful flush stores an unsignaled fence in the image's
    /// slot; an out-of-date flush sets the stale flag and stores no fence;
    /// any other flush failure stores no fence and the loop continues
    /// best-effort. Whatever the outcome, the just-acquired index becomes
    /// the previous index, so the next frame's causal chaining is correct.
    pub fn record_submission(&mut self, result: &FlushResult)
        requires
            old(self).wf(),
            old(self).phase matches Phase::Waited { .. },
        ensures
            final(self).wf(),
            final(self).phase is Idle,
            final(self).fences@.len() == old(self).fences@.len(),
            old(self).phase matches Phase::Waited { index } ==> {
                &&& final(self).previous_index == index
                &&& match *result {
                    FlushResult::Success => {
                        &&& final(self).fences@[index as int] == Some(Fence { signaled: false })
                        &&& final(self).stale == old(self).stale
                    },
                    FlushResult::OutOfDate => {
                        &&& final(self).fences@[index as int] is None
                        &&& final(self).stale
                    },
                    FlushResult::OtherFailure { .. } => {
                        &&& final(self).fences@[index as int] is None
                        &&& final(self).stale == old(self).stale
                    },
                }
                &&& forall|j: int|
                    0 <= j < old(self).fences@.len() && j != index ==> final(self).fences@[j]
                        == old(self).fences@[j]
            },
    {
        match self.phase {
            Phase::Waited { index } => {
                match result {
                    FlushResult::Success => {
                        self.fences.set(index, Some(Fence { signaled: false }));
                    },
                    FlushResult::OutOfDate => {
                        self.stale = true;
                        self.fences.set(index, None);
                    },
                    FlushResult::OtherFailure { .. } => {
                        self.fences.set(index, None);
                    },
                }
                self.previous_index = index;
                self.phase = Phase::Idle;
            },
            _ => {},
        }
    }
}

/// Law: a command buffer targeting image i is never submitted while a
/// previously submitted, unsignaled fence exists for slot i. A submission
/// is recorded only in phase `Waited { i }`, and in any well-formed state
/// in that phase, slot i holds no unsignaled fence: the fence wait
/// precedes the submit for that slot, always.
pub proof fn lemma_fence_wait_precedes_submit(s: PresentationLoop, i: usize)
    requires
        s.wf(),
        s.phase == (Phase::Waited { index: i }),
    ensures
        !(s.fences@[i as int] matches Some(f) && !f.signaled),
{
}

} // verus!

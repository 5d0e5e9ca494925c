//! The per-frame scheduling protocol.
//!
//! The scheduler is the decision half of the frame loop: it tracks the
//! double-buffered frame slots, whose fence must have signaled before a
//! slot is reused, the tick phase within the acquire, submit, present
//! sequence, and the swapchain generation against which resources were
//! last built. The unverified shell performs the actual waits, submits
//! and presents, and reports each outcome back as an event.

use vstd::prelude::*;

verus! {

use crate::pipeline::PIPELINE_STAGE_COLOR_ATTACHMENT_OUTPUT;

/// The fixed frames-in-flight bound. It is independent of, and typically
/// smaller than, the number of swapchain images.
pub const FRAMES_IN_FLIGHT: usize = 2;

/// One frame slot's synchronization state, as the CPU observes it.
#[derive(Clone, Copy, Debug, PartialEq, Eq, Structural)]
pub struct FrameSlot {
    /// Whether the slot's in-flight fence is known signaled: true after a
    /// successful wait, false from fence reset until the next wait.
    pub fence_signaled: bool,
}

/// Where the current tick stands.
#[derive(Clone, Copy, Debug, PartialEq, Eq, Structural)]
pub enum TickPhase {
    /// Between ticks.
    Idle,
    /// The current slot's fence wait has completed.
    FenceWaited,
    /// An image was acquired for this tick.
    ImageAcquired { image_index: u32 },
    /// The command buffer for the acquired image was submitted.
    Submitted { image_index: u32 },
}

/// What image acquisition reported. Any failure other than staleness is
/// fatal and never re-enters the scheduler.
#[derive(Clone, Copy, Debug, PartialEq, Eq, Structural)]
pub enum AcquireOutcome {
    /// The next presentable image, by index.
    Acquired(u32),
    /// The swapchain is stale; this tick's submit and present are skipped.
    Stale,
}

/// What presentation reported. Any failure other than staleness is fatal
/// and never re-enters the scheduler.
#[derive(Clone, Copy, Debug, PartialEq, Eq, Structural)]
pub enum PresentOutcome {
    Presented,
    /// Stale or suboptimal; tolerated, with recreation before the next tick.
    Stale,
}

/// What one submission must carry: which slot's semaphores and fence to
/// use, which image's command buffer to submit, and the stage at which
/// the submission waits for the acquired image.
#[derive(Clone, Copy, Debug, PartialEq, Eq, Structural)]
pub struct SubmitInfo {
    pub frame_slot: usize,
    pub image_index: u32,
    pub wait_stage_mask: u32,
}

/// The frame scheduler's whole state.
#[derive(Clone)]
pub struct FrameScheduler {
    /// The two frame slots; fences start signaled so the first tick's
    /// wait returns at once.
    pub slots: Vec<FrameSlot>,
    /// The slot the next (or current) tick uses.
    pub current_frame: usize,
    pub phase: TickPhase,
    /// Bumped each time the swapchain is recreated.
    pub swapchain_generation: u64,
    /// The generation the pipeline, framebuffers and command buffers were
    /// last built against.
    pub resources_generation: u64,
    /// A stale signal or resize arrived; recreate before the next tick.
    pub needs_recreate: bool,
    /// A close request arrived; no further ticks are started.
    pub shutdown_requested: bool,
    /// Image count of the current swapchain generation.
    pub image_count: u32,
    /// Completed ticks, counted for the cycling argument.
    pub ticks: Ghost<nat>,
}

impl FrameScheduler {
    /// The scheduler's invariant.
    ///
    /// The slot index always cycles with the completed-tick count; a
    /// slot's fence is known signaled from its wait until its reset at
    /// submission; and no tick runs, and nothing is submitted, against
    /// resources older than the current swapchain generation.
    pub open spec fn wf(self) -> bool {
        &&& self.slots@.len() == FRAMES_IN_FLIGHT
        &&& self.current_frame < FRAMES_IN_FLIGHT
        &&& self.current_frame == self.ticks@ % (FRAMES_IN_FLIGHT as nat)
        &&& self.resources_generation <= self.swapchain_generation
        &&& ((self.phase is FenceWaited || self.phase is ImageAcquired) ==> self.slots@[
            self.current_frame as int].fence_signaled)
        &&& (!(self.phase is Idle) ==> self.resources_generation == self.swapchain_generation)
        &&& (self.needs_recreate ==> self.phase is Idle)
    }

    /// A fresh scheduler: slot zero first, both fences signaled, one
    /// swapchain generation with resources built against it, nothing
    /// pending.
    pub fn new(image_count: u32) -> (r: Self)
        ensures
            r.wf(),
            r.current_frame == 0,
            r.phase is Idle,
            r.swapchain_generation == 0,
            r.resources_generation == 0,
            !r.needs_recreate,
            !r.shutdown_requested,
            r.image_count == image_count,
            r.ticks@ == 0,
            forall|i: int|
                0 <= i < r.slots@.len() ==> (#[trigger] r.slots@[i]).fence_signaled,
    {
        let mut slots: Vec<FrameSlot> = Vec::new();
        slots.push(FrameSlot { fence_signaled: true });
        slots.push(FrameSlot { fence_signaled: true });
        FrameScheduler {
            slots,
            current_frame: 0,
            phase: TickPhase::Idle,
            swapchain_generation: 0,
            resources_generation: 0,
            needs_recreate: false,
            shutdown_requested: false,
            image_count,
            ticks: Ghost(0nat),
        }
    }

    /// Whether a new tick may start: no shutdown, no pending recreation,
    /// and resources current for this swapchain generation.
    pub open spec fn spec_can_start_tick(self) -> bool {
        &&& self.phase is Idle
        &&& !self.needs_recreate
        &&& !self.shutdown_requested
        &&& self.resources_generation == self.swapchain_generation
    }

    /// Which slot's fence the shell must wait on to start this tick.
    pub fn fence_to_wait(&self) -> (r: usize)
        ensures
            r == self.current_frame,
    {
        self.current_frame
    }

    /// Step one of a tick, after the shell's fence wait returned: the
    /// current slot's fence is now known signaled, bounding the CPU's
    /// lead over the GPU to the slot count.
    pub fn on_fence_waited(&mut self)
        requires
            old(self).wf(),
            old(self).spec_can_start_tick(),
        ensures
            final(self).wf(),
            final(self).phase is FenceWaited,
            final(self).slots@ == old(self).slots@.update(
                old(self).current_frame as int,
                FrameSlot { fence_signaled: true },
            ),
            final(self).current_frame == old(self).current_frame,
            final(self).swapchain_generation == old(self).swapchain_generation,
            final(self).resources_generation == old(self).resources_generation,
            final(self).needs_recreate == old(self).needs_recreate,
            final(self).shutdown_requested == old(self).shutdown_requested,
            final(self).image_count == old(self).image_count,
            final(self).ticks@ == old(self).ticks@,
    {
        let cur = self.current_frame;
        self.slots[cur] = FrameSlot { fence_signaled: true };
        self.phase = TickPhase::FenceWaited;
    }

    /// Step two, after the shell asked for the next image. A stale
    /// swapchain aborts the tick: submit and present are skipped, the
    /// slot and tick count stay put, and recreation is flagged for
    /// before the next tick.
    pub fn on_acquire(&mut self, outcome: AcquireOutcome)
        requires
            old(self).wf(),
            old(self).phase is FenceWaited,
        ensures
            final(self).wf(),
            outcome matches AcquireOutcome::Acquired(i) ==> final(self).phase == (
            TickPhase::ImageAcquired { image_index: i }) && final(self).needs_recreate == old(
                self,
            ).needs_recreate,
            outcome is Stale ==> final(self).phase is Idle && final(self).needs_recreate,
            final(self).slots@ == old(self).slots@,
            final(self).current_frame == old(self).current_frame,
            final(self).swapchain_generation == old(self).swapchain_generation,
            final(self).resources_generation == old(self).resources_generation,
            final(self).shutdown_requested == old(self).shutdown_requested,
            final(self).image_count == old(self).image_count,
            final(self).ticks@ == old(self).ticks@,
    {
        match outcome {
            AcquireOutcome::Acquired(image_index) => {
                self.phase = TickPhase::ImageAcquired { image_index };
            },
            AcquireOutcome::Stale => {
                self.phase = TickPhase::Idle;
                self.needs_recreate = true;
            },
        }
    }

    /// Step three: the submission. The current slot's fence — waited on
    /// in step one of this very tick — is reset to unsignaled here and
    /// nowhere else, so the wait strictly precedes the reset for every
    /// slot reuse. The submission waits on the slot's image-available
    /// semaphore at the color-attachment-output stage and signals the
    /// slot's render-finished semaphore and fence.
    pub fn begin_submit(&mut self) -> (r: SubmitInfo)
        requires
            old(self).wf(),
            old(self).phase is ImageAcquired,
        ensures
            final(self).wf(),
            old(self).phase matches TickPhase::ImageAcquired { image_index } ==> {
                &&& final(self).phase == (TickPhase::Submitted { image_index })
                &&& r.image_index == image_index
            },
            r.frame_slot == old(self).current_frame,
            r.wait_stage_mask == PIPELINE_STAGE_COLOR_ATTACHMENT_OUTPUT,
            final(self).slots@ == old(self).slots@.update(
                old(self).current_frame as int,
                FrameSlot { fence_signaled: false },
            ),
            final(self).current_frame == old(self).current_frame,
            final(self).swapchain_generation == old(self).swapchain_generation,
            final(self).resources_generation == old(self).resources_generation,
            final(self).needs_recreate == old(self).needs_recreate,
            final(self).shutdown_requested == old(self).shutdown_requested,
            final(self).image_count == old(self).image_count,
            final(self).ticks@ == old(self).ticks@,
    {
        let image_index = match self.phase {
            TickPhase::ImageAcquired { image_index } => image_index,
            _ => 0,  // unreachable: the phase is ImageAcquired
        };
        let cur = self.current_frame;
        self.slots[cur] = FrameSlot { fence_signaled: false };
        self.phase = TickPhase::Submitted { image_index };
        SubmitInfo {
            frame_slot: cur,
            image_index,
            wait_stage_mask: PIPELINE_STAGE_COLOR_ATTACHMENT_OUTPUT,
        }
    }

    /// Step four, after presentation. The tick completes and the slot
    /// index advances cyclically, whatever the number of swapchain
    /// images. A stale or suboptimal report flags recreation for before
    /// the next tick; it is not a failure.
    pub fn on_present(&mut self, outcome: PresentOutcome)
        requires
            old(self).wf(),
            old(self).phase is Submitted,
        ensures
            final(self).wf(),
            final(self).phase is Idle,
            final(self).current_frame == (old(self).current_frame + 1) % (FRAMES_IN_FLIGHT as int),
            final(self).ticks@ == old(self).ticks@ + 1,
            outcome is Stale ==> final(self).needs_recreate,
            outcome is Presented ==> final(self).needs_recreate == old(self).needs_recreate,
            final(self).slots@ == old(self).slots@,
            final(self).swapchain_generation == old(self).swapchain_generation,
            final(self).resources_generation == old(self).resources_generation,
            final(self).shutdown_requested == old(self).shutdown_requested,
            final(self).image_count == old(self).image_count,
    {
        match outcome {
            PresentOutcome::Presented => {},
            PresentOutcome::Stale => {
                self.needs_recreate = true;
            },
        }
        self.phase = TickPhase::Idle;
        self.current_frame = (self.current_frame + 1) % FRAMES_IN_FLIGHT;
        proof {
            self.ticks@ = old(self).ticks@ + 1;
        }
    }

    /// An external resize notification: recreate before the next tick.
    pub fn on_resize(&mut self)
        requires
            old(self).wf(),
            old(self).phase is Idle,
        ensures
            final(self).wf(),
            final(self).needs_recreate,
            *final(self) == (FrameScheduler { needs_recreate: true, ..*old(self) }),
    {
        self.needs_recreate = true;
    }

    /// A close request: the loop stops after the current tick; teardown
    /// follows, starting with a full device-idle wait.
    pub fn on_close_requested(&mut self)
        requires
            old(self).wf(),
            old(self).phase is Idle,
        ensures
            final(self).wf(),
            final(self).shutdown_requested,
            *final(self) == (FrameScheduler { shutdown_requested: true, ..*old(self) }),
    {
        self.shutdown_requested = true;
    }

    /// The shell rebuilt the swapchain (passing the old one as a hint and
    /// destroying it only once no in-flight frame references it). The
    /// generation advances, which invalidates the pipeline, framebuffers
    /// and command buffers until they are rebuilt.
    pub fn on_swapchain_recreated(&mut self, image_count: u32)
        requires
            old(self).wf(),
            old(self).phase is Idle,
            old(self).swapchain_generation < u64::MAX,
        ensures
            final(self).wf(),
            final(self).swapchain_generation == old(self).swapchain_generation + 1,
            final(self).resources_generation == old(self).resources_generation,
            !final(self).needs_recreate,
            final(self).image_count == image_count,
            final(self).phase is Idle,
            final(self).slots@ == old(self).slots@,
            final(self).current_frame == old(self).current_frame,
            final(self).shutdown_requested == old(self).shutdown_requested,
            final(self).ticks@ == old(self).ticks@,
    {
        self.swapchain_generation = self.swapchain_generation + 1;
        self.needs_recreate = false;
        self.image_count = image_count;
    }

    /// The shell rebuilt the pipeline, framebuffers and all command
    /// buffers against the current swapchain generation; ticks may run
    /// again.
    pub fn on_resources_rebuilt(&mut self)
        requires
            old(self).wf(),
            old(self).phase is Idle,
        ensures
            final(self).wf(),
            final(self).resources_generation == final(self).swapchain_generation,
            *final(self) == (FrameScheduler {
                resources_generation: old(self).swapchain_generation,
                ..*old(self)
            }),
    {
        self.resources_generation = self.swapchain_generation;
    }
}

/// A frame slot is never submitted to before its fence from the prior use
/// has signaled: at the point a submission is allowed the current slot's
/// fence is signaled, and the submission itself performs the only reset,
/// so the wait strictly precedes the reset for the same slot.
pub proof fn lemma_fence_wait_precedes_reset(s: FrameScheduler)
    requires
        s.wf(),
        s.phase is ImageAcquired,
    ensures
        s.slots@[s.current_frame as int].fence_signaled,
{
}

/// The slot index cycles zero, one, zero, one with the completed ticks.
pub proof fn lemma_current_frame_cycles(s: FrameScheduler)
    requires
        s.wf(),
    ensures
        s.current_frame < 2,
        s.current_frame == s.ticks@ % 2,
{
}

/// The slot index is a function of the completed ticks alone: two
/// schedulers with the same tick count agree on it regardless of how
/// many swapchain images either one has.
pub proof fn lemma_cycle_independent_of_image_count(s1: FrameScheduler, s2: FrameScheduler)
    requires
        s1.wf(),
        s2.wf(),
        s1.ticks@ == s2.ticks@,
    ensures
        s1.current_frame == s2.current_frame,
{
}

/// Nothing is ever submitted against a stale swapchain generation: while
/// a submission is in progress the resources were built against the
/// current generation, so recreation always rebuilds pipeline,
/// framebuffers and command buffers before the next submit and present.
pub proof fn lemma_no_stale_resources_submitted(s: FrameScheduler)
    requires
        s.wf(),
        s.phase is ImageAcquired || s.phase is Submitted,
    ensures
        s.resources_generation == s.swapchain_generation,
{
}

} // verus!

//! Frame pacing of the renderer: which of the frames in flight is recorded
//! next, and when the swapchain has to be rebuilt.
//!
//! The renderer drives this state machine once per redraw: `begin_frame`
//! before anything is submitted, `after_acquire` with what the swapchain
//! answered to the image request, and `after_present` with what the
//! presentation engine answered.  A resize of the window is reported with
//! `request_resize`.
use vstd::prelude::*;

verus! {

/// Number of frames that may be recorded and in flight on the GPU at once.
pub const MAX_FRAMES_IN_FLIGHT: usize = 2;

/// The abstract state of the frame pacer.
#[derive(Clone, Copy, Debug, PartialEq, Eq, Structural)]
pub struct FrameModel {
    /// Slot (command buffer, semaphores, fence) used by the next frame.
    pub current_frame: usize,
    /// Whether the swapchain must be rebuilt before the next frame.
    pub recreate_swapchain: bool,
}

/// What the renderer does when a redraw starts.
#[derive(Clone, Copy, Debug, PartialEq, Eq, Structural)]
pub enum FrameStart {
    /// The window has no area: nothing is drawn.
    Skip,
    /// Rebuild the swapchain and its dependents, and draw nothing this time.
    RecreateSwapchain,
    /// Record and submit a frame in the given slot.
    Render { frame: usize },
}

/// What the swapchain answered to the request for the next image.
#[derive(Clone, Copy, Debug, PartialEq, Eq, Structural)]
pub enum AcquireOutcome {
    /// An image was handed out; `suboptimal` when the swapchain no longer
    /// matches the surface exactly but can still be presented to.
    Acquired { image_index: u32, suboptimal: bool },
    /// The swapchain no longer matches the surface and cannot be used.
    OutOfDate,
    /// Any other error.
    Failed,
}

/// What the renderer does once the image request was answered.
#[derive(Clone, Copy, Debug, PartialEq, Eq, Structural)]
pub enum AcquireStep {
    /// Record the frame of slot `frame` into swapchain image `image_index`.
    Record { frame: usize, image_index: u32 },
    /// Give up on this frame; the swapchain is rebuilt on the next redraw.
    Abandon,
    /// An unrecoverable driver error.
    Fatal,
}

/// What the presentation engine answered.
#[derive(Clone, Copy, Debug, PartialEq, Eq, Structural)]
pub enum PresentOutcome {
    Presented,
    OutOfDate,
    Suboptimal,
    Failed,
}

/// What the renderer does once the frame was handed to the presentation engine.
#[derive(Clone, Copy, Debug, PartialEq, Eq, Structural)]
pub enum PresentStep {
    /// The frame is done; the next one uses the next slot.
    Continue,
    /// An unrecoverable driver error.
    Fatal,
}

pub open spec fn next_slot(frame: usize) -> usize {
    ((frame + 1) % (MAX_FRAMES_IN_FLIGHT as int)) as usize
}

/// The state and decision after a redraw starts in a window of the given size.
pub open spec fn spec_begin_frame(m: FrameModel, width: u32, height: u32) -> (FrameModel, FrameStart) {
    if width == 0 || height == 0 {
        (m, FrameStart::Skip)
    } else if m.recreate_swapchain {
        (FrameModel { recreate_swapchain: false, ..m }, FrameStart::RecreateSwapchain)
    } else {
        (m, FrameStart::Render { frame: m.current_frame })
    }
}

/// The state and decision after the swapchain answered the image request.
pub open spec fn spec_after_acquire(m: FrameModel, outcome: AcquireOutcome) -> (FrameModel, AcquireStep) {
    match outcome {
        AcquireOutcome::Acquired { image_index, suboptimal } => (
            FrameModel { recreate_swapchain: m.recreate_swapchain || suboptimal, ..m },
            AcquireStep::Record { frame: m.current_frame, image_index },
        ),
        AcquireOutcome::OutOfDate => (
            FrameModel { recreate_swapchain: true, ..m },
            AcquireStep::Abandon,
        ),
        AcquireOutcome::Failed => (m, AcquireStep::Fatal),
    }
}

/// The state and decision after the presentation engine answered.
pub open spec fn spec_after_present(m: FrameModel, outcome: PresentOutcome) -> (FrameModel, PresentStep) {
    match outcome {
        PresentOutcome::Presented => (
            FrameModel { current_frame: next_slot(m.current_frame), ..m },
            PresentStep::Continue,
        ),
        PresentOutcome::OutOfDate | PresentOutcome::Suboptimal => (
            FrameModel { current_frame: next_slot(m.current_frame), recreate_swapchain: true },
            PresentStep::Continue,
        ),
        PresentOutcome::Failed => (m, PresentStep::Fatal),
    }
}

/// The state after the window reported a new size.
pub open spec fn spec_request_resize(m: FrameModel) -> FrameModel {
    FrameModel { recreate_swapchain: true, ..m }
}

/// Slots are used in turn: whatever the presentation engine answers (short of
/// a fatal error), after `MAX_FRAMES_IN_FLIGHT` frames the pacer is back in
/// the slot it started from, and each of those frames used a slot of its own.
pub proof fn lemma_slots_cycle(m: FrameModel, first: PresentOutcome, second: PresentOutcome)
    requires
        m.current_frame < MAX_FRAMES_IN_FLIGHT,
        first != PresentOutcome::Failed,
        second != PresentOutcome::Failed,
    ensures
        ({
            let m1 = spec_after_present(m, first).0;
            let m2 = spec_after_present(m1, second).0;
            &&& m1.current_frame != m.current_frame
            &&& m1.current_frame < MAX_FRAMES_IN_FLIGHT
            &&& m2.current_frame == m.current_frame
        }),
{
}

/// A resize is never lost: the first redraw after it in a window with an
/// area rebuilds the swapchain, and redraws of an empty window in between
/// keep the request pending.
pub proof fn lemma_resize_rebuilds_swapchain(m: FrameModel, width: u32, height: u32)
    ensures
        width != 0 && height != 0 ==> spec_begin_frame(spec_request_resize(m), width, height) == (
            FrameModel { recreate_swapchain: false, ..m },
            FrameStart::RecreateSwapchain,
        ),
        width == 0 || height == 0 ==> spec_begin_frame(spec_request_resize(m), width, height).0
            == spec_request_resize(m),
{
}

/// The swapchain is rebuilt once per request: a redraw that rebuilt it is
/// followed, when nothing else happened, by one that renders in the same slot.
pub proof fn lemma_rebuild_once(m: FrameModel, width: u32, height: u32)
    requires
        spec_begin_frame(m, width, height).1 == FrameStart::RecreateSwapchain,
    ensures
        spec_begin_frame(spec_begin_frame(m, width, height).0, width, height) == (
            FrameModel { recreate_swapchain: false, ..m },
            FrameStart::Render { frame: m.current_frame },
        ),
{
}

/// A redraw of a window without area changes nothing.
pub proof fn lemma_empty_window_is_skipped(m: FrameModel, width: u32, height: u32)
    requires
        width == 0 || height == 0,
    ensures
        spec_begin_frame(m, width, height) == (m, FrameStart::Skip),
{
}

/// A fatal driver error leaves the pacer as it was.
pub proof fn lemma_fatal_changes_nothing(m: FrameModel)
    ensures
        spec_after_acquire(m, AcquireOutcome::Failed) == (m, AcquireStep::Fatal),
        spec_after_present(m, PresentOutcome::Failed) == (m, PresentStep::Fatal),
{
}

/// An acquired image is recorded in the pacer's current slot, the very slot
/// that the redraw's `begin_frame` reported, whatever image the swapchain
/// handed out; the slot does not move until the frame is presented.
pub proof fn lemma_acquired_image_uses_current_slot(
    m: FrameModel,
    width: u32,
    height: u32,
    image_index: u32,
    suboptimal: bool,
)
    requires
        spec_begin_frame(m, width, height).1 is Render,
    ensures
        ({
            let (m1, start) = spec_begin_frame(m, width, height);
            let (m2, step) = spec_after_acquire(m1, AcquireOutcome::Acquired { image_index, suboptimal });
            &&& start == FrameStart::Render { frame: m.current_frame }
            &&& step == AcquireStep::Record { frame: m.current_frame, image_index }
            &&& m2.current_frame == m.current_frame
        }),
{
}

/// Frame pacer of the renderer.
pub struct FrameState {
    current_frame: usize,
    recreate_swapchain: bool,
}

impl View for FrameState {
    type V = FrameModel;

    closed spec fn view(&self) -> FrameModel {
        FrameModel { current_frame: self.current_frame, recreate_swapchain: self.recreate_swapchain }
    }
}

impl FrameState {
    #[verifier::type_invariant]
    closed spec fn slot_in_range(&self) -> bool {
        self.current_frame < MAX_FRAMES_IN_FLIGHT
    }

    /// A pacer that starts in slot 0 with a fresh swapchain.
    pub fn new() -> (s: FrameState)
        ensures
            s@ == (FrameModel { current_frame: 0, recreate_swapchain: false }),
    {
        FrameState { current_frame: 0, recreate_swapchain: false }
    }

    /// Slot that the next frame uses.
    pub fn current_frame(&self) -> (f: usize)
        ensures
            f == self@.current_frame,
            f < MAX_FRAMES_IN_FLIGHT,
    {
        proof { use_type_invariant(self); }
        self.current_frame
    }

    /// Whether the swapchain is rebuilt before the next frame.
    pub fn needs_recreate(&self) -> (b: bool)
        ensures
            b == self@.recreate_swapchain,
    {
        self.recreate_swapchain
    }

    /// Decides how a redraw in a window of `width` by `height` pixels starts.
    pub fn begin_frame(&mut self, width: u32, height: u32) -> (step: FrameStart)
        ensures
            (final(self)@, step) == spec_begin_frame(old(self)@, width, height),
            final(self)@.current_frame < MAX_FRAMES_IN_FLIGHT,
    {
        proof { use_type_invariant(&*self); }
        if width == 0 || height == 0 {
            FrameStart::Skip
        } else if self.recreate_swapchain {
            self.recreate_swapchain = false;
            FrameStart::RecreateSwapchain
        } else {
            FrameStart::Render { frame: self.current_frame }
        }
    }

    /// Decides what follows the swapchain's answer to the image request.
    pub fn after_acquire(&mut self, outcome: AcquireOutcome) -> (step: AcquireStep)
        ensures
            (final(self)@, step) == spec_after_acquire(old(self)@, outcome),
            final(self)@.current_frame < MAX_FRAMES_IN_FLIGHT,
    {
        proof { use_type_invariant(&*self); }
        match outcome {
            AcquireOutcome::Acquired { image_index, suboptimal } => {
                if suboptimal {
                    self.recreate_swapchain = true;
                }
                AcquireStep::Record { frame: self.current_frame, image_index }
            },
            AcquireOutcome::OutOfDate => {
                self.recreate_swapchain = true;
                AcquireStep::Abandon
            },
            AcquireOutcome::Failed => AcquireStep::Fatal,
        }
    }

    /// Decides what follows the presentation engine's answer, and moves on
    /// to the next slot unless the answer was a fatal error.
    pub fn after_present(&mut self, outcome: PresentOutcome) -> (step: PresentStep)
        ensures
            (final(self)@, step) == spec_after_present(old(self)@, outcome),
            final(self)@.current_frame < MAX_FRAMES_IN_FLIGHT,
    {
        proof { use_type_invariant(&*self); }
        match outcome {
            PresentOutcome::Presented => {},
            PresentOutcome::OutOfDate | PresentOutcome::Suboptimal => {
                self.recreate_swapchain = true;
            },
            PresentOutcome::Failed => {
                return PresentStep::Fatal;
            },
        }
        self.current_frame = (self.current_frame + 1) % MAX_FRAMES_IN_FLIGHT;
        PresentStep::Continue
    }

    /// Records that the window changed size: the swapchain is rebuilt
    /// before the next frame.
    pub fn request_resize(&mut self)
        ensures
            final(self)@ == spec_request_resize(old(self)@),
            final(self)@.current_frame < MAX_FRAMES_IN_FLIGHT,
    {
        proof { use_type_invariant(&*self); }
        self.recreate_swapchain = true;
    }
}

} // verus!

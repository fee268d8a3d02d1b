//! The frame scheduler: the state machine that takes one frame from the wait
//! for the frame before it, through the rebuild of the swapchain where one is
//! due, to acquisition, recording, submission and presentation.
//!
//! The scheduler decides and the host acts. Each step takes what the host
//! reports and answers with the directive that the host carries out next.

use crate::completion::{CompletionHandle, CompletionTracker, FlushError, HandleView, Link};
use crate::geometry::Extent;
use crate::resources::{
    ResourceSetView, SwapchainCreationError, SwapchainRequest, SwapchainResourceSet,
};
use crate::surface::{DeviceContext, SurfaceCapabilities};
use vstd::prelude::*;

verus! {

/// Where a frame stands. Each phase but `Idle` waits for the host's report on
/// the directive that was given on entering it.
#[derive(Clone, Copy, Debug, PartialEq, Eq, Structural)]
pub enum Phase {
    Idle,
    WaitPrevious,
    MaybeRecreate,
    AcquireImage,
    Record,
    Submit,
    Present,
}

/// Why no image could be acquired.
#[derive(Clone, Copy, Debug, PartialEq, Eq, Structural)]
pub enum AcquireError {
    /// The surface has changed so that the swapchain no longer fits it.
    OutOfDate,
    OutOfMemory,
    DeviceLost,
    Timeout,
    SurfaceLost,
    FullscreenExclusiveLost,
}

/// What the host reports to the scheduler.
#[derive(Clone, Debug, PartialEq, Eq)]
pub enum Event {
    /// The host wants a frame drawn.
    FrameRequested,
    /// What the device had finished of earlier frames has been cleaned up.
    PreviousCleaned,
    /// The current size of the surface, and what the surface reports now.
    SurfaceMeasured { extent: Extent, capabilities: SurfaceCapabilities },
    /// The device has made the swapchain that was asked for, with this many
    /// images.
    SwapchainRecreated { image_count: u32 },
    /// The device has not made the swapchain.
    SwapchainRefused(SwapchainCreationError),
    /// The image with this index is ready to be drawn to. A suboptimal
    /// swapchain still works, but no longer matches the surface.
    ImageAcquired { image: usize, suboptimal: bool },
    AcquireFailed(AcquireError),
    /// The commands of the frame have been recorded.
    CommandsRecorded,
    RecordingFailed,
    /// The frame's chain of device work has been put together.
    SubmissionChained,
    ChainingFailed,
    /// The device has accepted the frame's chain.
    Flushed,
    FlushFailed(FlushError),
}

/// The color that a color image is cleared to, eight bits per channel.
#[derive(Clone, Copy, Debug, PartialEq, Eq, Structural)]
pub struct ClearColor {
    pub red: u8,
    pub green: u8,
    pub blue: u8,
    pub alpha: u8,
}

/// The commands of one frame: a render pass on one framebuffer that clears
/// color and depth and draws once with the current pipeline and vertex buffer.
/// A sequence is recorded for one submission and not used again.
#[derive(Clone, Copy, Debug, PartialEq, Eq, Structural)]
pub struct CommandSequence {
    pub framebuffer: usize,
    pub clear_color: ClearColor,
    /// Depth that the depth attachment is cleared to, as a 16-bit normalized
    /// value.
    pub clear_depth: u16,
    pub draw_calls: u32,
}

impl CommandSequence {
    /// The commands of a frame that draws to the given framebuffer: opaque
    /// blue and the farthest depth as clear values, and one draw call.
    pub open spec fn for_framebuffer(framebuffer: usize) -> CommandSequence {
        CommandSequence {
            framebuffer,
            clear_color: ClearColor { red: 0, green: 0, blue: 255, alpha: 255 },
            clear_depth: 65535,
            draw_calls: 1,
        }
    }

    pub fn record(framebuffer: usize) -> (commands: CommandSequence)
        ensures
            commands == Self::for_framebuffer(framebuffer),
    {
        CommandSequence {
            framebuffer,
            clear_color: ClearColor { red: 0, green: 0, blue: 255, alpha: 255 },
            clear_depth: 65535,
            draw_calls: 1,
        }
    }
}

/// Why a frame was given up without harm.
#[derive(Clone, Copy, Debug, PartialEq, Eq, Structural)]
pub enum SkipReason {
    /// The surface refuses the extent that it has at the moment.
    UnsupportedDimensions,
    /// The swapchain no longer fits the surface.
    OutOfDate,
}

/// Why the render loop has to stop.
#[derive(Clone, Copy, Debug, PartialEq, Eq, Structural)]
pub enum FatalError {
    Swapchain(SwapchainCreationError),
    Acquire(AcquireError),
    /// The device named an image that the swapchain does not have.
    ImageOutOfRange,
    Recording,
    Submission,
    /// The host reported something that the scheduler was not waiting for.
    UnexpectedEvent,
}

/// How a frame ended.
#[derive(Clone, Copy, Debug, PartialEq, Eq, Structural)]
pub enum FrameOutcome {
    /// The frame was drawn to this image and handed over for presentation.
    Presented { image: usize },
    /// Nothing was drawn; the next frame tries again.
    Skipped(SkipReason),
    /// The device refused the frame at the flush. The loop goes on with a
    /// fresh completion handle and a rebuilt swapchain.
    PresentFailed(FlushError),
    Fatal(FatalError),
}

/// What the host is to do next.
#[derive(Clone, Copy, Debug, PartialEq, Eq, Structural)]
pub enum Directive {
    /// Release what the device has finished of earlier frames, without
    /// blocking. Answered by `PreviousCleaned`.
    CleanupFinished,
    /// Read the current size of the surface and its capabilities. Answered by
    /// `SurfaceMeasured`.
    MeasureSurface,
    /// Replace the swapchain by one made with these parameters. Answered by
    /// `SwapchainRecreated` or `SwapchainRefused`.
    RecreateSwapchain(SwapchainRequest),
    /// Acquire the next image, without a timeout. Answered by `ImageAcquired`
    /// or `AcquireFailed`.
    AcquireImage,
    /// Record these commands. Answered by `CommandsRecorded` or
    /// `RecordingFailed`.
    Record(CommandSequence),
    /// Chain, behind the handle of the frame before, the acquisition of the
    /// image, the execution of the recorded commands and the presentation of
    /// the image. Answered by `SubmissionChained` or `ChainingFailed`.
    Submit { image: usize },
    /// Close the chain behind a fence and flush it. Answered by `Flushed` or
    /// `FlushFailed`.
    Flush,
    /// The frame is over.
    Finish(FrameOutcome),
}

/// The state of a scheduler as mathematical values.
#[verifier::ext_equal]
pub struct SchedulerView {
    pub phase: Phase,
    pub resources: ResourceSetView,
    /// The handle that the completion tracker holds.
    pub token: HandleView,
    /// The image that the frame draws to, from its acquisition on.
    pub image: usize,
    /// The swapchain that the device has been asked for and has not answered
    /// yet.
    pub proposal: Option<SwapchainRequest>,
}

/// A step of the scheduler: the state after it, the resize flag after it, and
/// the directive for the host.
#[verifier::ext_equal]
pub struct Transition {
    pub state: SchedulerView,
    pub resize_requested: bool,
    pub directive: Directive,
}

impl SchedulerView {
    /// The state of a scheduler that has drawn nothing yet.
    pub open spec fn initial(resources: ResourceSetView) -> SchedulerView {
        SchedulerView {
            phase: Phase::Idle,
            resources,
            token: HandleView::complete(),
            image: 0,
            proposal: None,
        }
    }

    /// The invariant of a scheduler: its resources are well formed, the
    /// tracker holds a flushed or finished handle, a frame that has acquired an
    /// image has one that the swapchain holds, and a swapchain is asked for
    /// only while a rebuild is under way.
    pub open spec fn well_formed(self) -> bool {
        &&& self.resources.well_formed()
        &&& self.token.sealed
        &&& (self.phase == Phase::Record || self.phase == Phase::Submit || self.phase
            == Phase::Present) ==> self.image < self.resources.framebuffers.len()
        &&& self.proposal matches Some(request) ==> self.phase == Phase::MaybeRecreate
    }

    /// The frame ends: back to `Idle`, with nothing asked of the device.
    pub open spec fn finish(self, resize_requested: bool, outcome: FrameOutcome) -> Transition {
        Transition {
            state: SchedulerView { phase: Phase::Idle, proposal: None, ..self },
            resize_requested,
            directive: Directive::Finish(outcome),
        }
    }

    /// The frame goes on to the next phase.
    pub open spec fn advance(self, resize_requested: bool, phase: Phase, directive: Directive) -> Transition {
        Transition { state: SchedulerView { phase, ..self }, resize_requested, directive }
    }

    /// The host reported what the scheduler was not waiting for: the frame
    /// ends and the loop has to stop.
    pub open spec fn unexpected(self, resize_requested: bool) -> Transition {
        self.finish(resize_requested, FrameOutcome::Fatal(FatalError::UnexpectedEvent))
    }

    /// A swapchain was refused, by the scheduler's own check or by the device:
    /// the frame is skipped where the extent is the reason, and the loop stops
    /// on any other.
    pub open spec fn refuse(self, resize_requested: bool, reason: SwapchainCreationError) -> Transition {
        if reason.recoverable() {
            self.finish(resize_requested, FrameOutcome::Skipped(SkipReason::UnsupportedDimensions))
        } else {
            self.finish(resize_requested, FrameOutcome::Fatal(FatalError::Swapchain(reason)))
        }
    }

    /// The step taken in `Idle`.
    pub open spec fn step_idle(self, resize_requested: bool, event: Event) -> Transition {
        match event {
            Event::FrameRequested => self.advance(
                resize_requested,
                Phase::WaitPrevious,
                Directive::CleanupFinished,
            ),
            _ => self.unexpected(resize_requested),
        }
    }

    /// The step taken in `WaitPrevious`: on to the rebuild where a resize is
    /// due, else straight to the acquisition.
    pub open spec fn step_wait_previous(self, resize_requested: bool, event: Event) -> Transition {
        match event {
            Event::PreviousCleaned => if resize_requested {
                self.advance(resize_requested, Phase::MaybeRecreate, Directive::MeasureSurface)
            } else {
                self.advance(resize_requested, Phase::AcquireImage, Directive::AcquireImage)
            },
            _ => self.unexpected(resize_requested),
        }
    }

    /// The step taken in `MaybeRecreate`. The measured extent is held against
    /// the surface first, and the device is asked only for what passes. The
    /// resize flag is cleared once the new resources stand.
    pub open spec fn step_maybe_recreate(self, resize_requested: bool, event: Event) -> Transition {
        match (self.proposal, event) {
            (None, Event::SurfaceMeasured { extent, capabilities }) => {
                let request = self.resources.request.with_extent(extent);
                match request.rejection(&capabilities) {
                    Some(reason) => self.refuse(resize_requested, reason),
                    None => Transition {
                        state: SchedulerView { proposal: Some(request), ..self },
                        resize_requested,
                        directive: Directive::RecreateSwapchain(request),
                    },
                }
            },
            (Some(request), Event::SwapchainRecreated { image_count }) => {
                match ResourceSetView::assembly(request, image_count) {
                    Ok(resources) => Transition {
                        state: SchedulerView {
                            phase: Phase::AcquireImage,
                            resources,
                            proposal: None,
                            ..self
                        },
                        resize_requested: false,
                        directive: Directive::AcquireImage,
                    },
                    Err(reason) => self.finish(
                        resize_requested,
                        FrameOutcome::Fatal(FatalError::Swapchain(reason)),
                    ),
                }
            },
            (Some(request), Event::SwapchainRefused(reason)) => self.refuse(
                resize_requested,
                reason,
            ),
            _ => self.unexpected(resize_requested),
        }
    }

    /// The step taken in `AcquireImage`. A suboptimal image is drawn to all
    /// the same, and the resize flag is raised for the next frame.
    pub open spec fn step_acquire_image(self, resize_requested: bool, event: Event) -> Transition {
        match event {
            Event::ImageAcquired { image, suboptimal } => if image
                < self.resources.framebuffers.len() {
                Transition {
                    state: SchedulerView { phase: Phase::Record, image, ..self },
                    resize_requested: resize_requested || suboptimal,
                    directive: Directive::Record(CommandSequence::for_framebuffer(image)),
                }
            } else {
                self.finish(resize_requested, FrameOutcome::Fatal(FatalError::ImageOutOfRange))
            },
            Event::AcquireFailed(error) => if error == AcquireError::OutOfDate {
                self.finish(resize_requested, FrameOutcome::Skipped(SkipReason::OutOfDate))
            } else {
                self.finish(resize_requested, FrameOutcome::Fatal(FatalError::Acquire(error)))
            },
            _ => self.unexpected(resize_requested),
        }
    }

    /// The step taken in `Record`.
    pub open spec fn step_record(self, resize_requested: bool, event: Event) -> Transition {
        match event {
            Event::CommandsRecorded => self.advance(
                resize_requested,
                Phase::Submit,
                Directive::Submit { image: self.image },
            ),
            Event::RecordingFailed => self.finish(
                resize_requested,
                FrameOutcome::Fatal(FatalError::Recording),
            ),
            _ => self.unexpected(resize_requested),
        }
    }

    /// The step taken in `Submit`.
    pub open spec fn step_submit(self, resize_requested: bool, event: Event) -> Transition {
        match event {
            Event::SubmissionChained => self.advance(
                resize_requested,
                Phase::Present,
                Directive::Flush,
            ),
            Event::ChainingFailed => self.finish(
                resize_requested,
                FrameOutcome::Fatal(FatalError::Submission),
            ),
            _ => self.unexpected(resize_requested),
        }
    }

    /// The step taken in `Present`. Where the device accepts the flush, the
    /// frame's chain, sealed, becomes the tracker's handle. Where it does not,
    /// the tracker is reset to the handle of finished work and the resize flag
    /// is raised, whatever the error.
    pub open spec fn step_present(self, resize_requested: bool, event: Event) -> Transition {
        match event {
            Event::Flushed => Transition {
                state: SchedulerView {
                    phase: Phase::Idle,
                    token: self.token.frame_chain(self.image).flushed(),
                    ..self
                },
                resize_requested,
                directive: Directive::Finish(FrameOutcome::Presented { image: self.image }),
            },
            Event::FlushFailed(error) => Transition {
                state: SchedulerView { phase: Phase::Idle, token: HandleView::complete(), ..self },
                resize_requested: true,
                directive: Directive::Finish(FrameOutcome::PresentFailed(error)),
            },
            _ => self.unexpected(resize_requested),
        }
    }

    /// One step of the scheduler: from a state, the resize flag and what the
    /// host reports to the next state, the flag and the next directive.
    pub open spec fn step(self, resize_requested: bool, event: Event) -> Transition {
        match self.phase {
            Phase::Idle => self.step_idle(resize_requested, event),
            Phase::WaitPrevious => self.step_wait_previous(resize_requested, event),
            Phase::MaybeRecreate => self.step_maybe_recreate(resize_requested, event),
            Phase::AcquireImage => self.step_acquire_image(resize_requested, event),
            Phase::Record => self.step_record(resize_requested, event),
            Phase::Submit => self.step_submit(resize_requested, event),
            Phase::Present => self.step_present(resize_requested, event),
        }
    }
}

impl SchedulerView {
    /// The last step of a frame that runs through without a resize: cleanup,
    /// the acquisition of `image` from a swapchain that still fits, recording,
    /// submission and a flush that the device accepts.
    pub open spec fn after_frame(self, image: usize) -> Transition {
        let requested = self.step(false, Event::FrameRequested);
        let cleaned = requested.state.step(requested.resize_requested, Event::PreviousCleaned);
        let acquired = cleaned.state.step(
            cleaned.resize_requested,
            Event::ImageAcquired { image, suboptimal: false },
        );
        let recorded = acquired.state.step(acquired.resize_requested, Event::CommandsRecorded);
        let chained = recorded.state.step(recorded.resize_requested, Event::SubmissionChained);
        chained.state.step(chained.resize_requested, Event::Flushed)
    }

    /// The state after as many such frames as `images` has items, frame `k`
    /// drawing to image `images[k]`.
    pub open spec fn after_frames(self, images: Seq<usize>) -> SchedulerView
        decreases images.len(),
    {
        if images.len() == 0 {
            self
        } else {
            self.after_frames(images.drop_last()).after_frame(images.last()).state
        }
    }
}

/// Every step keeps the invariant of the scheduler, whatever the host reports.
pub proof fn lemma_step_keeps_well_formed(state: SchedulerView, resize_requested: bool, event: Event)
    requires
        state.well_formed(),
    ensures
        state.step(resize_requested, event).state.well_formed(),
{
    if state.phase == Phase::MaybeRecreate {
        match (state.proposal, event) {
            (Some(request), Event::SwapchainRecreated { image_count }) => {
                if ResourceSetView::assembly(request, image_count) is Ok {
                    crate::resources::lemma_assembled_well_formed(request, image_count as nat);
                }
            },
            _ => {},
        }
    }
}

/// The resources change in one step only: the one in which the device reports
/// the swapchain that a rebuild asked for. No step changes them in the middle
/// of a frame, and none changes the depth format or the sample count.
pub proof fn lemma_resources_change_only_by_rebuild(
    state: SchedulerView,
    resize_requested: bool,
    event: Event,
)
    requires
        state.well_formed(),
    ensures
        !(state.phase == Phase::MaybeRecreate && state.proposal is Some
            && event is SwapchainRecreated) ==> state.step(resize_requested, event).state.resources
            == state.resources,
        state.step(resize_requested, event).state.resources.depth.format
            == state.resources.depth.format,
        state.step(resize_requested, event).state.resources.depth.samples
            == state.resources.depth.samples,
{
    lemma_step_keeps_well_formed(state, resize_requested, event);
}

/// A measured extent that the surface does not admit, be it without area or
/// beyond the reported bounds, ends the frame as skipped and changes nothing
/// else: the resources stay, the tracker's handle stays, and the resize flag
/// stays as it was, so that the next frame measures again.
pub proof fn lemma_refused_extent_skips_frame(
    state: SchedulerView,
    resize_requested: bool,
    extent: Extent,
    capabilities: SurfaceCapabilities,
)
    requires
        state.well_formed(),
        state.phase == Phase::MaybeRecreate,
        state.proposal is None,
        !capabilities.admits_extent(extent),
    ensures
        state.step(resize_requested, Event::SurfaceMeasured { extent, capabilities }) == (Transition {
            state: SchedulerView { phase: Phase::Idle, ..state },
            resize_requested,
            directive: Directive::Finish(FrameOutcome::Skipped(SkipReason::UnsupportedDimensions)),
        }),
{
}

/// An image that is acquired from a swapchain that no longer matches the
/// surface is drawn to all the same, with the resources as they are; the
/// resize flag is raised for the frame after.
pub proof fn lemma_suboptimal_image_is_drawn(state: SchedulerView, resize_requested: bool, image: usize)
    requires
        state.well_formed(),
        state.phase == Phase::AcquireImage,
        image < state.resources.framebuffers.len(),
    ensures
        state.step(resize_requested, Event::ImageAcquired { image, suboptimal: true }) == (Transition {
            state: SchedulerView { phase: Phase::Record, image, ..state },
            resize_requested: true,
            directive: Directive::Record(CommandSequence::for_framebuffer(image)),
        }),
{
}

/// A frame without a resize, from an idle scheduler, presents its image and
/// leaves the scheduler idle, with the same resources and with the resize
/// flag down. The tracker then holds the sealed chain of this frame alone,
/// behind at most one step for all the work before it.
pub proof fn lemma_frame_presents(state: SchedulerView, image: usize)
    requires
        state.well_formed(),
        state.phase == Phase::Idle,
        image < state.resources.framebuffers.len(),
    ensures
        state.after_frame(image) == (Transition {
            state: SchedulerView {
                image,
                token: state.token.frame_chain(image).flushed(),
                ..state
            },
            resize_requested: false,
            directive: Directive::Finish(FrameOutcome::Presented { image }),
        }),
        state.after_frame(image).state.well_formed(),
        state.after_frame(image).state.token.links =~= state.token.pending() + seq![
            Link::ImageAcquired { image },
            Link::Execute { framebuffer: image },
            Link::Present { image },
        ],
{
    crate::completion::lemma_frame_chain_is_bounded(state.token, image);
}

/// After any number of frames without a resize, one after the other, the
/// scheduler is idle with the resources that it began with, and its tracker
/// holds one sealed handle: the chain of the last frame. From the second
/// frame on that chain has four steps, the first of which stands for all
/// earlier work, so that no more than one frame is ever waited for.
pub proof fn lemma_frames_keep_one_token(state: SchedulerView, images: Seq<usize>)
    requires
        state.well_formed(),
        state.phase == Phase::Idle,
        images.len() >= 1,
        forall|k: int| 0 <= k < images.len() ==> #[trigger] images[k] < state.resources.framebuffers.len(),
    ensures
        state.after_frames(images).well_formed(),
        state.after_frames(images).phase == Phase::Idle,
        state.after_frames(images).resources == state.resources,
        state.after_frames(images).token.sealed,
        !state.after_frames(images).token.satisfied(),
        state.after_frames(images).token.links =~= (if images.len() == 1 {
            state.token.pending()
        } else {
            seq![Link::Prior]
        }) + seq![
            Link::ImageAcquired { image: images.last() },
            Link::Execute { framebuffer: images.last() },
            Link::Present { image: images.last() },
        ],
        state.after_frames(images).token.links.len() <= 4,
    decreases images.len(),
{
    let earlier = images.drop_last();
    let image = images.last();
    assert(state.after_frames(images) == state.after_frames(earlier).after_frame(image).state);
    if earlier.len() == 0 {
        assert(state.after_frames(earlier) == state);
        lemma_frame_presents(state, image);
        crate::completion::lemma_frame_chain_is_bounded(state.token, image);
    } else {
        assert forall|k: int| 0 <= k < earlier.len() implies #[trigger] earlier[k]
            < state.resources.framebuffers.len() by {
            assert(earlier[k] == images[k]);
        }
        lemma_frames_keep_one_token(state, earlier);
        let before = state.after_frames(earlier);
        lemma_frame_presents(before, image);
        crate::completion::lemma_frame_chain_is_bounded(before.token, image);
    }
}

/// The resize flag, handed to the scheduler with every step. The host raises
/// it on a resize notification; the scheduler clears it once the swapchain has
/// been rebuilt.
#[derive(Clone, Copy, Debug, PartialEq, Eq, Structural)]
pub struct FrameContext {
    pub resize_requested: bool,
}

/// What the window system tells the render loop.
#[derive(Clone, Copy, Debug, PartialEq, Eq, Structural)]
pub enum HostEvent {
    CloseRequested,
    Resized,
    /// All pending events have been handled: time to draw.
    MainEventsCleared,
    Other,
}

/// What the render loop does about an event of the window system.
#[derive(Clone, Copy, Debug, PartialEq, Eq, Structural)]
pub enum LoopControl {
    Continue,
    Draw,
    Exit,
}

impl FrameContext {
    /// A context with the resize flag down.
    pub fn new() -> (context: FrameContext)
        ensures
            !context.resize_requested,
    {
        FrameContext { resize_requested: false }
    }

    /// Takes an event of the window system: a resize raises the flag, a close
    /// request ends the loop, and a frame is drawn when the events have been
    /// cleared. Nothing else is of interest.
    pub fn dispatch(&mut self, event: HostEvent) -> (control: LoopControl)
        ensures
            final(self).resize_requested == (old(self).resize_requested || event
                == HostEvent::Resized),
            control == match event {
                HostEvent::CloseRequested => LoopControl::Exit,
                HostEvent::MainEventsCleared => LoopControl::Draw,
                _ => LoopControl::Continue,
            },
    {
        match event {
            HostEvent::CloseRequested => LoopControl::Exit,
            HostEvent::Resized => {
                self.resize_requested = true;
                LoopControl::Continue
            },
            HostEvent::MainEventsCleared => LoopControl::Draw,
            HostEvent::Other => LoopControl::Continue,
        }
    }
}

/// The frame scheduler. It owns the resources of the swapchain and the
/// completion tracker.
#[derive(Debug, PartialEq, Eq)]
pub struct FrameScheduler {
    phase: Phase,
    resources: SwapchainResourceSet,
    tracker: CompletionTracker,
    image: usize,
    proposal: Option<SwapchainRequest>,
}

impl View for FrameScheduler {
    type V = SchedulerView;

    closed spec fn view(&self) -> SchedulerView {
        SchedulerView {
            phase: self.phase,
            resources: self.resources@,
            token: self.tracker.token(),
            image: self.image,
            proposal: self.proposal,
        }
    }
}

impl FrameScheduler {
    #[verifier::type_invariant]
    spec fn consistent(&self) -> bool {
        self@.well_formed()
    }

    /// A scheduler for the given resources, idle, with the handle of finished
    /// work in its tracker.
    pub fn new(resources: SwapchainResourceSet) -> (scheduler: FrameScheduler)
        ensures
            scheduler@ == SchedulerView::initial(resources@),
            scheduler@.well_formed(),
    {
        let set = resources;
        proof {
            use_type_invariant(&set);
        }
        FrameScheduler {
            phase: Phase::Idle,
            resources: set,
            tracker: CompletionTracker::new(),
            image: 0,
            proposal: None,
        }
    }

    /// Makes the resources for the surface of the context at the given extent
    /// and a scheduler for them. A failure here ends the start of the
    /// renderer.
    pub fn start(context: &DeviceContext, extent: Extent) -> (started: Result<
        FrameScheduler,
        SwapchainCreationError,
    >)
        ensures
            match started {
                Ok(scheduler) => {
                    &&& ResourceSetView::created(&context.surface(), extent) matches Ok(resources)
                    &&& scheduler@ == SchedulerView::initial(resources)
                    &&& scheduler@.well_formed()
                },
                Err(reason) => ResourceSetView::created(&context.surface(), extent) == Err::<
                    ResourceSetView,
                    SwapchainCreationError,
                >(reason),
            },
    {
        match SwapchainResourceSet::create(context, extent) {
            Ok(resources) => Ok(Self::new(resources)),
            Err(reason) => Err(reason),
        }
    }

    pub fn phase(&self) -> (phase: Phase)
        ensures
            phase == self@.phase,
    {
        self.phase
    }

    /// The resources that frames are drawn with at present.
    pub fn resources(&self) -> (resources: &SwapchainResourceSet)
        ensures
            resources@ == self@.resources,
            resources@.well_formed(),
    {
        proof {
            use_type_invariant(self);
        }
        &self.resources
    }

    /// The completion tracker. Its handle is always a flushed or finished one.
    pub fn tracker(&self) -> (tracker: &CompletionTracker)
        ensures
            tracker.token() == self@.token,
            tracker.token().sealed,
    {
        proof {
            use_type_invariant(self);
        }
        &self.tracker
    }

    /// The image that the frame under way draws to, once it has acquired one.
    pub fn acquired_image(&self) -> (image: Option<usize>)
        ensures
            image == if self@.phase == Phase::Record || self@.phase == Phase::Submit
                || self@.phase == Phase::Present {
                Some(self@.image)
            } else {
                None
            },
            image matches Some(index) ==> index < self@.resources.framebuffers.len(),
    {
        proof {
            use_type_invariant(self);
        }
        match self.phase {
            Phase::Record | Phase::Submit | Phase::Present => Some(self.image),
            _ => None,
        }
    }

    fn finish(&mut self, outcome: FrameOutcome) -> (directive: Directive)
        ensures
            final(self)@ == (SchedulerView { phase: Phase::Idle, proposal: None, ..old(self)@ }),
            directive == Directive::Finish(outcome),
    {
        proof {
            use_type_invariant(&*self);
        }
        self.proposal = None;
        self.phase = Phase::Idle;
        Directive::Finish(outcome)
    }

    fn refuse(&mut self, reason: SwapchainCreationError) -> (directive: Directive)
        ensures
            final(self)@ == (SchedulerView { phase: Phase::Idle, proposal: None, ..old(self)@ }),
            directive == if reason.recoverable() {
                Directive::Finish(FrameOutcome::Skipped(SkipReason::UnsupportedDimensions))
            } else {
                Directive::Finish(FrameOutcome::Fatal(FatalError::Swapchain(reason)))
            },
    {
        if reason.is_recoverable() {
            self.finish(FrameOutcome::Skipped(SkipReason::UnsupportedDimensions))
        } else {
            self.finish(FrameOutcome::Fatal(FatalError::Swapchain(reason)))
        }
    }

    fn maybe_recreate(&mut self, context: &mut FrameContext, event: &Event) -> (directive: Directive)
        requires
            old(self)@.phase == Phase::MaybeRecreate,
        ensures
            (Transition {
                state: final(self)@,
                resize_requested: final(context).resize_requested,
                directive,
            }) == old(self)@.step_maybe_recreate(old(context).resize_requested, *event),
    {
        proof {
            use_type_invariant(&*self);
        }
        match (self.proposal, event) {
            (None, Event::SurfaceMeasured { extent, capabilities }) => {
                match self.resources.request().resized(capabilities, *extent) {
                    Ok(request) => {
                        self.proposal = Some(request);
                        Directive::RecreateSwapchain(request)
                    },
                    Err(reason) => self.refuse(reason),
                }
            },
            (Some(request), Event::SwapchainRecreated { image_count }) => {
                match SwapchainResourceSet::assemble(request, *image_count) {
                    Ok(resources) => {
                        self.proposal = None;
                        self.resources = resources;
                        self.phase = Phase::AcquireImage;
                        context.resize_requested = false;
                        Directive::AcquireImage
                    },
                    Err(reason) => self.finish(FrameOutcome::Fatal(FatalError::Swapchain(reason))),
                }
            },
            (Some(_), Event::SwapchainRefused(reason)) => self.refuse(*reason),
            _ => self.finish(FrameOutcome::Fatal(FatalError::UnexpectedEvent)),
        }
    }

    fn acquire_image(&mut self, context: &mut FrameContext, event: &Event) -> (directive: Directive)
        requires
            old(self)@.phase == Phase::AcquireImage,
        ensures
            (Transition {
                state: final(self)@,
                resize_requested: final(context).resize_requested,
                directive,
            }) == old(self)@.step_acquire_image(old(context).resize_requested, *event),
    {
        proof {
            use_type_invariant(&*self);
        }
        match event {
            Event::ImageAcquired { image, suboptimal } => {
                if *image < self.resources.image_count() {
                    if *suboptimal {
                        context.resize_requested = true;
                    }
                    self.image = *image;
                    self.phase = Phase::Record;
                    Directive::Record(CommandSequence::record(*image))
                } else {
                    self.finish(FrameOutcome::Fatal(FatalError::ImageOutOfRange))
                }
            },
            Event::AcquireFailed(error) => {
                match error {
                    AcquireError::OutOfDate => self.finish(
                        FrameOutcome::Skipped(SkipReason::OutOfDate),
                    ),
                    _ => self.finish(FrameOutcome::Fatal(FatalError::Acquire(*error))),
                }
            },
            _ => self.finish(FrameOutcome::Fatal(FatalError::UnexpectedEvent)),
        }
    }

    fn present(&mut self, context: &mut FrameContext, event: &Event) -> (directive: Directive)
        requires
            old(self)@.phase == Phase::Present,
        ensures
            (Transition {
                state: final(self)@,
                resize_requested: final(context).resize_requested,
                directive,
            }) == old(self)@.step_present(old(context).resize_requested, *event),
    {
        proof {
            use_type_invariant(&*self);
        }
        let outcome: Result<(), FlushError> = match event {
            Event::Flushed => Ok(()),
            Event::FlushFailed(error) => Err(*error),
            _ => {
                return self.finish(FrameOutcome::Fatal(FatalError::UnexpectedEvent));
            },
        };
        let image: usize = self.image;
        // The tracker is worked on outside the scheduler and put back at the end.
        let mut tracker = CompletionTracker::new();
        std::mem::swap(&mut self.tracker, &mut tracker);
        let prior = tracker.take_and_replace(CompletionHandle::complete());
        let chain = prior.join(CompletionHandle::image_acquired(image)).then_execute(
            image,
        ).then_present(image);
        let directive = match chain.then_signal_and_flush(outcome) {
            Ok(token) => {
                let _ = tracker.take_and_replace(token);
                Directive::Finish(FrameOutcome::Presented { image })
            },
            Err(error) => {
                tracker.reset_to_complete();
                context.resize_requested = true;
                Directive::Finish(FrameOutcome::PresentFailed(error))
            },
        };
        std::mem::swap(&mut self.tracker, &mut tracker);
        self.phase = Phase::Idle;
        directive
    }

    /// Takes one step: from what the host reports to the directive that it
    /// carries out next. The resize flag in `context` is raised and cleared as
    /// the step asks.
    pub fn step(&mut self, context: &mut FrameContext, event: &Event) -> (directive: Directive)
        ensures
            (Transition {
                state: final(self)@,
                resize_requested: final(context).resize_requested,
                directive,
            }) == old(self)@.step(old(context).resize_requested, *event),
            final(self)@.well_formed(),
    {
        proof {
            use_type_invariant(&*self);
        }
        let directive = match self.phase {
            Phase::Idle => match event {
                Event::FrameRequested => {
                    self.phase = Phase::WaitPrevious;
                    Directive::CleanupFinished
                },
                _ => self.finish(FrameOutcome::Fatal(FatalError::UnexpectedEvent)),
            },
            Phase::WaitPrevious => match event {
                Event::PreviousCleaned => {
                    if context.resize_requested {
                        self.phase = Phase::MaybeRecreate;
                        Directive::MeasureSurface
                    } else {
                        self.phase = Phase::AcquireImage;
                        Directive::AcquireImage
                    }
                },
                _ => self.finish(FrameOutcome::Fatal(FatalError::UnexpectedEvent)),
            },
            Phase::MaybeRecreate => self.maybe_recreate(context, event),
            Phase::AcquireImage => self.acquire_image(context, event),
            Phase::Record => match event {
                Event::CommandsRecorded => {
                    self.phase = Phase::Submit;
                    Directive::Submit { image: self.image }
                },
                Event::RecordingFailed => self.finish(FrameOutcome::Fatal(FatalError::Recording)),
                _ => self.finish(FrameOutcome::Fatal(FatalError::UnexpectedEvent)),
            },
            Phase::Submit => match event {
                Event::SubmissionChained => {
                    self.phase = Phase::Present;
                    Directive::Flush
                },
                Event::ChainingFailed => self.finish(FrameOutcome::Fatal(FatalError::Submission)),
                _ => self.finish(FrameOutcome::Fatal(FatalError::UnexpectedEvent)),
            },
            Phase::Present => self.present(context, event),
        };
        proof {
            use_type_invariant(&*self);
        }
        directive
    }
}

} // verus!

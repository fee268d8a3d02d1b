//! Completion handles: values that stand for the moment at which a chain of
//! device work has finished. A frame chains its work behind the handle of the
//! frame before it, which keeps the processor at most one frame ahead of the
//! device.

use vstd::prelude::*;

verus! {

/// One step of a chain of device work.
#[derive(Clone, Copy, Debug, PartialEq, Eq, Structural)]
pub enum Link {
    /// The work that was flushed before this chain was begun.
    Prior,
    /// The image with this index has become available.
    ImageAcquired { image: usize },
    /// The commands recorded against this framebuffer run on the graphics
    /// queue.
    Execute { framebuffer: usize },
    /// The image with this index is handed to the presentation engine.
    Present { image: usize },
}

/// Why a chain could not be flushed to the device.
#[derive(Clone, Copy, Debug, PartialEq, Eq, Structural)]
pub enum FlushError {
    /// The surface has changed so that the swapchain no longer fits it.
    OutOfDate,
    AccessDenied,
    OutOfMemory,
    DeviceLost,
    SurfaceLost,
    FullscreenExclusiveLost,
    Timeout,
}

impl FlushError {
    /// The failure that a resize brings with it, and that is not worth a line
    /// in the log.
    pub open spec fn expected(self) -> bool {
        self == FlushError::OutOfDate
    }

    pub fn is_expected(&self) -> (expected: bool)
        ensures
            expected == self.expected(),
    {
        match self {
            FlushError::OutOfDate => true,
            _ => false,
        }
    }
}

/// A completion handle as a mathematical value: the steps that it stands for,
/// in order, and whether they have been flushed to the device behind a fence.
#[verifier::ext_equal]
pub struct HandleView {
    pub links: Seq<Link>,
    pub sealed: bool,
}

impl HandleView {
    /// The handle of work that has already finished.
    pub open spec fn complete() -> HandleView {
        HandleView { links: Seq::empty(), sealed: true }
    }

    /// The signal that the image with the given index has been acquired.
    pub open spec fn image_acquired(image: usize) -> HandleView {
        HandleView { links: seq![Link::ImageAcquired { image }], sealed: false }
    }

    /// Nothing is left to wait for.
    pub open spec fn satisfied(self) -> bool {
        self.sealed && self.links.len() == 0
    }

    /// What a chain that goes on from this handle waits for: the steps of an
    /// open chain; one step for all the work behind a fence; nothing where the
    /// work has finished.
    pub open spec fn pending(self) -> Seq<Link> {
        if !self.sealed {
            self.links
        } else if self.links.len() == 0 {
            Seq::empty()
        } else {
            seq![Link::Prior]
        }
    }

    /// The moment at which both this handle and the other are satisfied.
    pub open spec fn join(self, other: HandleView) -> HandleView {
        HandleView { links: self.pending() + other.pending(), sealed: false }
    }

    /// The chain that goes on from this handle with one more step.
    pub open spec fn followed_by(self, link: Link) -> HandleView {
        HandleView { links: self.pending().push(link), sealed: false }
    }

    /// The chain behind a fence, flushed to the device.
    pub open spec fn flushed(self) -> HandleView {
        HandleView { links: self.pending(), sealed: true }
    }

    /// The chain of one frame that draws to the image with the given index,
    /// begun behind this handle: the image's acquisition, the execution of the
    /// frame's commands and the image's presentation, in this order.
    pub open spec fn frame_chain(self, image: usize) -> HandleView {
        self.join(Self::image_acquired(image)).followed_by(Link::Execute { framebuffer: image }).followed_by(
            Link::Present { image },
        )
    }
}

/// Behind whatever handle a frame's chain is begun, it holds the three steps
/// of that frame, after at most one step for all earlier work.
pub proof fn lemma_frame_chain_is_bounded(prior: HandleView, image: usize)
    requires
        prior.sealed,
    ensures
        prior.frame_chain(image).links =~= prior.pending() + seq![
            Link::ImageAcquired { image },
            Link::Execute { framebuffer: image },
            Link::Present { image },
        ],
        prior.pending().len() <= 1,
        prior.satisfied() ==> prior.pending().len() == 0,
        !prior.satisfied() ==> prior.pending() =~= seq![Link::Prior],
        3 <= prior.frame_chain(image).links.len() <= 4,
{
}

/// A completion handle. It is moved from step to step and never copied.
#[derive(Debug, PartialEq, Eq)]
pub struct CompletionHandle {
    links: Vec<Link>,
    sealed: bool,
}

impl View for CompletionHandle {
    type V = HandleView;

    closed spec fn view(&self) -> HandleView {
        HandleView { links: self.links@, sealed: self.sealed }
    }
}

impl CompletionHandle {
    /// The handle of work that has already finished.
    pub fn complete() -> (handle: CompletionHandle)
        ensures
            handle@ == HandleView::complete(),
    {
        CompletionHandle { links: Vec::new(), sealed: true }
    }

    /// The signal that the image with the given index has been acquired.
    pub fn image_acquired(image: usize) -> (handle: CompletionHandle)
        ensures
            handle@ == HandleView::image_acquired(image),
    {
        let mut links: Vec<Link> = Vec::new();
        links.push(Link::ImageAcquired { image });
        assert(links@ =~= seq![Link::ImageAcquired { image }]);
        CompletionHandle { links, sealed: false }
    }

    fn into_pending(self) -> (links: Vec<Link>)
        ensures
            links@ == self@.pending(),
    {
        if !self.sealed {
            self.links
        } else {
            let mut links: Vec<Link> = Vec::new();
            if self.links.len() > 0 {
                links.push(Link::Prior);
                assert(links@ =~= seq![Link::Prior]);
            }
            links
        }
    }

    /// The moment at which both this handle and the other are satisfied.
    pub fn join(self, other: CompletionHandle) -> (joined: CompletionHandle)
        ensures
            joined@ == self@.join(other@),
    {
        let mut links = self.into_pending();
        let mut rest = other.into_pending();
        links.append(&mut rest);
        CompletionHandle { links, sealed: false }
    }

    /// Chains the execution of the commands recorded against a framebuffer.
    pub fn then_execute(self, framebuffer: usize) -> (chained: CompletionHandle)
        ensures
            chained@ == self@.followed_by(Link::Execute { framebuffer }),
    {
        let mut links = self.into_pending();
        links.push(Link::Execute { framebuffer });
        CompletionHandle { links, sealed: false }
    }

    /// Chains the presentation of an image.
    pub fn then_present(self, image: usize) -> (chained: CompletionHandle)
        ensures
            chained@ == self@.followed_by(Link::Present { image }),
    {
        let mut links = self.into_pending();
        links.push(Link::Present { image });
        CompletionHandle { links, sealed: false }
    }

    /// Closes the chain behind a fence, given what the device answered to the
    /// flush: the sealed handle where it accepted the chain, its error where
    /// it did not.
    pub fn then_signal_and_flush(self, outcome: Result<(), FlushError>) -> (flushed: Result<
        CompletionHandle,
        FlushError,
    >)
        ensures
            match outcome {
                Ok(_) => flushed matches Ok(handle) && handle@ == self@.flushed(),
                Err(error) => flushed == Err::<CompletionHandle, FlushError>(error),
            },
    {
        match outcome {
            Ok(_) => {
                let links = self.into_pending();
                Ok(CompletionHandle { links, sealed: true })
            },
            Err(error) => Err(error),
        }
    }

    /// Nothing is left to wait for.
    pub fn is_satisfied(&self) -> (satisfied: bool)
        ensures
            satisfied == self@.satisfied(),
    {
        self.sealed && self.links.len() == 0
    }

    /// The chain has been flushed to the device behind a fence.
    pub fn is_sealed(&self) -> (sealed: bool)
        ensures
            sealed == self@.sealed,
    {
        self.sealed
    }

    /// The steps that the handle stands for, in order.
    pub fn links(&self) -> (links: &Vec<Link>)
        ensures
            links@ == self@.links,
    {
        &self.links
    }
}

/// Keeps the completion handle of the frame that was submitted last. It holds
/// exactly one handle at any time.
#[derive(Debug, PartialEq, Eq)]
pub struct CompletionTracker {
    current: CompletionHandle,
}

impl CompletionTracker {
    /// The handle that the tracker holds.
    pub closed spec fn token(&self) -> HandleView {
        self.current@
    }

    /// A tracker that holds the handle of finished work.
    pub fn new() -> (tracker: CompletionTracker)
        ensures
            tracker.token() == HandleView::complete(),
    {
        CompletionTracker { current: CompletionHandle::complete() }
    }

    /// Hands back the handle that was held and holds `new_token` from now on.
    pub fn take_and_replace(&mut self, new_token: CompletionHandle) -> (previous: CompletionHandle)
        ensures
            previous@ == old(self).token(),
            final(self).token() == new_token@,
    {
        let mut token = new_token;
        std::mem::swap(&mut self.current, &mut token);
        token
    }

    /// Drops the handle that was held for that of finished work, so that the
    /// next frame waits for nothing.
    pub fn reset_to_complete(&mut self)
        ensures
            final(self).token() == HandleView::complete(),
    {
        self.current = CompletionHandle::complete();
    }

    /// The handle that the tracker holds.
    pub fn current(&self) -> (handle: &CompletionHandle)
        ensures
            handle@ == self.token(),
    {
        &self.current
    }
}

} // verus!

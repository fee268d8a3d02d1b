//! The resources behind one swapchain: its color images, the depth attachment
//! that they share, one framebuffer per image and the viewport, all rebuilt
//! together when the surface changes size.

use crate::geometry::{Extent, Viewport};
use crate::surface::{
    first_reported_alpha, CompositeAlpha, DeviceContext, PresentMode, SurfaceCapabilities,
    SurfaceFormat,
};
use vstd::prelude::*;

verus! {

/// Format code of every depth attachment: 16-bit unsigned normalized depth.
pub const DEPTH_FORMAT: u32 = 124;

/// Samples per pixel of every depth attachment.
pub const DEPTH_SAMPLES: u32 = 1;

/// Why a swapchain could not be made.
#[derive(Clone, Copy, Debug, PartialEq, Eq, Structural)]
pub enum SwapchainCreationError {
    /// The surface does not support the extent. The window may have no area
    /// for the moment: the caller skips the frame and tries again later.
    UnsupportedDimensions,
    /// Fewer images than the surface needs, or none at all.
    UnsupportedMinImagesCount,
    /// More images than the surface allows.
    UnsupportedMaxImagesCount,
    /// The surface does not report the format.
    UnsupportedFormat,
    /// The surface does not support the composite-alpha mode.
    UnsupportedCompositeAlpha,
    /// The surface does not support the present mode.
    UnsupportedPresentMode,
    /// The device failed: it was lost, or ran out of memory.
    DeviceFailure,
}

impl SwapchainCreationError {
    /// The one failure that a render loop lives with: every other stops it.
    pub open spec fn recoverable(self) -> bool {
        self == SwapchainCreationError::UnsupportedDimensions
    }

    pub fn is_recoverable(&self) -> (recoverable: bool)
        ensures
            recoverable == self.recoverable(),
    {
        match self {
            SwapchainCreationError::UnsupportedDimensions => true,
            _ => false,
        }
    }
}

/// The parameters that a swapchain is asked for.
#[derive(Clone, Copy, Debug, PartialEq, Eq, Structural)]
pub struct SwapchainRequest {
    /// Least number of images that the swapchain is to hold.
    pub image_count: u32,
    pub format: SurfaceFormat,
    pub extent: Extent,
    pub composite_alpha: CompositeAlpha,
    pub present_mode: PresentMode,
}

impl SwapchainRequest {
    /// The first reason, if any, for which a surface with the given
    /// capabilities refuses the request.
    pub open spec fn rejection(self, capabilities: &SurfaceCapabilities) -> Option<
        SwapchainCreationError,
    > {
        if !capabilities.admits_extent(self.extent) {
            Some(SwapchainCreationError::UnsupportedDimensions)
        } else if self.image_count == 0 || self.image_count < capabilities.min_image_count {
            Some(SwapchainCreationError::UnsupportedMinImagesCount)
        } else if capabilities.max_image_count matches Some(most) && self.image_count > most {
            Some(SwapchainCreationError::UnsupportedMaxImagesCount)
        } else if !capabilities.admits_format(self.format) {
            Some(SwapchainCreationError::UnsupportedFormat)
        } else if !capabilities.supported_composite_alpha.admits(self.composite_alpha) {
            Some(SwapchainCreationError::UnsupportedCompositeAlpha)
        } else if !capabilities.present_modes.admits(self.present_mode) {
            Some(SwapchainCreationError::UnsupportedPresentMode)
        } else {
            None
        }
    }

    /// What is asked of a surface for a swapchain of the given extent: as few
    /// images as the surface needs, the first format and the first
    /// composite-alpha mode that it reports, and FIFO presentation. Where the
    /// surface reports no format or no mode, the request names one that the
    /// surface refuses.
    pub open spec fn preferred(capabilities: &SurfaceCapabilities, extent: Extent) -> SwapchainRequest {
        SwapchainRequest {
            image_count: capabilities.min_image_count,
            format: if capabilities.supported_formats@.len() > 0 {
                capabilities.supported_formats@[0]
            } else {
                SurfaceFormat { format: 0, color_space: 0 }
            },
            extent,
            composite_alpha: match capabilities.supported_composite_alpha.first() {
                Some(alpha) => alpha,
                None => CompositeAlpha::Opaque,
            },
            present_mode: PresentMode::Fifo,
        }
    }

    /// The request that `negotiate` settles on, or the reason for which the
    /// surface refuses it.
    pub open spec fn negotiated(capabilities: &SurfaceCapabilities, extent: Extent) -> Result<
        SwapchainRequest,
        SwapchainCreationError,
    > {
        match Self::preferred(capabilities, extent).rejection(capabilities) {
            Some(reason) => Err(reason),
            None => Ok(Self::preferred(capabilities, extent)),
        }
    }

    /// The same request for another extent.
    pub open spec fn with_extent(self, extent: Extent) -> SwapchainRequest {
        SwapchainRequest { extent, ..self }
    }

    /// Holds the request against the capabilities of a surface.
    pub fn validate(&self, capabilities: &SurfaceCapabilities) -> (checked: Result<
        (),
        SwapchainCreationError,
    >)
        ensures
            checked == match self.rejection(capabilities) {
                Some(reason) => Err::<(), SwapchainCreationError>(reason),
                None => Ok(()),
            },
    {
        if !capabilities.supports_extent(&self.extent) {
            return Err(SwapchainCreationError::UnsupportedDimensions);
        }
        if self.image_count == 0 || self.image_count < capabilities.min_image_count {
            return Err(SwapchainCreationError::UnsupportedMinImagesCount);
        }
        match capabilities.max_image_count {
            Some(most) => {
                if self.image_count > most {
                    return Err(SwapchainCreationError::UnsupportedMaxImagesCount);
                }
            },
            None => {},
        }
        if !capabilities.supports_format(&self.format) {
            return Err(SwapchainCreationError::UnsupportedFormat);
        }
        if !capabilities.supported_composite_alpha.supports(self.composite_alpha) {
            return Err(SwapchainCreationError::UnsupportedCompositeAlpha);
        }
        if !capabilities.present_modes.supports(self.present_mode) {
            return Err(SwapchainCreationError::UnsupportedPresentMode);
        }
        Ok(())
    }

    /// Settles the parameters of a swapchain of the desired extent on a
    /// surface with the given capabilities.
    pub fn negotiate(capabilities: &SurfaceCapabilities, desired_extent: Extent) -> (request: Result<
        SwapchainRequest,
        SwapchainCreationError,
    >)
        ensures
            request == Self::negotiated(capabilities, desired_extent),
            request is Ok <==> Self::preferred(capabilities, desired_extent).rejection(
                capabilities,
            ) is None,
    {
        let format = if capabilities.supported_formats.len() > 0 {
            capabilities.supported_formats[0]
        } else {
            SurfaceFormat { format: 0, color_space: 0 }
        };
        let composite_alpha = match first_reported_alpha(&capabilities.supported_composite_alpha) {
            Some(alpha) => alpha,
            None => CompositeAlpha::Opaque,
        };
        let preferred = SwapchainRequest {
            image_count: capabilities.min_image_count,
            format,
            extent: desired_extent,
            composite_alpha,
            present_mode: PresentMode::Fifo,
        };
        match preferred.validate(capabilities) {
            Ok(()) => Ok(preferred),
            Err(reason) => Err(reason),
        }
    }

    /// The same request for another extent, held against what the surface
    /// reports now.
    pub fn resized(&self, capabilities: &SurfaceCapabilities, new_extent: Extent) -> (request:
        Result<SwapchainRequest, SwapchainCreationError>)
        ensures
            request == match self.with_extent(new_extent).rejection(capabilities) {
                Some(reason) => Err::<SwapchainRequest, SwapchainCreationError>(reason),
                None => Ok(self.with_extent(new_extent)),
            },
    {
        let resized = SwapchainRequest {
            image_count: self.image_count,
            format: self.format,
            extent: new_extent,
            composite_alpha: self.composite_alpha,
            present_mode: self.present_mode,
        };
        match resized.validate(capabilities) {
            Ok(()) => Ok(resized),
            Err(reason) => Err(reason),
        }
    }
}

/// One presentable image of a swapchain.
#[derive(Clone, Copy, Debug, PartialEq, Eq, Structural)]
pub struct ColorImage {
    pub extent: Extent,
    pub format: SurfaceFormat,
}

/// The depth attachment that the framebuffers of one resource set share.
#[derive(Clone, Copy, Debug, PartialEq, Eq, Structural)]
pub struct DepthAttachment {
    pub extent: Extent,
    pub format: u32,
    pub samples: u32,
}

/// A framebuffer: one color image, by its index in the swapchain, bound
/// together with the depth attachment.
#[derive(Clone, Copy, Debug, PartialEq, Eq, Structural)]
pub struct Framebuffer {
    pub color_image: usize,
    pub depth: DepthAttachment,
    pub extent: Extent,
}

/// What a resource set holds, as mathematical values.
#[verifier::ext_equal]
pub struct ResourceSetView {
    pub request: SwapchainRequest,
    pub color_images: Seq<ColorImage>,
    pub depth: DepthAttachment,
    pub framebuffers: Seq<Framebuffer>,
    pub viewport: Viewport,
}

impl ResourceSetView {
    /// The depth attachment that goes with images of the given extent.
    pub open spec fn depth_for(extent: Extent) -> DepthAttachment {
        DepthAttachment { extent, format: DEPTH_FORMAT, samples: DEPTH_SAMPLES }
    }

    /// The resources that are built on the images that a device delivered for
    /// a request: each image has the requested extent and format, the depth
    /// attachment has the same extent, and framebuffer `i` binds image `i`.
    pub open spec fn assembled(request: SwapchainRequest, delivered: nat) -> ResourceSetView {
        ResourceSetView {
            request,
            color_images: Seq::new(
                delivered,
                |i: int| ColorImage { extent: request.extent, format: request.format },
            ),
            depth: Self::depth_for(request.extent),
            framebuffers: Seq::new(
                delivered,
                |i: int|
                    Framebuffer {
                        color_image: i as usize,
                        depth: Self::depth_for(request.extent),
                        extent: request.extent,
                    },
            ),
            viewport: Viewport::covering(request.extent),
        }
    }

    /// The extent that all the resources share.
    pub open spec fn extent(self) -> Extent {
        self.request.extent
    }

    /// The invariant of a resource set: a non-zero extent, at least one image
    /// and no fewer than were asked for, and everything else derived from the
    /// request and the number of images.
    pub open spec fn well_formed(self) -> bool {
        &&& !self.request.extent.degenerate()
        &&& 1 <= self.request.image_count <= self.color_images.len() <= u32::MAX
        &&& self == Self::assembled(self.request, self.color_images.len())
    }

    /// What `assemble` makes of a request and a number of delivered images.
    pub open spec fn assembly(request: SwapchainRequest, delivered: u32) -> Result<
        ResourceSetView,
        SwapchainCreationError,
    > {
        if request.extent.degenerate() {
            Err(SwapchainCreationError::UnsupportedDimensions)
        } else if request.image_count == 0 || delivered < request.image_count {
            Err(SwapchainCreationError::UnsupportedMinImagesCount)
        } else {
            Ok(Self::assembled(request, delivered as nat))
        }
    }

    /// What `create` makes for a surface with the given capabilities.
    pub open spec fn created(capabilities: &SurfaceCapabilities, extent: Extent) -> Result<
        ResourceSetView,
        SwapchainCreationError,
    > {
        match SwapchainRequest::negotiated(capabilities, extent) {
            Ok(request) => Ok(Self::assembled(request, request.image_count as nat)),
            Err(reason) => Err(reason),
        }
    }

    /// What `recreate` makes of this set: the same parameters and as many
    /// images as before, at the new extent.
    pub open spec fn recreated(self, capabilities: &SurfaceCapabilities, extent: Extent) -> Result<
        ResourceSetView,
        SwapchainCreationError,
    > {
        match self.request.with_extent(extent).rejection(capabilities) {
            Some(reason) => Err(reason),
            None => Ok(Self::assembled(self.request.with_extent(extent), self.color_images.len())),
        }
    }
}

/// A request with a non-zero extent, and at least as many images as it asks
/// for, assemble to a well-formed set.
pub proof fn lemma_assembled_well_formed(request: SwapchainRequest, delivered: nat)
    requires
        !request.extent.degenerate(),
        1 <= request.image_count <= delivered <= u32::MAX,
    ensures
        ResourceSetView::assembled(request, delivered).well_formed(),
        ResourceSetView::assembled(request, delivered).color_images.len() == delivered,
        ResourceSetView::assembled(request, delivered).framebuffers.len() == delivered,
{
}

/// A set that is made for an extent that the surface admits has one
/// framebuffer per color image, at least as many images as the surface needs,
/// and every framebuffer at that extent. It is made for every such extent on
/// a surface whose first format, first composite-alpha mode and image counts
/// can be asked for.
pub proof fn lemma_created_set_matches_extent(capabilities: SurfaceCapabilities, extent: Extent)
    requires
        capabilities.admits_extent(extent),
    ensures
        match ResourceSetView::created(&capabilities, extent) {
            Ok(set) => {
                &&& set.well_formed()
                &&& set.framebuffers.len() == set.color_images.len()
                &&& set.color_images.len() >= capabilities.min_image_count
                &&& forall|i: int|
                    0 <= i < set.framebuffers.len() ==> (#[trigger] set.framebuffers[i]).extent
                        == extent
                &&& forall|i: int|
                    0 <= i < set.framebuffers.len() ==> (#[trigger] set.framebuffers[i]).color_image
                        == i
            },
            Err(reason) => reason != SwapchainCreationError::UnsupportedDimensions,
        },
        ResourceSetView::created(&capabilities, extent) is Ok <==> {
            &&& capabilities.min_image_count >= 1
            &&& capabilities.max_image_count matches Some(most) ==> capabilities.min_image_count
                <= most
            &&& capabilities.supported_formats@.len() >= 1
            &&& capabilities.supported_composite_alpha.first() is Some
            &&& capabilities.present_modes.fifo
        },
{
    let request = SwapchainRequest::preferred(&capabilities, extent);
    if capabilities.supported_formats@.len() >= 1 {
        assert(capabilities.supported_formats@[0] == request.format);
    }
    if request.rejection(&capabilities) is None {
        lemma_assembled_well_formed(request, request.image_count as nat);
    }
}

/// An extent without area, or with a dimension beyond the greatest that the
/// surface reports, is refused as unsupported, at creation and at recreation
/// alike, whatever else the surface offers.
pub proof fn lemma_unsupported_extent_is_refused(
    set: ResourceSetView,
    capabilities: SurfaceCapabilities,
    extent: Extent,
)
    requires
        extent.degenerate() || extent.width > capabilities.max_image_extent.width || extent.height
            > capabilities.max_image_extent.height,
    ensures
        ResourceSetView::created(&capabilities, extent) == Err::<
            ResourceSetView,
            SwapchainCreationError,
        >(SwapchainCreationError::UnsupportedDimensions),
        set.recreated(&capabilities, extent) == Err::<ResourceSetView, SwapchainCreationError>(
            SwapchainCreationError::UnsupportedDimensions,
        ),
{
}

/// Recreating a set at the extent that it has, on a surface that still admits
/// what the set was made with, gives the same set again: as many framebuffers,
/// each at the same extent.
pub proof fn lemma_recreate_at_same_extent(set: ResourceSetView, capabilities: SurfaceCapabilities)
    requires
        set.well_formed(),
        set.request.rejection(&capabilities) is None,
    ensures
        set.recreated(&capabilities, set.extent()) == Ok::<ResourceSetView, SwapchainCreationError>(
            set,
        ),
{
    assert(set.request.with_extent(set.extent()) == set.request);
}

/// A recreated set has the depth format and the sample count of the set that
/// it replaces, and as many images.
pub proof fn lemma_recreate_keeps_depth_configuration(
    set: ResourceSetView,
    capabilities: SurfaceCapabilities,
    extent: Extent,
)
    requires
        set.well_formed(),
    ensures
        set.recreated(&capabilities, extent) matches Ok(replacement) ==> {
            &&& replacement.well_formed()
            &&& replacement.depth.format == set.depth.format
            &&& replacement.depth.samples == set.depth.samples
            &&& replacement.depth.extent == extent
            &&& replacement.framebuffers.len() == set.framebuffers.len()
            &&& replacement.request == set.request.with_extent(extent)
        },
{
    if set.request.with_extent(extent).rejection(&capabilities) is None {
        lemma_assembled_well_formed(set.request.with_extent(extent), set.color_images.len());
    }
}

/// The swapchain of a surface with everything that is built on it. A set is
/// never changed: a resize makes a new one.
#[derive(Debug, PartialEq, Eq)]
pub struct SwapchainResourceSet {
    request: SwapchainRequest,
    color_images: Vec<ColorImage>,
    depth: DepthAttachment,
    framebuffers: Vec<Framebuffer>,
    viewport: Viewport,
}

impl View for SwapchainResourceSet {
    type V = ResourceSetView;

    closed spec fn view(&self) -> ResourceSetView {
        ResourceSetView {
            request: self.request,
            color_images: self.color_images@,
            depth: self.depth,
            framebuffers: self.framebuffers@,
            viewport: self.viewport,
        }
    }
}

impl SwapchainResourceSet {
    /// Every resource set is well formed.
    #[verifier::type_invariant]
    pub open spec fn consistent(&self) -> bool {
        self@.well_formed()
    }

    /// The viewport that covers a whole surface of the given extent, with the
    /// full depth range.
    pub fn viewport_for(extent: Extent) -> (viewport: Viewport)
        ensures
            viewport == Viewport::covering(extent),
    {
        Viewport {
            origin_x: 0,
            origin_y: 0,
            width: extent.width,
            height: extent.height,
            min_depth: 0,
            max_depth: 1,
        }
    }

    /// Builds the resources on the images that a device delivered for a
    /// request: the shared depth attachment, one framebuffer per image and the
    /// viewport. Fails on a request without area or without images, and when
    /// fewer images were delivered than the request asks for.
    pub fn assemble(request: SwapchainRequest, delivered: u32) -> (assembled: Result<
        SwapchainResourceSet,
        SwapchainCreationError,
    >)
        ensures
            match assembled {
                Ok(set) => ResourceSetView::assembly(request, delivered) == Ok::<
                    ResourceSetView,
                    SwapchainCreationError,
                >(set@) && set@.well_formed(),
                Err(reason) => ResourceSetView::assembly(request, delivered) == Err::<
                    ResourceSetView,
                    SwapchainCreationError,
                >(reason),
            },
    {
        if request.extent.is_degenerate() {
            return Err(SwapchainCreationError::UnsupportedDimensions);
        }
        if request.image_count == 0 || delivered < request.image_count {
            return Err(SwapchainCreationError::UnsupportedMinImagesCount);
        }
        let depth = DepthAttachment {
            extent: request.extent,
            format: DEPTH_FORMAT,
            samples: DEPTH_SAMPLES,
        };
        let viewport = Self::viewport_for(request.extent);
        let count: usize = delivered as usize;
        let mut color_images: Vec<ColorImage> = Vec::new();
        let mut framebuffers: Vec<Framebuffer> = Vec::new();
        let mut i: usize = 0;
        while i < count
            invariant
                i <= count,
                depth == ResourceSetView::depth_for(request.extent),
                color_images@ =~= ResourceSetView::assembled(request, i as nat).color_images,
                framebuffers@ =~= ResourceSetView::assembled(request, i as nat).framebuffers,
            decreases count - i,
        {
            color_images.push(ColorImage { extent: request.extent, format: request.format });
            framebuffers.push(Framebuffer { color_image: i, depth, extent: request.extent });
            i += 1;
        }
        proof {
            lemma_assembled_well_formed(request, delivered as nat);
        }
        Ok(SwapchainResourceSet { request, color_images, depth, framebuffers, viewport })
    }

    /// Makes the resource set for a swapchain of the desired extent on the
    /// surface of the context, as a device makes it that delivers as many
    /// images as it is asked for. Fails when the surface refuses the extent or
    /// offers nothing to ask for.
    pub fn create(context: &DeviceContext, desired_extent: Extent) -> (created: Result<
        SwapchainResourceSet,
        SwapchainCreationError,
    >)
        ensures
            match created {
                Ok(set) => {
                    &&& ResourceSetView::created(&context.surface(), desired_extent) == Ok::<
                        ResourceSetView,
                        SwapchainCreationError,
                    >(set@)
                    &&& set@.well_formed()
                    &&& set@.framebuffers.len() == set@.color_images.len()
                    &&& set@.color_images.len() >= context.surface().min_image_count
                    &&& forall|i: int|
                        0 <= i < set@.framebuffers.len() ==> (#[trigger] set@.framebuffers[i]).extent
                            == desired_extent
                },
                Err(reason) => ResourceSetView::created(&context.surface(), desired_extent) == Err::<
                    ResourceSetView,
                    SwapchainCreationError,
                >(reason),
            },
            !context.surface().admits_extent(desired_extent) ==> created == Err::<
                SwapchainResourceSet,
                SwapchainCreationError,
            >(SwapchainCreationError::UnsupportedDimensions),
    {
        match SwapchainRequest::negotiate(context.capabilities(), desired_extent) {
            Ok(request) => Self::assemble(request, request.image_count),
            Err(reason) => Err(reason),
        }
    }

    /// Makes the replacement of this set for a new extent, held against what
    /// the surface reports now. The replacement keeps the parameters and the
    /// number of images of this set, which is left as it is.
    pub fn recreate(&self, capabilities: &SurfaceCapabilities, new_extent: Extent) -> (recreated:
        Result<SwapchainResourceSet, SwapchainCreationError>)
        ensures
            match recreated {
                Ok(set) => {
                    &&& self@.recreated(capabilities, new_extent) == Ok::<
                        ResourceSetView,
                        SwapchainCreationError,
                    >(set@)
                    &&& set@.well_formed()
                    &&& set@.framebuffers.len() == self@.framebuffers.len()
                    &&& set@.depth.format == self@.depth.format
                    &&& set@.depth.samples == self@.depth.samples
                    &&& forall|i: int|
                        0 <= i < set@.framebuffers.len() ==> (#[trigger] set@.framebuffers[i]).extent
                            == new_extent
                },
                Err(reason) => self@.recreated(capabilities, new_extent) == Err::<
                    ResourceSetView,
                    SwapchainCreationError,
                >(reason),
            },
            !capabilities.admits_extent(new_extent) ==> recreated == Err::<
                SwapchainResourceSet,
                SwapchainCreationError,
            >(SwapchainCreationError::UnsupportedDimensions),
    {
        proof {
            use_type_invariant(self);
        }
        match self.request.resized(capabilities, new_extent) {
            Ok(request) => {
                let delivered: u32 = self.color_images.len() as u32;
                Self::assemble(request, delivered)
            },
            Err(reason) => Err(reason),
        }
    }

    /// The parameters that the swapchain was made with.
    pub fn request(&self) -> (request: SwapchainRequest)
        ensures
            request == self@.request,
    {
        self.request
    }

    /// The extent that all the resources share.
    pub fn extent(&self) -> (extent: Extent)
        ensures
            extent == self@.extent(),
    {
        self.request.extent
    }

    /// Number of color images, which is the number of framebuffers.
    pub fn image_count(&self) -> (count: usize)
        ensures
            count == self@.color_images.len(),
            count == self@.framebuffers.len(),
            count >= 1,
    {
        proof {
            use_type_invariant(self);
        }
        self.color_images.len()
    }

    /// The color image with the given index, if there is one.
    pub fn color_image(&self, index: usize) -> (image: Option<ColorImage>)
        ensures
            image == if index < self@.color_images.len() {
                Some(self@.color_images[index as int])
            } else {
                None
            },
    {
        if index < self.color_images.len() {
            Some(self.color_images[index])
        } else {
            None
        }
    }

    /// The framebuffer that goes with the image of the given index, if there
    /// is one.
    pub fn framebuffer(&self, index: usize) -> (framebuffer: Option<Framebuffer>)
        ensures
            framebuffer == if index < self@.framebuffers.len() {
                Some(self@.framebuffers[index as int])
            } else {
                None
            },
    {
        if index < self.framebuffers.len() {
            Some(self.framebuffers[index])
        } else {
            None
        }
    }

    pub fn depth_attachment(&self) -> (depth: DepthAttachment)
        ensures
            depth == self@.depth,
    {
        self.depth
    }

    pub fn viewport(&self) -> (viewport: Viewport)
        ensures
            viewport == self@.viewport,
    {
        self.viewport
    }
}

} // verus!

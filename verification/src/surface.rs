//! What a presentation surface and its device report about themselves, as
//! plain values, and the choice of the queue family that serves both drawing
//! and presentation.

use crate::geometry::Extent;
use vstd::prelude::*;

verus! {

/// How the alpha channel of a presented image is combined with what lies
/// behind the surface.
#[derive(Clone, Copy, Debug, PartialEq, Eq, Structural)]
pub enum CompositeAlpha {
    Opaque,
    PreMultiplied,
    PostMultiplied,
    Inherit,
}

/// The composite-alpha modes that a surface supports.
#[derive(Clone, Copy, Debug, PartialEq, Eq, Structural)]
pub struct SupportedCompositeAlpha {
    pub opaque: bool,
    pub pre_multiplied: bool,
    pub post_multiplied: bool,
    pub inherit: bool,
}

impl SupportedCompositeAlpha {
    /// The given mode is among the supported ones.
    pub open spec fn admits(self, alpha: CompositeAlpha) -> bool {
        match alpha {
            CompositeAlpha::Opaque => self.opaque,
            CompositeAlpha::PreMultiplied => self.pre_multiplied,
            CompositeAlpha::PostMultiplied => self.post_multiplied,
            CompositeAlpha::Inherit => self.inherit,
        }
    }

    /// The first supported mode in the order in which a surface reports them:
    /// opaque, pre-multiplied, post-multiplied, inherit.
    pub open spec fn first(self) -> Option<CompositeAlpha> {
        if self.opaque {
            Some(CompositeAlpha::Opaque)
        } else if self.pre_multiplied {
            Some(CompositeAlpha::PreMultiplied)
        } else if self.post_multiplied {
            Some(CompositeAlpha::PostMultiplied)
        } else if self.inherit {
            Some(CompositeAlpha::Inherit)
        } else {
            None
        }
    }

    pub fn supports(&self, alpha: CompositeAlpha) -> (supported: bool)
        ensures
            supported == self.admits(alpha),
    {
        match alpha {
            CompositeAlpha::Opaque => self.opaque,
            CompositeAlpha::PreMultiplied => self.pre_multiplied,
            CompositeAlpha::PostMultiplied => self.post_multiplied,
            CompositeAlpha::Inherit => self.inherit,
        }
    }
}

/// Trusted: builds a `vulkano::swapchain::SupportedCompositeAlpha` from the
/// four flags and takes the first item of the iterator that its `iter` returns.
/// That iterator yields each supported mode once, in the order opaque,
/// pre-multiplied, post-multiplied, inherit, so its first item is the first
/// flag that is set, and there is none when no flag is set.
#[verifier::external_body]
pub(crate) fn first_reported_alpha(supported: &SupportedCompositeAlpha) -> (first: Option<
    CompositeAlpha,
>)
    ensures
        first == supported.first(),
{
    let reported = vulkano::swapchain::SupportedCompositeAlpha {
        opaque: supported.opaque,
        pre_multiplied: supported.pre_multiplied,
        post_multiplied: supported.post_multiplied,
        inherit: supported.inherit,
    };
    match reported.iter().next() {
        Some(vulkano::swapchain::CompositeAlpha::Opaque) => Some(CompositeAlpha::Opaque),
        Some(vulkano::swapchain::CompositeAlpha::PreMultiplied) => Some(CompositeAlpha::PreMultiplied),
        Some(vulkano::swapchain::CompositeAlpha::PostMultiplied) => Some(CompositeAlpha::PostMultiplied),
        Some(vulkano::swapchain::CompositeAlpha::Inherit) => Some(CompositeAlpha::Inherit),
        None => None,
    }
}

/// How presented images reach the screen.
#[derive(Clone, Copy, Debug, PartialEq, Eq, Structural)]
pub enum PresentMode {
    Immediate,
    Mailbox,
    /// Presented images queue up and one is shown at each vertical blank: no
    /// tearing, bounded latency.
    Fifo,
    Relaxed,
}

/// The present modes that a surface supports.
#[derive(Clone, Copy, Debug, PartialEq, Eq, Structural)]
pub struct SupportedPresentModes {
    pub immediate: bool,
    pub mailbox: bool,
    pub fifo: bool,
    pub relaxed: bool,
}

impl SupportedPresentModes {
    /// The given mode is among the supported ones.
    pub open spec fn admits(self, mode: PresentMode) -> bool {
        match mode {
            PresentMode::Immediate => self.immediate,
            PresentMode::Mailbox => self.mailbox,
            PresentMode::Fifo => self.fifo,
            PresentMode::Relaxed => self.relaxed,
        }
    }

    pub fn supports(&self, mode: PresentMode) -> (supported: bool)
        ensures
            supported == self.admits(mode),
    {
        match mode {
            PresentMode::Immediate => self.immediate,
            PresentMode::Mailbox => self.mailbox,
            PresentMode::Fifo => self.fifo,
            PresentMode::Relaxed => self.relaxed,
        }
    }
}

/// A pixel format together with its color space, both as the numeric codes of
/// the graphics API.
#[derive(Clone, Copy, Debug, PartialEq, Eq, Structural)]
pub struct SurfaceFormat {
    pub format: u32,
    pub color_space: u32,
}

/// The capabilities that a surface reports for a device.
#[derive(Clone, Debug, PartialEq, Eq)]
pub struct SurfaceCapabilities {
    /// Least number of images that a swapchain on this surface holds.
    pub min_image_count: u32,
    /// Greatest number of images, where the surface sets one.
    pub max_image_count: Option<u32>,
    /// Least width and height of a swapchain on this surface.
    pub min_image_extent: Extent,
    /// Greatest width and height of a swapchain on this surface.
    pub max_image_extent: Extent,
    /// The supported formats, in the order in which the surface reports them.
    pub supported_formats: Vec<SurfaceFormat>,
    pub supported_composite_alpha: SupportedCompositeAlpha,
    pub present_modes: SupportedPresentModes,
}

impl SurfaceCapabilities {
    /// A swapchain of this extent can be made on the surface: the extent has a
    /// non-zero area and lies within the reported bounds.
    pub open spec fn admits_extent(&self, extent: Extent) -> bool {
        !extent.degenerate() && extent.within(self.min_image_extent, self.max_image_extent)
    }

    /// The surface reports the given format.
    pub open spec fn admits_format(&self, format: SurfaceFormat) -> bool {
        self.supported_formats@.contains(format)
    }

    pub fn supports_extent(&self, extent: &Extent) -> (supported: bool)
        ensures
            supported == self.admits_extent(*extent),
    {
        !extent.is_degenerate() && extent.is_within(&self.min_image_extent, &self.max_image_extent)
    }

    pub fn supports_format(&self, format: &SurfaceFormat) -> (supported: bool)
        ensures
            supported == self.admits_format(*format),
    {
        let mut i: usize = 0;
        while i < self.supported_formats.len()
            invariant
                i <= self.supported_formats.len(),
                forall|j: int| 0 <= j < i ==> self.supported_formats@[j] != *format,
            decreases self.supported_formats.len() - i,
        {
            let candidate: SurfaceFormat = self.supported_formats[i];
            if candidate.format == format.format && candidate.color_space == format.color_space {
                return true;
            }
            i += 1;
        }
        false
    }
}

/// What a queue family of a device can do for a given surface.
#[derive(Clone, Copy, Debug, PartialEq, Eq, Structural)]
pub struct QueueFamily {
    pub supports_graphics: bool,
    pub supports_present: bool,
}

impl QueueFamily {
    /// The family can both draw and present to the surface.
    pub open spec fn suitable(self) -> bool {
        self.supports_graphics && self.supports_present
    }
}

/// Picks the queue family that will serve as graphics and present queue: the
/// first one, in the device's order, that supports both.
pub fn select_queue_family(families: &Vec<QueueFamily>) -> (selected: Option<usize>)
    ensures
        match selected {
            Some(i) => {
                &&& i < families.len()
                &&& families[i as int].suitable()
                &&& forall|j: int| 0 <= j < i ==> !#[trigger] families[j].suitable()
            },
            None => forall|j: int| 0 <= j < families.len() ==> !#[trigger] families[j].suitable(),
        },
{
    let mut i: usize = 0;
    while i < families.len()
        invariant
            i <= families.len(),
            forall|j: int| 0 <= j < i ==> !#[trigger] families[j].suitable(),
        decreases families.len() - i,
    {
        let family: QueueFamily = families[i];
        if family.supports_graphics && family.supports_present {
            return Some(i);
        }
        i += 1;
    }
    None
}

/// Why no device context could be had.
#[derive(Clone, Copy, Debug, PartialEq, Eq, Structural)]
pub enum DeviceError {
    /// No queue family supports both graphics and presentation to the surface.
    NoSuitableDevice,
}

/// The device and surface that a renderer works with: the queue family chosen
/// for drawing and presenting, and what the surface reported when the context
/// was made. A context is made once and never changes.
#[derive(Debug, PartialEq, Eq)]
pub struct DeviceContext {
    queue_family_index: usize,
    queue_family: QueueFamily,
    capabilities: SurfaceCapabilities,
}

impl DeviceContext {
    #[verifier::type_invariant]
    spec fn queue_serves_surface(&self) -> bool {
        self.queue_family.suitable()
    }

    /// Index of the chosen queue family among those of the device.
    pub closed spec fn family_index(&self) -> usize {
        self.queue_family_index
    }

    /// The chosen queue family.
    pub closed spec fn family(&self) -> QueueFamily {
        self.queue_family
    }

    /// What the surface reported when the context was made.
    pub closed spec fn surface(&self) -> SurfaceCapabilities {
        self.capabilities
    }

    /// Makes the context for a device with the given queue families and a
    /// surface with the given capabilities. Fails when no family can both draw
    /// and present.
    pub fn acquire_device(families: &Vec<QueueFamily>, capabilities: SurfaceCapabilities) -> (acquired:
        Result<DeviceContext, DeviceError>)
        ensures
            match acquired {
                Ok(context) => {
                    &&& context.family_index() < families.len()
                    &&& families[context.family_index() as int].suitable()
                    &&& context.family() == families[context.family_index() as int]
                    &&& forall|j: int|
                        0 <= j < context.family_index() ==> !#[trigger] families[j].suitable()
                    &&& context.surface() == capabilities
                },
                Err(e) => {
                    &&& e == DeviceError::NoSuitableDevice
                    &&& forall|j: int| 0 <= j < families.len() ==> !#[trigger] families[j].suitable()
                },
            },
    {
        match select_queue_family(families) {
            Some(index) => Ok(
                DeviceContext {
                    queue_family_index: index,
                    queue_family: families[index],
                    capabilities,
                },
            ),
            None => Err(DeviceError::NoSuitableDevice),
        }
    }

    pub fn queue_family_index(&self) -> (index: usize)
        ensures
            index == self.family_index(),
    {
        self.queue_family_index
    }

    /// The chosen queue family, which supports both graphics and presentation.
    pub fn queue_family(&self) -> (family: QueueFamily)
        ensures
            family == self.family(),
            family.suitable(),
    {
        proof {
            use_type_invariant(self);
        }
        self.queue_family
    }

    pub fn capabilities(&self) -> (capabilities: &SurfaceCapabilities)
        ensures
            *capabilities == self.surface(),
    {
        &self.capabilities
    }
}

} // verus!

use elysium_core::geometry::{Extent, Viewport};
use elysium_core::resources::{
    ColorImage, DepthAttachment, Framebuffer, SwapchainCreationError, SwapchainRequest,
    SwapchainResourceSet, DEPTH_FORMAT, DEPTH_SAMPLES,
};
use elysium_core::surface::{
    CompositeAlpha, DeviceContext, PresentMode, QueueFamily, SupportedCompositeAlpha,
    SupportedPresentModes, SurfaceCapabilities, SurfaceFormat,
};

fn capabilities() -> SurfaceCapabilities {
    SurfaceCapabilities {
        min_image_count: 2,
        max_image_count: Some(8),
        min_image_extent: Extent::new(1, 1),
        max_image_extent: Extent::new(4096, 4096),
        supported_formats: vec![
            SurfaceFormat { format: 44, color_space: 0 },
            SurfaceFormat { format: 50, color_space: 0 },
        ],
        supported_composite_alpha: SupportedCompositeAlpha {
            opaque: false,
            pre_multiplied: false,
            post_multiplied: true,
            inherit: true,
        },
        present_modes: SupportedPresentModes {
            immediate: true,
            mailbox: false,
            fifo: true,
            relaxed: false,
        },
    }
}

fn context_for(capabilities: SurfaceCapabilities) -> DeviceContext {
    let families = vec![QueueFamily { supports_graphics: true, supports_present: true }];
    DeviceContext::acquire_device(&families, capabilities).unwrap()
}

fn context() -> DeviceContext {
    context_for(capabilities())
}

#[test]
fn it_works() {
    assert!(true);
}

#[test]
fn create_builds_one_framebuffer_per_image_at_the_extent() {
    let extent = Extent::new(800, 600);
    let set = SwapchainResourceSet::create(&context(), extent).unwrap();
    assert_eq!(set.image_count(), 2);
    assert_eq!(set.extent(), extent);
    let depth = DepthAttachment { extent, format: 124, samples: 1 };
    assert_eq!(set.depth_attachment(), depth);
    for i in 0..2 {
        assert_eq!(
            set.color_image(i),
            Some(ColorImage { extent, format: SurfaceFormat { format: 44, color_space: 0 } })
        );
        assert_eq!(set.framebuffer(i), Some(Framebuffer { color_image: i, depth, extent }));
    }
    assert_eq!(set.color_image(2), None);
    assert_eq!(set.framebuffer(2), None);
}

#[test]
fn create_asks_for_first_format_first_alpha_and_fifo() {
    let set = SwapchainResourceSet::create(&context(), Extent::new(800, 600)).unwrap();
    assert_eq!(
        set.request(),
        SwapchainRequest {
            image_count: 2,
            format: SurfaceFormat { format: 44, color_space: 0 },
            extent: Extent::new(800, 600),
            composite_alpha: CompositeAlpha::PostMultiplied,
            present_mode: PresentMode::Fifo,
        }
    );
}

#[test]
fn first_alpha_follows_the_reporting_order() {
    let cases = [
        ((true, true, true, true), CompositeAlpha::Opaque),
        ((false, true, true, true), CompositeAlpha::PreMultiplied),
        ((false, false, true, true), CompositeAlpha::PostMultiplied),
        ((false, false, false, true), CompositeAlpha::Inherit),
    ];
    for ((opaque, pre_multiplied, post_multiplied, inherit), expected) in cases {
        let mut caps = capabilities();
        caps.supported_composite_alpha =
            SupportedCompositeAlpha { opaque, pre_multiplied, post_multiplied, inherit };
        let request = SwapchainRequest::negotiate(&caps, Extent::new(640, 480)).unwrap();
        assert_eq!(request.composite_alpha, expected);
    }
}

#[test]
fn create_rejects_zero_extent() {
    for extent in [Extent::new(0, 0), Extent::new(0, 600), Extent::new(800, 0)] {
        let refused = SwapchainResourceSet::create(&context(), extent);
        assert_eq!(refused, Err(SwapchainCreationError::UnsupportedDimensions));
    }
}

#[test]
fn create_rejects_extent_outside_the_bounds() {
    for extent in [Extent::new(4097, 600), Extent::new(800, 4097)] {
        let refused = SwapchainResourceSet::create(&context(), extent);
        assert_eq!(refused, Err(SwapchainCreationError::UnsupportedDimensions));
    }
    let mut caps = capabilities();
    caps.min_image_extent = Extent::new(100, 100);
    let refused = SwapchainResourceSet::create(&context_for(caps), Extent::new(99, 100));
    assert_eq!(refused, Err(SwapchainCreationError::UnsupportedDimensions));
    assert!(SwapchainResourceSet::create(&context(), Extent::new(4096, 4096)).is_ok());
    assert!(SwapchainResourceSet::create(&context(), Extent::new(1, 1)).is_ok());
}

#[test]
fn create_reports_what_the_surface_cannot_offer() {
    let extent = Extent::new(800, 600);
    let mut caps = capabilities();
    caps.min_image_count = 0;
    assert_eq!(
        SwapchainResourceSet::create(&context_for(caps), extent),
        Err(SwapchainCreationError::UnsupportedMinImagesCount)
    );
    let mut caps = capabilities();
    caps.max_image_count = Some(1);
    assert_eq!(
        SwapchainResourceSet::create(&context_for(caps), extent),
        Err(SwapchainCreationError::UnsupportedMaxImagesCount)
    );
    let mut caps = capabilities();
    caps.supported_formats = vec![];
    assert_eq!(
        SwapchainResourceSet::create(&context_for(caps), extent),
        Err(SwapchainCreationError::UnsupportedFormat)
    );
    let mut caps = capabilities();
    caps.supported_composite_alpha = SupportedCompositeAlpha {
        opaque: false,
        pre_multiplied: false,
        post_multiplied: false,
        inherit: false,
    };
    assert_eq!(
        SwapchainResourceSet::create(&context_for(caps), extent),
        Err(SwapchainCreationError::UnsupportedCompositeAlpha)
    );
    let mut caps = capabilities();
    caps.present_modes.fifo = false;
    assert_eq!(
        SwapchainResourceSet::create(&context_for(caps), extent),
        Err(SwapchainCreationError::UnsupportedPresentMode)
    );
}

#[test]
fn unsupported_extent_is_reported_before_anything_else() {
    let mut caps = capabilities();
    caps.min_image_count = 0;
    caps.supported_formats = vec![];
    assert_eq!(
        SwapchainResourceSet::create(&context_for(caps), Extent::new(0, 0)),
        Err(SwapchainCreationError::UnsupportedDimensions)
    );
}

#[test]
fn unbounded_image_count_is_accepted() {
    let mut caps = capabilities();
    caps.max_image_count = None;
    caps.min_image_count = 3;
    let set = SwapchainResourceSet::create(&context_for(caps), Extent::new(10, 10)).unwrap();
    assert_eq!(set.image_count(), 3);
}

#[test]
fn recreate_rejects_unsupported_extent_and_keeps_the_old_set() {
    let set = SwapchainResourceSet::create(&context(), Extent::new(800, 600)).unwrap();
    let before = SwapchainResourceSet::create(&context(), Extent::new(800, 600)).unwrap();
    for extent in [Extent::new(0, 0), Extent::new(5000, 600), Extent::new(800, 5000)] {
        assert_eq!(
            set.recreate(&capabilities(), extent),
            Err(SwapchainCreationError::UnsupportedDimensions)
        );
        assert_eq!(set, before);
    }
}

#[test]
fn recreate_at_the_same_extent_gives_the_same_framebuffers() {
    let set = SwapchainResourceSet::create(&context(), Extent::new(800, 600)).unwrap();
    let again = set.recreate(&capabilities(), set.extent()).unwrap();
    assert_eq!(again.image_count(), set.image_count());
    for i in 0..set.image_count() {
        assert_eq!(again.framebuffer(i), set.framebuffer(i));
    }
    assert_eq!(again, set);
}

#[test]
fn recreate_keeps_depth_format_and_samples() {
    let mut set = SwapchainResourceSet::create(&context(), Extent::new(800, 600)).unwrap();
    for extent in [Extent::new(1024, 768), Extent::new(1, 1), Extent::new(4096, 2160)] {
        let next = set.recreate(&capabilities(), extent).unwrap();
        assert_eq!(next.depth_attachment().format, set.depth_attachment().format);
        assert_eq!(next.depth_attachment().samples, set.depth_attachment().samples);
        assert_eq!(next.depth_attachment().extent, extent);
        assert_eq!(next.extent(), extent);
        assert_eq!(next.image_count(), set.image_count());
        assert_eq!(next.viewport(), SwapchainResourceSet::viewport_for(extent));
        set = next;
    }
    assert_eq!(set.depth_attachment().format, DEPTH_FORMAT);
    assert_eq!(set.depth_attachment().samples, DEPTH_SAMPLES);
    assert_eq!(DEPTH_FORMAT, 124);
    assert_eq!(DEPTH_SAMPLES, 1);
}

#[test]
fn recreate_holds_the_old_parameters_against_the_new_surface() {
    let set = SwapchainResourceSet::create(&context(), Extent::new(800, 600)).unwrap();
    let mut caps = capabilities();
    caps.min_image_count = 3;
    assert_eq!(
        set.recreate(&caps, Extent::new(640, 480)),
        Err(SwapchainCreationError::UnsupportedMinImagesCount)
    );
    let mut caps = capabilities();
    caps.supported_formats = vec![SurfaceFormat { format: 50, color_space: 0 }];
    assert_eq!(
        set.recreate(&caps, Extent::new(640, 480)),
        Err(SwapchainCreationError::UnsupportedFormat)
    );
    let mut caps = capabilities();
    caps.supported_composite_alpha.post_multiplied = false;
    assert_eq!(
        set.recreate(&caps, Extent::new(640, 480)),
        Err(SwapchainCreationError::UnsupportedCompositeAlpha)
    );
}

#[test]
fn assemble_takes_the_images_that_the_device_delivered() {
    let request = SwapchainRequest::negotiate(&capabilities(), Extent::new(320, 200)).unwrap();
    let set = SwapchainResourceSet::assemble(request, 3).unwrap();
    assert_eq!(set.image_count(), 3);
    assert_eq!(set.framebuffer(2).unwrap().color_image, 2);
    assert_eq!(set.framebuffer(2).unwrap().extent, Extent::new(320, 200));
    assert_eq!(
        SwapchainResourceSet::assemble(request, 1),
        Err(SwapchainCreationError::UnsupportedMinImagesCount)
    );
    let flat = SwapchainRequest { extent: Extent::new(320, 0), ..request };
    assert_eq!(
        SwapchainResourceSet::assemble(flat, 3),
        Err(SwapchainCreationError::UnsupportedDimensions)
    );
    let empty = SwapchainRequest { image_count: 0, ..request };
    assert_eq!(
        SwapchainResourceSet::assemble(empty, 3),
        Err(SwapchainCreationError::UnsupportedMinImagesCount)
    );
}

#[test]
fn viewport_covers_the_surface_with_full_depth() {
    assert_eq!(
        SwapchainResourceSet::viewport_for(Extent::new(800, 600)),
        Viewport { origin_x: 0, origin_y: 0, width: 800, height: 600, min_depth: 0, max_depth: 1 }
    );
    let set = SwapchainResourceSet::create(&context(), Extent::new(800, 600)).unwrap();
    assert_eq!(set.viewport().extent(), Extent::new(800, 600));
}

#[test]
fn only_unsupported_dimensions_is_recoverable() {
    assert!(SwapchainCreationError::UnsupportedDimensions.is_recoverable());
    for reason in [
        SwapchainCreationError::UnsupportedMinImagesCount,
        SwapchainCreationError::UnsupportedMaxImagesCount,
        SwapchainCreationError::UnsupportedFormat,
        SwapchainCreationError::UnsupportedCompositeAlpha,
        SwapchainCreationError::UnsupportedPresentMode,
        SwapchainCreationError::DeviceFailure,
    ] {
        assert!(!reason.is_recoverable());
    }
}

#[test]
fn validate_names_the_first_failing_check() {
    let request = SwapchainRequest {
        image_count: 9,
        format: SurfaceFormat { format: 50, color_space: 0 },
        extent: Extent::new(800, 600),
        composite_alpha: CompositeAlpha::Inherit,
        present_mode: PresentMode::Immediate,
    };
    assert_eq!(
        request.validate(&capabilities()),
        Err(SwapchainCreationError::UnsupportedMaxImagesCount)
    );
    let request = SwapchainRequest { image_count: 8, ..request };
    assert_eq!(request.validate(&capabilities()), Ok(()));
    let request = SwapchainRequest { present_mode: PresentMode::Mailbox, ..request };
    assert_eq!(
        request.validate(&capabilities()),
        Err(SwapchainCreationError::UnsupportedPresentMode)
    );
    let request = SwapchainRequest { composite_alpha: CompositeAlpha::Opaque, ..request };
    assert_eq!(
        request.validate(&capabilities()),
        Err(SwapchainCreationError::UnsupportedCompositeAlpha)
    );
}

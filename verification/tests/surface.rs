use elysium_core::geometry::Extent;
use elysium_core::surface::{
    select_queue_family, CompositeAlpha, DeviceContext, DeviceError, PresentMode, QueueFamily,
    SupportedCompositeAlpha, SupportedPresentModes, SurfaceCapabilities, SurfaceFormat,
};

fn family(supports_graphics: bool, supports_present: bool) -> QueueFamily {
    QueueFamily { supports_graphics, supports_present }
}

fn plain_capabilities() -> SurfaceCapabilities {
    SurfaceCapabilities {
        min_image_count: 2,
        max_image_count: None,
        min_image_extent: Extent::new(16, 16),
        max_image_extent: Extent::new(1920, 1080),
        supported_formats: vec![
            SurfaceFormat { format: 44, color_space: 0 },
            SurfaceFormat { format: 37, color_space: 0 },
        ],
        supported_composite_alpha: SupportedCompositeAlpha {
            opaque: true,
            pre_multiplied: false,
            post_multiplied: false,
            inherit: true,
        },
        present_modes: SupportedPresentModes {
            immediate: false,
            mailbox: true,
            fifo: true,
            relaxed: false,
        },
    }
}

#[test]
fn first_family_that_draws_and_presents_is_selected() {
    let families =
        vec![family(true, false), family(false, true), family(true, true), family(true, true)];
    assert_eq!(select_queue_family(&families), Some(2));
    assert_eq!(select_queue_family(&vec![family(true, true)]), Some(0));
}

#[test]
fn no_family_is_selected_where_none_does_both() {
    assert_eq!(select_queue_family(&vec![]), None);
    assert_eq!(select_queue_family(&vec![family(true, false), family(false, true)]), None);
    assert_eq!(select_queue_family(&vec![family(false, false)]), None);
}

#[test]
fn acquire_device_fails_without_a_suitable_family() {
    let families = vec![family(true, false), family(false, true)];
    assert_eq!(
        DeviceContext::acquire_device(&families, plain_capabilities()),
        Err(DeviceError::NoSuitableDevice)
    );
    assert_eq!(
        DeviceContext::acquire_device(&vec![], plain_capabilities()),
        Err(DeviceError::NoSuitableDevice)
    );
}

#[test]
fn acquire_device_keeps_the_family_and_the_capabilities() {
    let families = vec![family(false, true), family(true, true)];
    let context = DeviceContext::acquire_device(&families, plain_capabilities()).unwrap();
    assert_eq!(context.queue_family_index(), 1);
    assert_eq!(context.queue_family(), family(true, true));
    assert_eq!(*context.capabilities(), plain_capabilities());
}

#[test]
fn extent_is_supported_within_bounds_and_with_area() {
    let caps = plain_capabilities();
    assert!(caps.supports_extent(&Extent::new(16, 16)));
    assert!(caps.supports_extent(&Extent::new(1920, 1080)));
    assert!(caps.supports_extent(&Extent::new(800, 600)));
    assert!(!caps.supports_extent(&Extent::new(15, 16)));
    assert!(!caps.supports_extent(&Extent::new(16, 15)));
    assert!(!caps.supports_extent(&Extent::new(1921, 1080)));
    assert!(!caps.supports_extent(&Extent::new(1920, 1081)));
    assert!(!caps.supports_extent(&Extent::new(0, 0)));
    let mut open = plain_capabilities();
    open.min_image_extent = Extent::new(0, 0);
    assert!(!open.supports_extent(&Extent::new(0, 0)));
    assert!(!open.supports_extent(&Extent::new(0, 10)));
    assert!(!open.supports_extent(&Extent::new(10, 0)));
    assert!(open.supports_extent(&Extent::new(1, 1)));
}

#[test]
fn format_is_supported_where_the_surface_reports_the_pair() {
    let caps = plain_capabilities();
    assert!(caps.supports_format(&SurfaceFormat { format: 44, color_space: 0 }));
    assert!(caps.supports_format(&SurfaceFormat { format: 37, color_space: 0 }));
    assert!(!caps.supports_format(&SurfaceFormat { format: 44, color_space: 1 }));
    assert!(!caps.supports_format(&SurfaceFormat { format: 50, color_space: 0 }));
}

#[test]
fn supported_modes_are_told_apart() {
    let alpha = plain_capabilities().supported_composite_alpha;
    assert!(alpha.supports(CompositeAlpha::Opaque));
    assert!(!alpha.supports(CompositeAlpha::PreMultiplied));
    assert!(!alpha.supports(CompositeAlpha::PostMultiplied));
    assert!(alpha.supports(CompositeAlpha::Inherit));
    let modes = plain_capabilities().present_modes;
    assert!(!modes.supports(PresentMode::Immediate));
    assert!(modes.supports(PresentMode::Mailbox));
    assert!(modes.supports(PresentMode::Fifo));
    assert!(!modes.supports(PresentMode::Relaxed));
}

#[test]
fn extent_converts_to_and_from_dimensions() {
    let extent = Extent::from_dimensions([800, 600]);
    assert_eq!(extent, Extent { width: 800, height: 600 });
    assert_eq!(extent.dimensions(), [800, 600]);
    assert!(!extent.is_degenerate());
    assert!(Extent::new(0, 600).is_degenerate());
    assert!(Extent::new(800, 0).is_degenerate());
    assert!(extent.is_within(&Extent::new(800, 600), &Extent::new(800, 600)));
    assert!(!extent.is_within(&Extent::new(801, 600), &Extent::new(900, 600)));
}

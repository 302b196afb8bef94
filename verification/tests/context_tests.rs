use geg::app::GegAppOptions;
use geg::backend::{GegBackend, GraphicsContext};
use geg::device::{DeviceType, PhysicalDeviceInfo, QueueFamilyInfo};
use geg::error::GegError;
use geg::io::ModifiersState;
use geg::renderer::{AcquireOutcome, FrameHandle, RenderAction, SubmitOutcome};
use geg::swapchain::{
    ColorSpace, CompositeAlpha, Extent2d, PixelFormat, PresentMode, SurfaceCapabilities,
    SurfaceInfo,
};

fn one_good_device() -> Vec<PhysicalDeviceInfo> {
    vec![PhysicalDeviceInfo {
        device_type: DeviceType::IntegratedGpu,
        supports_swapchain: true,
        queue_families: vec![QueueFamilyInfo { graphics: true, present: true }],
    }]
}

fn srgb_surface(min_image_count: u32) -> SurfaceInfo {
    SurfaceInfo {
        capabilities: SurfaceCapabilities {
            min_image_count,
            supported_composite_alpha: vec![CompositeAlpha::Opaque],
        },
        formats: vec![(PixelFormat::B8G8R8A8Srgb, ColorSpace::SrgbNonLinear)],
        present_modes: vec![PresentMode::Fifo],
    }
}

#[test]
fn context_builds_against_single_device_surface() {
    // scenario: one physical device with graphics and present support and
    // the preferred format pair; construction succeeds and exposes exactly
    // one queue
    let ctx = GraphicsContext::new(
        GegBackend::Vulkano,
        one_good_device(),
        &srgb_surface(2),
        Extent2d { width: 800, height: 600 },
        vec![1, 2, 3],
    )
    .expect("the stub surface satisfies every constraint");
    assert_eq!(ctx.backend_type, GegBackend::Vulkano);
    assert_eq!(ctx.device.queue().family_index, 0);
    assert_eq!(ctx.device.queue_family_index, 0);
    assert_eq!(ctx.renderer.chain.images().len(), 3);
    assert_eq!(ctx.renderer.last_frame, FrameHandle::Ready);
}

#[test]
fn context_reports_device_failure_first() {
    let no_devices: Vec<PhysicalDeviceInfo> = Vec::new();
    match GraphicsContext::new(
        GegBackend::Vulkano,
        no_devices,
        &srgb_surface(2),
        Extent2d { width: 800, height: 600 },
        vec![1, 2, 3],
    ) {
        Err(GegError::NoSuitableDevice) => {}
        other => panic!("expected NoSuitableDevice, got {:?}", other),
    }
}

#[test]
fn context_reports_format_failure() {
    let bad = SurfaceInfo {
        capabilities: SurfaceCapabilities {
            min_image_count: 2,
            supported_composite_alpha: vec![CompositeAlpha::Opaque],
        },
        formats: vec![(PixelFormat::B8G8R8A8Unorm, ColorSpace::Other(1))],
        present_modes: vec![PresentMode::Fifo],
    };
    match GraphicsContext::new(
        GegBackend::Vulkano,
        one_good_device(),
        &bad,
        Extent2d { width: 800, height: 600 },
        vec![1, 2, 3],
    ) {
        Err(GegError::NoCompatibleFormat) => {}
        other => panic!("expected NoCompatibleFormat, got {:?}", other),
    }
}

#[test]
fn update_and_submission_drive_the_renderer() {
    let mut ctx = GraphicsContext::new(
        GegBackend::Vulkano,
        one_good_device(),
        &srgb_surface(2),
        Extent2d { width: 800, height: 600 },
        vec![1, 2, 3],
    )
    .expect("the stub surface satisfies every constraint");
    assert_eq!(ctx.update(AcquireOutcome::OutOfDate), Ok(RenderAction::Skip));
    assert!(matches!(
        ctx.update(AcquireOutcome::Image { index: 2, suboptimal: false }),
        Ok(RenderAction::Draw(_))
    ));
    ctx.frame_submitted(SubmitOutcome::Signaled(11));
    assert_eq!(ctx.renderer.last_frame, FrameHandle::Pending(11));
}

#[test]
fn context_resize_keeps_device_and_rebuilds_targets() {
    let surface = srgb_surface(2);
    let mut ctx = GraphicsContext::new(
        GegBackend::Vulkano,
        one_good_device(),
        &surface,
        Extent2d { width: 800, height: 600 },
        vec![1, 2, 3],
    )
    .expect("the stub surface satisfies every constraint");
    ctx.resize(&surface, 400, 300, vec![4, 5, 6, 7]).expect("four images suffice");
    assert_eq!(ctx.device.queue().family_index, 0);
    assert_eq!(ctx.renderer.pipeline.viewport_extent, Extent2d { width: 400, height: 300 });
    assert_eq!(ctx.renderer.targets.frame_buffers.len(), 4);
    assert_eq!(ctx.renderer.chain.images().len(), 4);
}

#[test]
fn default_options_and_modifiers() {
    let opts = GegAppOptions::default();
    assert_eq!(opts.name, "Geg App");
    assert_eq!(opts.backend, GegBackend::Vulkano);

    let mods = ModifiersState::default();
    assert!(!mods.ctrl);
    assert!(!mods.shift);
    assert!(!mods.alt);
    assert!(!mods.logo);
}

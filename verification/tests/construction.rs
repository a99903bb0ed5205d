use kmsdrm::context::Context;
use kmsdrm::device::CallKind;
use kmsdrm::device::Device;
use kmsdrm::device::DeviceCall;
use kmsdrm::device::DisplayMode;
use kmsdrm::device::FailureInjection;
use kmsdrm::egl::Api;
use kmsdrm::egl::EglContext;
use kmsdrm::egl::PixelFormat;
use kmsdrm::error::CreationError;
use kmsdrm::error::MissingResource;
use kmsdrm::format::BufferFormat;
use kmsdrm::format::PixelFormatRequirements;

fn sample_egl() -> EglContext {
    EglContext {
        api: Api::OpenGl,
        current: false,
        raw_context: 0x51,
        display_ptr: 0x7000,
        pixel_format: PixelFormat {
            hardware_accelerated: true,
            color_bits: 24,
            alpha_bits: 8,
            depth_bits: 24,
            stencil_bits: 8,
            stereoscopy: false,
            double_buffer: true,
            multisampling: None,
            srgb: false,
        },
        swap_ok: true,
        damage_supported: false,
    }
}

fn sample_reqs() -> PixelFormatRequirements {
    PixelFormatRequirements {
        color_bits: Some(24),
        alpha_bits: Some(8),
        srgb: false,
        depth_bits: Some(24),
    }
}

fn mode() -> DisplayMode {
    DisplayMode { width: 1920, height: 1080 }
}

#[test]
fn missing_device_is_not_supported() {
    let mut device = Device::open(0x7000);
    device.available = false;
    let r = Context::new(&mut device, Some(1), Some(2), Some(mode()), 1920, 1080, &sample_reqs(), sample_egl());
    assert_eq!(r, Err(CreationError::NotSupported(MissingResource::Device)));
    assert!(device.calls.is_empty());

    let h = Context::new_headless(&device, Some(1), Some(2), Some(mode()), &sample_reqs(), sample_egl());
    assert_eq!(h, Err(CreationError::NotSupported(MissingResource::Device)));
}

#[test]
fn missing_crtc_connector_or_mode_is_not_supported() {
    let mut device = Device::open(0x7000);
    let r = Context::new(&mut device, None, Some(2), Some(mode()), 1920, 1080, &sample_reqs(), sample_egl());
    assert_eq!(r, Err(CreationError::NotSupported(MissingResource::Crtc)));
    let r = Context::new(&mut device, Some(1), None, Some(mode()), 1920, 1080, &sample_reqs(), sample_egl());
    assert_eq!(r, Err(CreationError::NotSupported(MissingResource::Connector)));
    let r = Context::new(&mut device, Some(1), Some(2), None, 1920, 1080, &sample_reqs(), sample_egl());
    assert_eq!(r, Err(CreationError::NotSupported(MissingResource::Mode)));
    // rejected before any native allocation: the device recorded nothing
    assert!(device.calls.is_empty());

    let h = Context::new_headless(&device, None, Some(2), Some(mode()), &sample_reqs(), sample_egl());
    assert_eq!(h, Err(CreationError::NotSupported(MissingResource::Crtc)));
    let h = Context::new_headless(&device, Some(1), None, Some(mode()), &sample_reqs(), sample_egl());
    assert_eq!(h, Err(CreationError::NotSupported(MissingResource::Connector)));
    let h = Context::new_headless(&device, Some(1), Some(2), None, &sample_reqs(), sample_egl());
    assert_eq!(h, Err(CreationError::NotSupported(MissingResource::Mode)));
}

#[test]
fn failed_device_open_surfaces_the_os_error() {
    let mut device = Device::open(0x7000);
    device.init_error = Some(String::from("permission denied"));
    let r = Context::new(&mut device, Some(1), Some(2), Some(mode()), 1920, 1080, &sample_reqs(), sample_egl());
    assert_eq!(r, Err(CreationError::OsError(String::from("permission denied"))));
    assert!(device.calls.is_empty());

    let h = Context::new_headless(&device, Some(1), Some(2), Some(mode()), &sample_reqs(), sample_egl());
    assert_eq!(h, Err(CreationError::OsError(String::from("permission denied"))));
}

#[test]
fn failed_surface_allocation_surfaces_the_os_error() {
    let mut device = Device::open(0x7000);
    device.fail_next = Some(FailureInjection {
        kind: CallKind::CreateSurface,
        detail: String::from("out of memory"),
    });
    let r = Context::new(&mut device, Some(1), Some(2), Some(mode()), 1920, 1080, &sample_reqs(), sample_egl());
    assert_eq!(r, Err(CreationError::OsError(String::from("out of memory"))));
    assert!(device.calls.is_empty());
}

#[test]
fn windowed_construction_allocates_a_surface_in_the_chosen_format() {
    let mut device = Device::open(0x7000);
    let r = Context::new(&mut device, Some(1), Some(2), Some(mode()), 1920, 1080, &sample_reqs(), sample_egl())
        .expect("construction should succeed");
    let surface = r.surface.expect("windowed context has a surface");
    assert_eq!(surface.width, 1920);
    assert_eq!(surface.height, 1080);
    assert_eq!(surface.format, BufferFormat::Xrgb8888);
    assert_eq!(r.depth, 24);
    assert_eq!(r.bpp, 32);
    assert_eq!(r.crtc, 1);
    assert_eq!(r.connector, 2);
    assert_eq!(r.mode, mode());
    assert_eq!(r.previous_fb, None);
    assert_eq!(r.previous_bo, None);
    assert_eq!(
        device.calls,
        vec![DeviceCall::CreateSurface { width: 1920, height: 1080, format: BufferFormat::Xrgb8888 }]
    );
}

#[test]
fn raw_context_construction_takes_resources_directly() {
    let mut device = Device::open(0x7000);
    let ctx = Context::new_raw_context(&mut device, 800, 600, 9, 10, mode(), &sample_reqs(), sample_egl())
        .expect("construction should succeed");
    assert_eq!(ctx.crtc, 9);
    assert_eq!(ctx.connector, 10);
    assert_eq!(
        ctx.surface,
        Some(kmsdrm::device::Surface { width: 800, height: 600, format: BufferFormat::Xrgb8888 })
    );
    assert_eq!(
        device.calls,
        vec![DeviceCall::CreateSurface { width: 800, height: 600, format: BufferFormat::Xrgb8888 }]
    );
}

#[test]
fn headless_construction_has_no_surface() {
    let device = Device::open(0x7000);
    let reqs = PixelFormatRequirements { color_bits: None, alpha_bits: None, srgb: false, depth_bits: None };
    let ctx = Context::new_headless(&device, Some(4), Some(5), Some(mode()), &reqs, sample_egl())
        .expect("headless construction should succeed");
    assert_eq!(ctx.surface, None);
    assert_eq!(ctx.depth, 0);
    assert_eq!(ctx.bpp, 0);
    assert_eq!(ctx.crtc, 4);
    assert_eq!(ctx.connector, 5);
    assert_eq!(ctx.previous_fb, None);
}

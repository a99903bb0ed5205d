use kmsdrm::context::Context;
use kmsdrm::device::CallKind;
use kmsdrm::device::Device;
use kmsdrm::device::DeviceCall;
use kmsdrm::device::DisplayMode;
use kmsdrm::device::FailureInjection;
use kmsdrm::egl::Api;
use kmsdrm::egl::EglContext;
use kmsdrm::egl::PixelFormat;
use kmsdrm::egl::Rect;
use kmsdrm::error::ContextError;
use kmsdrm::error::OsFailure;
use kmsdrm::format::BufferFormat;
use kmsdrm::format::PixelFormatRequirements;

fn test_egl() -> EglContext {
    EglContext {
        api: Api::OpenGlEs,
        current: true,
        raw_context: 0xabc,
        display_ptr: 0x9000,
        pixel_format: PixelFormat {
            hardware_accelerated: true,
            color_bits: 24,
            alpha_bits: 8,
            depth_bits: 24,
            stencil_bits: 8,
            stereoscopy: false,
            double_buffer: true,
            multisampling: Some(4),
            srgb: true,
        },
        swap_ok: true,
        damage_supported: true,
    }
}

fn test_reqs() -> PixelFormatRequirements {
    PixelFormatRequirements {
        color_bits: Some(24),
        alpha_bits: Some(8),
        srgb: false,
        depth_bits: Some(24),
    }
}

fn test_mode() -> DisplayMode {
    DisplayMode { width: 640, height: 480 }
}

fn windowed(device: &mut Device) -> Context {
    Context::new(device, Some(1), Some(2), Some(test_mode()), 640, 480, &test_reqs(), test_egl())
        .expect("construction should succeed")
}

#[test]
fn first_present_installs_without_destroying() {
    let mut device = Device::open(0x9000);
    let mut ctx = windowed(&mut device);
    assert_eq!(device.live_fbs.len(), 0);

    ctx.swap_buffers(&mut device).expect("first present should succeed");

    // the framebuffer count went from zero to one and nothing was destroyed
    assert_eq!(device.live_fbs, vec![1]);
    assert_eq!(device.scanout, Some(1));
    assert_eq!(ctx.previous_fb, Some(1));
    assert_eq!(ctx.previous_bo, Some(1));
    assert_eq!(
        device.calls,
        vec![
            DeviceCall::CreateSurface { width: 640, height: 480, format: BufferFormat::Xrgb8888 },
            DeviceCall::LockFrontBuffer { bo: 1 },
            DeviceCall::AddFramebuffer { bo: 1, fb: 1, depth: 24, bpp: 32 },
            DeviceCall::SetCrtc { crtc: 1, fb: 1, connector: 2, mode: test_mode() },
        ]
    );
}

#[test]
fn second_present_retires_the_previous_framebuffer() {
    let mut device = Device::open(0x9000);
    let mut ctx = windowed(&mut device);
    ctx.swap_buffers(&mut device).expect("first present should succeed");
    ctx.swap_buffers(&mut device).expect("second present should succeed");

    // one added, one destroyed: the count stays at one
    assert_eq!(device.live_fbs, vec![2]);
    assert_eq!(device.scanout, Some(2));
    assert_eq!(ctx.previous_fb, Some(2));
    let tail = &device.calls[5..];
    assert_eq!(
        tail,
        &[
            DeviceCall::AddFramebuffer { bo: 2, fb: 2, depth: 24, bpp: 32 },
            DeviceCall::SetCrtc { crtc: 1, fb: 2, connector: 2, mode: test_mode() },
            DeviceCall::DestroyFramebuffer { fb: 1 },
        ]
    );
}

#[test]
fn presents_append_whole_blocks_in_order() {
    let mut device = Device::open(0x9000);
    let mut ctx = windowed(&mut device);
    let constructed = device.calls.clone();
    ctx.swap_buffers(&mut device).expect("first present should succeed");
    let after_first = device.calls.clone();
    ctx.swap_buffers(&mut device).expect("second present should succeed");

    // each present appended its block after everything already logged:
    // nothing of the second present stands between calls of the first
    assert_eq!(&device.calls[..constructed.len()], &constructed[..]);
    assert_eq!(&device.calls[..after_first.len()], &after_first[..]);
    let first_block = &device.calls[constructed.len()..after_first.len()];
    let second_block = &device.calls[after_first.len()..];
    assert_eq!(
        first_block,
        &[
            DeviceCall::LockFrontBuffer { bo: 1 },
            DeviceCall::AddFramebuffer { bo: 1, fb: 1, depth: 24, bpp: 32 },
            DeviceCall::SetCrtc { crtc: 1, fb: 1, connector: 2, mode: test_mode() },
        ]
    );
    assert_eq!(
        second_block,
        &[
            DeviceCall::LockFrontBuffer { bo: 2 },
            DeviceCall::AddFramebuffer { bo: 2, fb: 2, depth: 24, bpp: 32 },
            DeviceCall::SetCrtc { crtc: 1, fb: 2, connector: 2, mode: test_mode() },
            DeviceCall::DestroyFramebuffer { fb: 1 },
        ]
    );
}

#[test]
fn surfaceless_present_fails_before_any_device_call() {
    let mut device = Device::open(0x9000);
    let mut ctx = Context::new_headless(
        &device,
        Some(1),
        Some(2),
        Some(test_mode()),
        &test_reqs(),
        test_egl(),
    )
    .expect("headless construction should succeed");

    let r = ctx.swap_buffers(&mut device);
    assert_eq!(r, Err(ContextError::OsError(OsFailure::Surfaceless)));
    // no pipeline install was attempted: the device recorded nothing at all
    assert!(device.calls.is_empty());
    assert_eq!(ctx.previous_fb, None);
}

#[test]
fn failed_gl_swap_aborts_before_locking() {
    let mut device = Device::open(0x9000);
    let mut ctx = windowed(&mut device);
    ctx.egl.swap_ok = false;
    let before = device.calls.clone();
    let r = ctx.swap_buffers(&mut device);
    assert_eq!(r, Err(ContextError::OsError(OsFailure::GlSwap)));
    assert_eq!(device.calls, before);
    assert_eq!(ctx.previous_fb, None);
}

#[test]
fn unavailable_device_fails_the_present() {
    let mut device = Device::open(0x9000);
    let mut ctx = windowed(&mut device);
    device.init_error = Some(String::from("device wedged"));
    let r = ctx.swap_buffers(&mut device);
    assert_eq!(r, Err(ContextError::OsError(OsFailure::DeviceUnavailable)));
    assert_eq!(ctx.previous_fb, None);
    assert_eq!(device.live_fbs.len(), 0);
}

#[test]
fn failed_front_buffer_lock_changes_nothing() {
    let mut device = Device::open(0x9000);
    let mut ctx = windowed(&mut device);
    let before = device.calls.clone();
    device.fail_next = Some(FailureInjection {
        kind: CallKind::LockFrontBuffer,
        detail: String::from("EBUSY"),
    });
    let r = ctx.swap_buffers(&mut device);
    assert_eq!(r, Err(ContextError::OsError(OsFailure::LockFrontBuffer(String::from("EBUSY")))));
    assert_eq!(device.calls, before);
    assert_eq!(device.live_fbs.len(), 0);
    assert_eq!(ctx.previous_fb, None);
}

#[test]
fn failed_framebuffer_registration_leaves_no_partial_state() {
    let mut device = Device::open(0x9000);
    let mut ctx = windowed(&mut device);
    ctx.swap_buffers(&mut device).expect("first present should succeed");
    device.fail_next = Some(FailureInjection {
        kind: CallKind::AddFramebuffer,
        detail: String::from("EINVAL"),
    });
    let r = ctx.swap_buffers(&mut device);
    assert_eq!(r, Err(ContextError::OsError(OsFailure::AddFramebuffer(String::from("EINVAL")))));
    // the context still points at its live framebuffer; nothing was destroyed
    assert_eq!(ctx.previous_fb, Some(1));
    assert_eq!(device.live_fbs, vec![1]);
    assert_eq!(device.scanout, Some(1));
    assert_eq!(device.calls.last(), Some(&DeviceCall::LockFrontBuffer { bo: 2 }));
}

#[test]
fn failed_pipeline_install_keeps_the_old_frame_visible() {
    let mut device = Device::open(0x9000);
    let mut ctx = windowed(&mut device);
    ctx.swap_buffers(&mut device).expect("first present should succeed");
    device.fail_next = Some(FailureInjection {
        kind: CallKind::SetCrtc,
        detail: String::from("ENODEV"),
    });
    let r = ctx.swap_buffers(&mut device);
    assert_eq!(r, Err(ContextError::OsError(OsFailure::SetCrtc(String::from("ENODEV")))));
    // the old framebuffer is still installed and still registered
    assert_eq!(device.scanout, Some(1));
    assert!(device.live_fbs.contains(&1));
    assert_eq!(ctx.previous_fb, Some(1));
}

#[test]
fn failed_retirement_reports_the_destroy_step() {
    let mut device = Device::open(0x9000);
    let mut ctx = windowed(&mut device);
    ctx.swap_buffers(&mut device).expect("first present should succeed");
    device.fail_next = Some(FailureInjection {
        kind: CallKind::DestroyFramebuffer,
        detail: String::from("EACCES"),
    });
    let r = ctx.swap_buffers(&mut device);
    assert_eq!(
        r,
        Err(ContextError::OsError(OsFailure::DestroyFramebuffer(String::from("EACCES"))))
    );
    // the new framebuffer is installed; the old one was not destroyed
    assert_eq!(device.scanout, Some(2));
    assert!(device.live_fbs.contains(&1));
    assert!(device.live_fbs.contains(&2));
    assert_eq!(ctx.previous_fb, Some(1));
}

#[test]
fn damage_aware_present_follows_the_same_protocol() {
    let mut device = Device::open(0x9000);
    let mut ctx = windowed(&mut device);
    let rects = [Rect { x: 0, y: 0, width: 64, height: 64 }];
    ctx.swap_buffers_with_damage(&mut device, &rects).expect("present should succeed");
    assert_eq!(device.live_fbs, vec![1]);
    assert_eq!(device.scanout, Some(1));
    assert_eq!(ctx.previous_fb, Some(1));
    ctx.swap_buffers_with_damage(&mut device, &rects).expect("present should succeed");
    assert_eq!(device.live_fbs, vec![2]);
    assert_eq!(ctx.previous_fb, Some(2));
}

#[test]
fn each_framebuffer_is_destroyed_exactly_once() {
    let mut device = Device::open(0x9000);
    let mut ctx = windowed(&mut device);
    ctx.swap_buffers(&mut device).expect("present should succeed");
    ctx.swap_buffers(&mut device).expect("present should succeed");
    ctx.swap_buffers(&mut device).expect("present should succeed");

    let destroys_of = |fb: u32| {
        device
            .calls
            .iter()
            .filter(|c| **c == DeviceCall::DestroyFramebuffer { fb })
            .count()
    };
    // the first two framebuffers were each retired exactly once; the third
    // is still installed
    assert_eq!(destroys_of(1), 1);
    assert_eq!(destroys_of(2), 1);
    assert_eq!(destroys_of(3), 0);
    assert_eq!(device.live_fbs, vec![3]);
    assert_eq!(ctx.previous_fb, Some(3));
}

#[test]
fn present_works_at_the_edge_of_the_handle_space() {
    let mut device = Device::open(0x9000);
    let mut ctx = windowed(&mut device);
    device.next_bo = u32::MAX - 1;
    device.next_fb = u32::MAX - 1;
    ctx.swap_buffers(&mut device).expect("present should succeed");
    assert_eq!(ctx.previous_fb, Some(u32::MAX - 1));
    assert_eq!(device.scanout, Some(u32::MAX - 1));
    assert_eq!(device.live_fbs, vec![u32::MAX - 1]);
}

#[test]
fn accessors_delegate_to_the_gl_context() {
    let mut device = Device::open(0x9000);
    let mut ctx = windowed(&mut device);
    assert!(ctx.is_current());
    assert_eq!(ctx.get_api(), Api::OpenGlEs);
    assert_eq!(ctx.raw_handle(), 0xabc);
    assert_eq!(ctx.get_egl_display(), Some(0x9000));
    assert_eq!(ctx.get_pixel_format(), test_egl().pixel_format);
    assert!(ctx.swap_buffers_with_damage_supported());

    ctx.make_not_current().expect("releasing the context always succeeds");
    assert!(!ctx.is_current());

    // resizing is a documented no-op: the mode fixes the resolution
    let before = ctx.clone();
    ctx.resize(800, 600);
    assert_eq!(ctx, before);
}

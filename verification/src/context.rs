use vstd::prelude::*;

use crate::device::CallKind;
use crate::device::Device;
use crate::device::DeviceCall;
use crate::device::DisplayMode;
use crate::device::FailureInjection;
use crate::device::Surface;
use crate::egl::Api;
use crate::egl::EglContext;
use crate::egl::PixelFormat;
use crate::egl::Rect;
use crate::error::ContextError;
use crate::error::CreationError;
use crate::error::MissingResource;
use crate::error::OsFailure;
use crate::format::buffer_format_for;
use crate::format::spec_buffer_format;
use crate::format::PixelFormatRequirements;

verus! {

/// The depth value a context registers framebuffers with: the requested
/// depth bits, or zero where none were requested.
pub open spec fn spec_depth(pf: PixelFormatRequirements) -> u32 {
    match pf.depth_bits {
        Some(d) => d as u32,
        None => 0u32,
    }
}

/// The bits-per-pixel value a context registers framebuffers with: the
/// requested color bits plus the requested alpha bits, each zero where none
/// were requested.
pub open spec fn spec_bpp(pf: PixelFormatRequirements) -> u32 {
    let c = match pf.color_bits {
        Some(c) => c as int,
        None => 0,
    };
    let a = match pf.alpha_bits {
        Some(a) => a as int,
        None => 0,
    };
    (c + a) as u32
}

/// The first output resource the event loop failed to provide, if any, in
/// the order construction checks them.
pub open spec fn spec_missing_resource(
    device_available: bool,
    crtc: Option<u32>,
    connector: Option<u32>,
    mode: Option<DisplayMode>,
) -> Option<MissingResource> {
    if !device_available {
        Some(MissingResource::Device)
    } else if crtc is None {
        Some(MissingResource::Crtc)
    } else if connector is None {
        Some(MissingResource::Connector)
    } else if mode is None {
        Some(MissingResource::Mode)
    } else {
        None
    }
}

/// The depth value as construction computes it.
fn depth_of(pf: &PixelFormatRequirements) -> (r: u32)
    ensures
        r == spec_depth(*pf),
{
    match pf.depth_bits {
        Some(d) => d as u32,
        None => 0,
    }
}

/// The bits-per-pixel value as construction computes it.
fn bpp_of(pf: &PixelFormatRequirements) -> (r: u32)
    ensures
        r == spec_bpp(*pf),
{
    let c: u32 = match pf.color_bits {
        Some(c) => c as u32,
        None => 0,
    };
    let a: u32 = match pf.alpha_bits {
        Some(a) => a as u32,
        None => 0,
    };
    c + a
}

/// A rendering context driving one display output directly. It owns the GL
/// context collaborator state and, unless it is surfaceless, a scanout
/// surface; the output it drives - pipeline, connector and mode - is fixed
/// at construction. The shared GPU device is not owned: each call that
/// touches it takes the device exclusively, which is what the lock around
/// the real shared handle provides.
#[derive(Debug, Clone, PartialEq, Eq)]
pub struct Context {
    /// The GL context this backend delegates to.
    pub egl: EglContext,
    /// The scanout surface; a context without one is surfaceless and cannot
    /// present.
    pub surface: Option<Surface>,
    /// The front buffer locked by the last successful present, kept alive
    /// while it is scanned out.
    pub previous_bo: Option<u32>,
    /// The framebuffer installed by the last successful present.
    pub previous_fb: Option<u32>,
    /// The depth framebuffers are registered with.
    pub depth: u32,
    /// The bits per pixel framebuffers are registered with.
    pub bpp: u32,
    /// The display pipeline this context drives.
    pub crtc: u32,
    /// The connector the pipeline scans out to.
    pub connector: u32,
    /// The fixed display mode.
    pub mode: DisplayMode,
}

impl Context {
    /// The part of a context no present call changes: everything but the
    /// previously presented buffer and framebuffer.
    pub open spec fn same_config(self, other: Context) -> bool {
        &&& self.egl == other.egl
        &&& self.surface == other.surface
        &&& self.depth == other.depth
        &&& self.bpp == other.bpp
        &&& self.crtc == other.crtc
        &&& self.connector == other.connector
        &&& self.mode == other.mode
    }

    /// The step at which a present on this context and device fails, if
    /// any, as the error that present reports. `None` means the present is
    /// bound to succeed.
    pub open spec fn spec_present_failure(self, device: Device) -> Option<OsFailure> {
        if !self.egl.swap_ok {
            Some(OsFailure::GlSwap)
        } else if self.surface is None {
            Some(OsFailure::Surfaceless)
        } else if device.fail_next is Some && device.fail_next->0.kind
            == CallKind::LockFrontBuffer {
            Some(OsFailure::LockFrontBuffer(device.fail_next->0.detail))
        } else if device.init_error is Some {
            Some(OsFailure::DeviceUnavailable)
        } else if device.fail_next is Some && device.fail_next->0.kind
            == CallKind::AddFramebuffer {
            Some(OsFailure::AddFramebuffer(device.fail_next->0.detail))
        } else if device.fail_next is Some && device.fail_next->0.kind == CallKind::SetCrtc {
            Some(OsFailure::SetCrtc(device.fail_next->0.detail))
        } else if device.fail_next is Some && device.fail_next->0.kind
            == CallKind::DestroyFramebuffer && self.previous_fb is Some {
            Some(OsFailure::DestroyFramebuffer(device.fail_next->0.detail))
        } else {
            None
        }
    }

    /// The control calls a present on this context and device records, in
    /// order. A present that runs to completion locks the new front buffer,
    /// registers it, installs it, and retires the previously installed
    /// framebuffer if there was one; a present that fails records the calls
    /// up to and not including the step that failed.
    pub open spec fn spec_present_calls(self, device: Device) -> Seq<DeviceCall> {
        let bo = device.next_bo;
        let fb = device.next_fb;
        let lock = (DeviceCall::LockFrontBuffer { bo });
        let add = (DeviceCall::AddFramebuffer { bo, fb, depth: self.depth, bpp: self.bpp });
        let set = (DeviceCall::SetCrtc {
            crtc: self.crtc,
            fb,
            connector: self.connector,
            mode: self.mode,
        });
        match self.spec_present_failure(device) {
            Some(OsFailure::GlSwap) => Seq::<DeviceCall>::empty(),
            Some(OsFailure::Surfaceless) => Seq::<DeviceCall>::empty(),
            Some(OsFailure::LockFrontBuffer(_)) => Seq::<DeviceCall>::empty(),
            Some(OsFailure::DeviceUnavailable) => seq![lock],
            Some(OsFailure::AddFramebuffer(_)) => seq![lock],
            Some(OsFailure::SetCrtc(_)) => seq![lock, add],
            Some(OsFailure::DestroyFramebuffer(_)) => seq![lock, add, set],
            None => match self.previous_fb {
                Some(p) => seq![lock, add, set, (DeviceCall::DestroyFramebuffer { fb: p })],
                None => seq![lock, add, set],
            },
        }
    }

    /// Builds a surfaceless context for off-screen work: the GL context is
    /// bound to the device with no presentation surface. Requires the event
    /// loop to have provided the device, pipeline, connector and mode; a
    /// missing one is rejected as not supported before anything is
    /// allocated, and a device whose open failed surfaces that OS error.
    pub fn new_headless(
        device: &Device,
        crtc: Option<u32>,
        connector: Option<u32>,
        mode: Option<DisplayMode>,
        pf_reqs: &PixelFormatRequirements,
        egl: EglContext,
    ) -> (r: Result<Context, CreationError>)
        ensures
            r is Ok <==> (spec_missing_resource(device.available, crtc, connector, mode) is None
                && device.init_error is None),
            spec_missing_resource(device.available, crtc, connector, mode) matches Some(m) ==> r
                == Err::<Context, CreationError>(CreationError::NotSupported(m)),
            spec_missing_resource(device.available, crtc, connector, mode) is None
                && device.init_error is Some ==> r == Err::<Context, CreationError>(
                CreationError::OsError(device.init_error->0),
            ),
            r matches Ok(ctx) ==> crtc matches Some(ct) && connector matches Some(cn)
                && mode matches Some(md) && ctx == (Context {
                egl,
                surface: None,
                previous_bo: None,
                previous_fb: None,
                depth: spec_depth(*pf_reqs),
                bpp: spec_bpp(*pf_reqs),
                crtc: ct,
                connector: cn,
                mode: md,
            }),
    {
        if !device.available {
            return Err(CreationError::NotSupported(MissingResource::Device));
        }
        let crtc = match crtc {
            Some(c) => c,
            None => { return Err(CreationError::NotSupported(MissingResource::Crtc)) },
        };
        let connector = match connector {
            Some(c) => c,
            None => { return Err(CreationError::NotSupported(MissingResource::Connector)) },
        };
        let mode = match mode {
            Some(m) => m,
            None => { return Err(CreationError::NotSupported(MissingResource::Mode)) },
        };
        match &device.init_error {
            Some(e) => { return Err(CreationError::OsError(e.clone())) },
            None => {},
        }
        Ok(
            Context {
                egl,
                surface: None,
                previous_bo: None,
                previous_fb: None,
                depth: depth_of(pf_reqs),
                bpp: bpp_of(pf_reqs),
                crtc,
                connector,
                mode,
            },
        )
    }

    /// Builds a windowed context over resources the caller already holds: a
    /// scanout surface of the window's size is allocated in the format the
    /// table picks for the requirements, and the context drives the given
    /// pipeline, connector and mode. A device whose open failed surfaces
    /// that OS error, and a failed surface allocation does too; nothing is
    /// recorded in either case.
    pub fn new_raw_context(
        device: &mut Device,
        width: u32,
        height: u32,
        crtc: u32,
        connector: u32,
        mode: DisplayMode,
        pf_reqs: &PixelFormatRequirements,
        egl: EglContext,
    ) -> (r: Result<Context, CreationError>)
        requires
            old(device).wf(),
        ensures
            final(device).wf(),
            final(device).same_handle(*old(device)),
            final(device).next_bo == old(device).next_bo,
            final(device).next_fb == old(device).next_fb,
            final(device).live_fbs == old(device).live_fbs,
            final(device).scanout == old(device).scanout,
            r is Ok <==> (old(device).init_error is None && !(old(device).fail_next is Some && old(device).fail_next->0.kind == CallKind::CreateSurface)),
            old(device).init_error matches Some(e) ==> r == Err::<Context, CreationError>(CreationError::OsError(e)) && *final(device) == *old(device),
            old(device).init_error is None && old(device).fail_next is Some && old(device).fail_next->0.kind == CallKind::CreateSurface ==> r == Err::<Context, CreationError>(
                CreationError::OsError(old(device).fail_next->0.detail),
            ) && final(device).calls == old(device).calls && final(device).fail_next is None,
            r matches Ok(ctx) ==> ({
                let format = spec_buffer_format(pf_reqs.color_bits, pf_reqs.alpha_bits,
                    pf_reqs.srgb);
                &&& ctx == (Context {
                    egl,
                    surface: Some((Surface { width, height, format })),
                    previous_bo: None,
                    previous_fb: None,
                    depth: spec_depth(*pf_reqs),
                    bpp: spec_bpp(*pf_reqs),
                    crtc,
                    connector,
                    mode,
                })
                &&& final(device).calls@ == old(device).calls@.push(
                    (DeviceCall::CreateSurface { width, height, format }),
                )
                &&& final(device).fail_next == old(device).fail_next
            }),
    {
        match &device.init_error {
            Some(e) => { return Err(CreationError::OsError(e.clone())) },
            None => {},
        }
        let format = buffer_format_for(pf_reqs);
        let surface = match device.create_surface(width, height, format) {
            Ok(s) => s,
            Err(d) => { return Err(CreationError::OsError(d)) },
        };
        Ok(
            Context {
                egl,
                surface: Some(surface),
                previous_bo: None,
                previous_fb: None,
                depth: depth_of(pf_reqs),
                bpp: bpp_of(pf_reqs),
                crtc,
                connector,
                mode,
            },
        )
    }

    /// Builds a windowed context from what the event loop provides. A
    /// missing device, pipeline, connector or mode is rejected as not
    /// supported before anything is allocated; otherwise construction
    /// proceeds as [`Context::new_raw_context`].
    pub fn new(
        device: &mut Device,
        crtc: Option<u32>,
        connector: Option<u32>,
        mode: Option<DisplayMode>,
        width: u32,
        height: u32,
        pf_reqs: &PixelFormatRequirements,
        egl: EglContext,
    ) -> (r: Result<Context, CreationError>)
        requires
            old(device).wf(),
        ensures
            final(device).wf(),
            final(device).same_handle(*old(device)),
            final(device).next_bo == old(device).next_bo,
            final(device).next_fb == old(device).next_fb,
            final(device).live_fbs == old(device).live_fbs,
            final(device).scanout == old(device).scanout,
            spec_missing_resource(old(device).available, crtc, connector, mode) matches Some(m)
                ==> r == Err::<Context, CreationError>(CreationError::NotSupported(m)) && *final(device) == *old(device),
            r is Ok <==> (spec_missing_resource(old(device).available, crtc, connector, mode)
                is None && old(device).init_error is None && !(old(device).fail_next is Some && old(device).fail_next->0.kind == CallKind::CreateSurface)),
            spec_missing_resource(old(device).available, crtc, connector, mode) is None
                && old(device).init_error is Some ==> r == Err::<Context, CreationError>(
                CreationError::OsError(old(device).init_error->0),
            ) && *final(device) == *old(device),
            spec_missing_resource(old(device).available, crtc, connector, mode) is None && old(device).init_error is None && old(device).fail_next is Some && old(device).fail_next->0.kind
                == CallKind::CreateSurface ==> r == Err::<Context, CreationError>(
                CreationError::OsError(old(device).fail_next->0.detail),
            ) && final(device).calls == old(device).calls && final(device).fail_next is None,
            r matches Ok(ctx) ==> ({
                let format = spec_buffer_format(pf_reqs.color_bits, pf_reqs.alpha_bits,
                    pf_reqs.srgb);
                &&& crtc matches Some(ct) && connector matches Some(cn) && mode matches Some(md)
                    && ctx == (Context {
                    egl,
                    surface: Some((Surface { width, height, format })),
                    previous_bo: None,
                    previous_fb: None,
                    depth: spec_depth(*pf_reqs),
                    bpp: spec_bpp(*pf_reqs),
                    crtc: ct,
                    connector: cn,
                    mode: md,
                })
                &&& final(device).calls@ == old(device).calls@.push(
                    (DeviceCall::CreateSurface { width, height, format }),
                )
                &&& final(device).fail_next == old(device).fail_next
            }),
    {
        if !device.available {
            return Err(CreationError::NotSupported(MissingResource::Device));
        }
        let crtc = match crtc {
            Some(c) => c,
            None => { return Err(CreationError::NotSupported(MissingResource::Crtc)) },
        };
        let connector = match connector {
            Some(c) => c,
            None => { return Err(CreationError::NotSupported(MissingResource::Connector)) },
        };
        let mode = match mode {
            Some(m) => m,
            None => { return Err(CreationError::NotSupported(MissingResource::Mode)) },
        };
        Context::new_raw_context(device, width, height, crtc, connector, mode, pf_reqs, egl)
    }

    /// Presents the newly rendered frame: after the GL-level swap, the
    /// surface's front buffer is locked, registered as a framebuffer with
    /// the configured depth and bits per pixel, installed on the configured
    /// pipeline, and only then is the previously installed framebuffer
    /// destroyed, so at every point a live framebuffer backs the display. A
    /// failure at any step aborts the present with an OS error naming the
    /// step, leaves this context unchanged, and never leaves the display
    /// referencing a destroyed framebuffer. One deliberate gap: a front
    /// buffer locked by a present that then fails is not released here; it
    /// is dropped only when a later present replaces it.
    pub fn swap_buffers(&mut self, device: &mut Device) -> (r: Result<(), ContextError>)
        requires
            old(device).wf(),
            old(device).next_bo < u32::MAX,
            old(device).next_fb < u32::MAX,
            old(self).previous_fb matches Some(p) ==> old(device).live_fbs@.contains(p),
        ensures
            final(device).wf(),
            final(device).same_handle(*old(device)),
            final(self).same_config(*old(self)),
            r is Ok <==> old(self).spec_present_failure(*old(device)) is None,
            r matches Err(e) ==> e == ContextError::OsError(
                old(self).spec_present_failure(*old(device))->0,
            ),
            r is Err ==> *final(self) == *old(self),
            final(device).calls@ == old(device).calls@ + old(self).spec_present_calls(
                *old(device),
            ),
            final(device).next_bo == old(device).next_bo + (
            if old(self).spec_present_calls(*old(device)).len() >= 1 {
                1int
            } else {
                0int
            }),
            final(device).next_fb == old(device).next_fb + (
            if old(self).spec_present_calls(*old(device)).len() >= 2 {
                1int
            } else {
                0int
            }),
            r is Ok ==> ({
                let bo = old(device).next_bo;
                let fb = old(device).next_fb;
                &&& final(self).previous_bo == Some(bo)
                &&& final(self).previous_fb == Some(fb)
                &&& final(device).scanout == Some(fb)
                &&& final(device).live_fbs@.contains(fb)
                &&& (old(self).previous_fb matches Some(p) ==> p != fb && !final(device).live_fbs@.contains(p))
                &&& forall|y: u32|
                    y != fb && Some(y) != old(self).previous_fb ==> final(device).live_fbs@.contains(y) == old(device).live_fbs@.contains(y)
                &&& final(device).live_fbs@.len() == old(device).live_fbs@.len() + 1 - (
                if old(self).previous_fb is Some {
                    1int
                } else {
                    0int
                })
                &&& final(device).fail_next == old(device).fail_next
            }),
            r is Err ==> ({
                let f = old(self).spec_present_failure(*old(device))->0;
                &&& final(device).live_fbs@ == (match f {
                    OsFailure::SetCrtc(_) => old(device).live_fbs@.push(old(device).next_fb),
                    OsFailure::DestroyFramebuffer(_) => old(device).live_fbs@.push(
                        old(device).next_fb,
                    ),
                    _ => old(device).live_fbs@,
                })
                &&& final(device).scanout == (match f {
                    OsFailure::DestroyFramebuffer(_) => Some(old(device).next_fb),
                    _ => old(device).scanout,
                })
                &&& final(device).fail_next == (match f {
                    OsFailure::LockFrontBuffer(_) => Option::<FailureInjection>::None,
                    OsFailure::AddFramebuffer(_) => Option::<FailureInjection>::None,
                    OsFailure::SetCrtc(_) => Option::<FailureInjection>::None,
                    OsFailure::DestroyFramebuffer(_) => Option::<FailureInjection>::None,
                    _ => old(device).fail_next,
                })
            }),
    {
        if !self.egl.swap_ok {
            return Err(ContextError::OsError(OsFailure::GlSwap));
        }
        let surface = match &self.surface {
            Some(s) => *s,
            None => { return Err(ContextError::OsError(OsFailure::Surfaceless)) },
        };
        let bo = match device.lock_front_buffer(&surface) {
            Ok(b) => b,
            Err(d) => { return Err(ContextError::OsError(OsFailure::LockFrontBuffer(d))) },
        };
        if device.init_error.is_some() {
            proof {
                assert(device.calls@ =~= old(device).calls@ + old(self).spec_present_calls(
                    *old(device),
                ));
            }
            return Err(ContextError::OsError(OsFailure::DeviceUnavailable));
        }
        let fb = match device.add_framebuffer(bo, self.depth, self.bpp) {
            Ok(f) => f,
            Err(d) => {
                proof {
                    assert(device.calls@ =~= old(device).calls@ + old(self).spec_present_calls(
                        *old(device),
                    ));
                }
                return Err(ContextError::OsError(OsFailure::AddFramebuffer(d)));
            },
        };
        proof {
            broadcast use vstd::seq_lib::lemma_seq_contains_after_push;

            assert(device.live_fbs@.contains(fb));
        }
        match device.set_crtc(self.crtc, fb, self.connector, self.mode) {
            Ok(()) => {},
            Err(d) => {
                proof {
                    assert(device.calls@ =~= old(device).calls@ + old(self).spec_present_calls(
                        *old(device),
                    ));
                }
                return Err(ContextError::OsError(OsFailure::SetCrtc(d)));
            },
        }
        match self.previous_fb {
            Some(prev) => {
                proof {
                    assert(prev != fb);
                    assert(device.live_fbs@.contains(prev)) by {
                        let k = choose|k: int|
                            0 <= k < old(device).live_fbs@.len() && old(device).live_fbs@[k]
                                == prev;
                        assert(device.live_fbs@[k] == prev);
                    }
                }
                match device.destroy_framebuffer(prev) {
                    Ok(()) => {},
                    Err(d) => {
                        proof {
                            assert(device.calls@ =~= old(device).calls@ + old(self).spec_present_calls(*old(device)));
                        }
                        return Err(ContextError::OsError(OsFailure::DestroyFramebuffer(d)));
                    },
                }
            },
            None => {},
        }
        self.previous_fb = Some(fb);
        self.previous_bo = Some(bo);
        proof {
            broadcast use vstd::seq_lib::lemma_seq_contains_after_push;

            assert(device.calls@ =~= old(device).calls@ + old(self).spec_present_calls(
                *old(device),
            ));
            assert forall|y: u32|
                y != fb && Some(y) != old(self).previous_fb implies device.live_fbs@.contains(y)
                == old(device).live_fbs@.contains(y) by {
                assert(old(device).live_fbs@.push(fb).contains(y) == (old(device).live_fbs@.contains(y) || y == fb));
            }
        }
        Ok(())
    }

    /// Presents with a list of damaged sub-rectangles, handed to the GL
    /// component as an optimization hint. The hint does not change what is
    /// displayed, so the present protocol and its guarantees are exactly
    /// those of [`Context::swap_buffers`].
    pub fn swap_buffers_with_damage(&mut self, device: &mut Device, rects: &[Rect]) -> (r: Result<
        (),
        ContextError,
    >)
        requires
            old(device).wf(),
            old(device).next_bo < u32::MAX,
            old(device).next_fb < u32::MAX,
            old(self).previous_fb matches Some(p) ==> old(device).live_fbs@.contains(p),
        ensures
            final(device).wf(),
            final(device).same_handle(*old(device)),
            final(self).same_config(*old(self)),
            r is Ok <==> old(self).spec_present_failure(*old(device)) is None,
            r matches Err(e) ==> e == ContextError::OsError(
                old(self).spec_present_failure(*old(device))->0,
            ),
            r is Err ==> *final(self) == *old(self),
            final(device).calls@ == old(device).calls@ + old(self).spec_present_calls(
                *old(device),
            ),
            final(device).next_bo == old(device).next_bo + (
            if old(self).spec_present_calls(*old(device)).len() >= 1 {
                1int
            } else {
                0int
            }),
            final(device).next_fb == old(device).next_fb + (
            if old(self).spec_present_calls(*old(device)).len() >= 2 {
                1int
            } else {
                0int
            }),
            r is Ok ==> ({
                let bo = old(device).next_bo;
                let fb = old(device).next_fb;
                &&& final(self).previous_bo == Some(bo)
                &&& final(self).previous_fb == Some(fb)
                &&& final(device).scanout == Some(fb)
                &&& final(device).live_fbs@.contains(fb)
                &&& (old(self).previous_fb matches Some(p) ==> p != fb && !final(device).live_fbs@.contains(p))
                &&& forall|y: u32|
                    y != fb && Some(y) != old(self).previous_fb ==> final(device).live_fbs@.contains(y) == old(device).live_fbs@.contains(y)
                &&& final(device).live_fbs@.len() == old(device).live_fbs@.len() + 1 - (
                if old(self).previous_fb is Some {
                    1int
                } else {
                    0int
                })
                &&& final(device).fail_next == old(device).fail_next
            }),
            r is Err ==> ({
                let f = old(self).spec_present_failure(*old(device))->0;
                &&& final(device).live_fbs@ == (match f {
                    OsFailure::SetCrtc(_) => old(device).live_fbs@.push(old(device).next_fb),
                    OsFailure::DestroyFramebuffer(_) => old(device).live_fbs@.push(
                        old(device).next_fb,
                    ),
                    _ => old(device).live_fbs@,
                })
                &&& final(device).scanout == (match f {
                    OsFailure::DestroyFramebuffer(_) => Some(old(device).next_fb),
                    _ => old(device).scanout,
                })
                &&& final(device).fail_next == (match f {
                    OsFailure::LockFrontBuffer(_) => Option::<FailureInjection>::None,
                    OsFailure::AddFramebuffer(_) => Option::<FailureInjection>::None,
                    OsFailure::SetCrtc(_) => Option::<FailureInjection>::None,
                    OsFailure::DestroyFramebuffer(_) => Option::<FailureInjection>::None,
                    _ => old(device).fail_next,
                })
            }),
    {
        self.swap_buffers(device)
    }

    /// Whether the GL component supports damage-aware swaps.
    pub fn swap_buffers_with_damage_supported(&self) -> (r: bool)
        ensures
            r == self.egl.damage_supported,
    {
        self.egl.damage_supported
    }

    /// Releases the GL context from the calling thread.
    pub fn make_not_current(&mut self) -> (r: Result<(), ContextError>)
        ensures
            r is Ok,
            final(self).egl == (EglContext { current: false, ..old(self).egl }),
            *final(self) == (Context { egl: final(self).egl, ..*old(self) }),
    {
        self.egl.current = false;
        Ok(())
    }

    /// Whether the GL context is current on the calling thread.
    pub fn is_current(&self) -> (r: bool)
        ensures
            r == self.egl.current,
    {
        self.egl.current
    }

    /// The GL API the context exposes.
    pub fn get_api(&self) -> (r: Api)
        ensures
            r == self.egl.api,
    {
        self.egl.api
    }

    /// The native GL context handle, as an address.
    pub fn raw_handle(&self) -> (r: u64)
        ensures
            r == self.egl.raw_context,
    {
        self.egl.raw_context
    }

    /// The native display pointer the context was created over.
    pub fn get_egl_display(&self) -> (r: Option<u64>)
        ensures
            r == Some(self.egl.display_ptr),
    {
        Some(self.egl.display_ptr)
    }

    /// Resizing is deliberately a no-op in this backend: the output
    /// resolution is fixed by the mode chosen at construction.
    pub fn resize(&self, width: u32, height: u32) {
    }

    /// The pixel format the GL component chose for this context.
    pub fn get_pixel_format(&self) -> (r: PixelFormat)
        ensures
            r == self.egl.pixel_format,
    {
        self.egl.pixel_format
    }
}

} // verus!

use vstd::prelude::*;

use crate::format::BufferFormat;

verus! {

/// A display mode: the fixed output resolution the context drives.
#[derive(Debug, Clone, Copy, PartialEq, Eq, Structural)]
pub struct DisplayMode {
    pub width: u32,
    pub height: u32,
}

/// One control call issued to the device, as the device records it.
#[derive(Debug, Clone, Copy, PartialEq, Eq, Structural)]
pub enum DeviceCall {
    /// A scanout surface was allocated.
    CreateSurface { width: u32, height: u32, format: BufferFormat },
    /// The surface's most recently rendered buffer was locked as the front
    /// buffer `bo`.
    LockFrontBuffer { bo: u32 },
    /// Front buffer `bo` was registered as display framebuffer `fb` with the
    /// given depth and bits per pixel.
    AddFramebuffer { bo: u32, fb: u32, depth: u32, bpp: u32 },
    /// Framebuffer `fb` was installed on the display pipeline `crtc`,
    /// driving `connector` at `mode`.
    SetCrtc { crtc: u32, fb: u32, connector: u32, mode: DisplayMode },
    /// Framebuffer `fb` was unregistered.
    DestroyFramebuffer { fb: u32 },
}

/// The kinds of control call, for naming which call an injected failure
/// strikes.
#[derive(Debug, Clone, Copy, PartialEq, Eq, Structural)]
pub enum CallKind {
    CreateSurface,
    LockFrontBuffer,
    AddFramebuffer,
    SetCrtc,
    DestroyFramebuffer,
}

/// A failure the device will report on its next call of the given kind,
/// standing for a native call that fails with the given description.
#[derive(Debug, Clone, PartialEq, Eq)]
pub struct FailureInjection {
    pub kind: CallKind,
    pub detail: String,
}

/// A scanout surface allocated from the device, sized to the output and
/// holding buffers in the given format.
#[derive(Debug, Clone, Copy, PartialEq, Eq, Structural)]
pub struct Surface {
    pub width: u32,
    pub height: u32,
    pub format: BufferFormat,
}

/// The GPU device, as this backend sees it. The real device is a kernel
/// node driven through ioctls, which cannot be verified; this model keeps
/// the observable device state as plain values - which framebuffers are
/// registered, which one is being scanned out, and the order of every
/// control call - so the handoff protocol can be proved against it. A
/// `Device` value is handed to each call exclusively, which is what the
/// shared lock around the real device handle provides.
#[derive(Debug, Clone, PartialEq, Eq)]
pub struct Device {
    /// Whether the event loop exposes a GPU device at all. A value with
    /// `available == false` stands for an event loop that reports none.
    pub available: bool,
    /// The error opening the device reported, if the open failed.
    pub init_error: Option<String>,
    /// The address the native buffer allocator reports for this device.
    pub display_ptr: u64,
    /// The next front-buffer handle to mint.
    pub next_bo: u32,
    /// The next framebuffer handle to mint.
    pub next_fb: u32,
    /// The framebuffer handles currently registered with the display
    /// controller.
    pub live_fbs: Vec<u32>,
    /// The framebuffer currently installed on the display pipeline, if any.
    pub scanout: Option<u32>,
    /// Every control call issued so far, in order.
    pub calls: Vec<DeviceCall>,
    /// A pending failure for the next call of its kind, if any.
    pub fail_next: Option<FailureInjection>,
}

impl Device {
    /// Well-formedness: registered framebuffer handles are distinct and
    /// below the next handle to mint, and the scanned-out framebuffer, if
    /// any, is registered.
    pub open spec fn wf(self) -> bool {
        &&& forall|i: int, j: int|
            0 <= i < j < self.live_fbs@.len() ==> self.live_fbs@[i] != self.live_fbs@[j]
        &&& forall|i: int| 0 <= i < self.live_fbs@.len() ==> self.live_fbs@[i] < self.next_fb
        &&& self.scanout matches Some(fb) ==> self.live_fbs@.contains(fb)
    }

    /// The device's configuration fields, which no control call changes.
    pub open spec fn same_handle(self, other: Device) -> bool {
        &&& self.available == other.available
        &&& self.init_error == other.init_error
        &&& self.display_ptr == other.display_ptr
    }

    /// A freshly opened, healthy device with nothing registered and nothing
    /// recorded.
    pub fn open(display_ptr: u64) -> (d: Device)
        ensures
            d.wf(),
            d.available,
            d.init_error is None,
            d.display_ptr == display_ptr,
            d.next_bo == 1,
            d.next_fb == 1,
            d.live_fbs@ == Seq::<u32>::empty(),
            d.scanout is None,
            d.calls@ == Seq::<DeviceCall>::empty(),
            d.fail_next is None,
    {
        Device {
            available: true,
            init_error: None,
            display_ptr,
            next_bo: 1,
            next_fb: 1,
            live_fbs: Vec::new(),
            scanout: None,
            calls: Vec::new(),
            fail_next: None,
        }
    }

    /// Whether a failure is pending for a call of this kind.
    fn injected(&self, kind: CallKind) -> (r: bool)
        ensures
            r == (self.fail_next matches Some(inj) && inj.kind == kind),
    {
        match &self.fail_next {
            Some(inj) => inj.kind == kind,
            None => false,
        }
    }

    /// Consumes the pending failure and hands back its description.
    fn take_failure(&mut self) -> (d: String)
        requires
            old(self).fail_next is Some,
        ensures
            old(self).fail_next matches Some(inj) && d == inj.detail,
            final(self).fail_next is None,
            final(self).available == old(self).available,
            final(self).init_error == old(self).init_error,
            final(self).display_ptr == old(self).display_ptr,
            final(self).next_bo == old(self).next_bo,
            final(self).next_fb == old(self).next_fb,
            final(self).live_fbs == old(self).live_fbs,
            final(self).scanout == old(self).scanout,
            final(self).calls == old(self).calls,
    {
        let inj = self.fail_next.take();
        inj.unwrap().detail
    }

    /// Allocates a scanout surface of the given size and format. Either the
    /// surface comes back, or the pending failure of this kind strikes and
    /// nothing is recorded.
    pub fn create_surface(&mut self, width: u32, height: u32, format: BufferFormat) -> (r: Result<
        Surface,
        String,
    >)
        requires
            old(self).wf(),
        ensures
            final(self).wf(),
            final(self).same_handle(*old(self)),
            final(self).next_bo == old(self).next_bo,
            final(self).next_fb == old(self).next_fb,
            final(self).live_fbs == old(self).live_fbs,
            final(self).scanout == old(self).scanout,
            match r {
                Ok(s) => {
                    &&& !(old(self).fail_next matches Some(inj) && inj.kind
                        == CallKind::CreateSurface)
                    &&& s == (Surface { width, height, format })
                    &&& final(self).calls@ == old(self).calls@.push(
                        (DeviceCall::CreateSurface { width, height, format }),
                    )
                    &&& final(self).fail_next == old(self).fail_next
                },
                Err(d) => {
                    &&& old(self).fail_next matches Some(inj) && inj.kind
                        == CallKind::CreateSurface && d == inj.detail
                    &&& final(self).calls == old(self).calls
                    &&& final(self).fail_next is None
                },
            },
    {
        if self.injected(CallKind::CreateSurface) {
            return Err(self.take_failure());
        }
        self.calls.push(DeviceCall::CreateSurface { width, height, format });
        Ok(Surface { width, height, format })
    }

    /// Locks the surface's most recently rendered buffer as the front
    /// buffer and hands back its handle.
    pub fn lock_front_buffer(&mut self, surface: &Surface) -> (r: Result<u32, String>)
        requires
            old(self).wf(),
            old(self).next_bo < u32::MAX,
        ensures
            final(self).wf(),
            final(self).same_handle(*old(self)),
            final(self).next_fb == old(self).next_fb,
            final(self).live_fbs == old(self).live_fbs,
            final(self).scanout == old(self).scanout,
            match r {
                Ok(bo) => {
                    &&& !(old(self).fail_next matches Some(inj) && inj.kind
                        == CallKind::LockFrontBuffer)
                    &&& bo == old(self).next_bo
                    &&& final(self).next_bo == old(self).next_bo + 1
                    &&& final(self).calls@ == old(self).calls@.push(
                        (DeviceCall::LockFrontBuffer { bo }),
                    )
                    &&& final(self).fail_next == old(self).fail_next
                },
                Err(d) => {
                    &&& old(self).fail_next matches Some(inj) && inj.kind
                        == CallKind::LockFrontBuffer && d == inj.detail
                    &&& final(self).next_bo == old(self).next_bo
                    &&& final(self).calls == old(self).calls
                    &&& final(self).fail_next is None
                },
            },
    {
        if self.injected(CallKind::LockFrontBuffer) {
            return Err(self.take_failure());
        }
        let bo = self.next_bo;
        self.next_bo = self.next_bo + 1;
        self.calls.push(DeviceCall::LockFrontBuffer { bo });
        Ok(bo)
    }

    /// Registers a front buffer as a display framebuffer with the given
    /// depth and bits per pixel, and hands back the new framebuffer handle.
    pub fn add_framebuffer(&mut self, bo: u32, depth: u32, bpp: u32) -> (r: Result<u32, String>)
        requires
            old(self).wf(),
            old(self).next_fb < u32::MAX,
        ensures
            final(self).wf(),
            final(self).same_handle(*old(self)),
            final(self).next_bo == old(self).next_bo,
            final(self).scanout == old(self).scanout,
            match r {
                Ok(fb) => {
                    &&& !(old(self).fail_next matches Some(inj) && inj.kind
                        == CallKind::AddFramebuffer)
                    &&& fb == old(self).next_fb
                    &&& !old(self).live_fbs@.contains(fb)
                    &&& final(self).next_fb == old(self).next_fb + 1
                    &&& final(self).live_fbs@ == old(self).live_fbs@.push(fb)
                    &&& final(self).calls@ == old(self).calls@.push(
                        (DeviceCall::AddFramebuffer { bo, fb, depth, bpp }),
                    )
                    &&& final(self).fail_next == old(self).fail_next
                },
                Err(d) => {
                    &&& old(self).fail_next matches Some(inj) && inj.kind
                        == CallKind::AddFramebuffer && d == inj.detail
                    &&& final(self).next_fb == old(self).next_fb
                    &&& final(self).live_fbs == old(self).live_fbs
                    &&& final(self).calls == old(self).calls
                    &&& final(self).fail_next is None
                },
            },
    {
        if self.injected(CallKind::AddFramebuffer) {
            return Err(self.take_failure());
        }
        let fb = self.next_fb;
        assert(!self.live_fbs@.contains(fb)) by {
            if self.live_fbs@.contains(fb) {
                let k = choose|k: int|
                    0 <= k < self.live_fbs@.len() && self.live_fbs@[k] == fb;
            }
        }
        self.next_fb = self.next_fb + 1;
        self.live_fbs.push(fb);
        self.calls.push(DeviceCall::AddFramebuffer { bo, fb, depth, bpp });
        assert(self.scanout matches Some(s) ==> self.live_fbs@.contains(s)) by {
            if self.scanout is Some {
                let s = self.scanout->0;
                let i = choose|i: int|
                    0 <= i < old(self).live_fbs@.len() && old(self).live_fbs@[i] == s;
                assert(self.live_fbs@[i] == s);
            }
        }
        Ok(fb)
    }

    /// Installs a registered framebuffer on the display pipeline: the
    /// visible present.
    pub fn set_crtc(&mut self, crtc: u32, fb: u32, connector: u32, mode: DisplayMode) -> (r: Result<
        (),
        String,
    >)
        requires
            old(self).wf(),
            old(self).live_fbs@.contains(fb),
        ensures
            final(self).wf(),
            final(self).same_handle(*old(self)),
            final(self).next_bo == old(self).next_bo,
            final(self).next_fb == old(self).next_fb,
            final(self).live_fbs == old(self).live_fbs,
            match r {
                Ok(()) => {
                    &&& !(old(self).fail_next matches Some(inj) && inj.kind == CallKind::SetCrtc)
                    &&& final(self).scanout == Some(fb)
                    &&& final(self).calls@ == old(self).calls@.push(
                        (DeviceCall::SetCrtc { crtc, fb, connector, mode }),
                    )
                    &&& final(self).fail_next == old(self).fail_next
                },
                Err(d) => {
                    &&& old(self).fail_next matches Some(inj) && inj.kind == CallKind::SetCrtc && d
                        == inj.detail
                    &&& final(self).scanout == old(self).scanout
                    &&& final(self).calls == old(self).calls
                    &&& final(self).fail_next is None
                },
            },
    {
        if self.injected(CallKind::SetCrtc) {
            return Err(self.take_failure());
        }
        self.scanout = Some(fb);
        self.calls.push(DeviceCall::SetCrtc { crtc, fb, connector, mode });
        Ok(())
    }

    /// Unregisters a framebuffer. If it was the one being scanned out, the
    /// pipeline is left showing nothing.
    pub fn destroy_framebuffer(&mut self, fb: u32) -> (r: Result<(), String>)
        requires
            old(self).wf(),
            old(self).live_fbs@.contains(fb),
        ensures
            final(self).wf(),
            final(self).same_handle(*old(self)),
            final(self).next_bo == old(self).next_bo,
            final(self).next_fb == old(self).next_fb,
            match r {
                Ok(()) => {
                    &&& !(old(self).fail_next matches Some(inj) && inj.kind
                        == CallKind::DestroyFramebuffer)
                    &&& final(self).live_fbs@.len() == old(self).live_fbs@.len() - 1
                    &&& !final(self).live_fbs@.contains(fb)
                    &&& forall|y: u32|
                        y != fb ==> final(self).live_fbs@.contains(y) == old(self).live_fbs@.contains(y)
                    &&& final(self).scanout == (if old(self).scanout == Some(fb) {
                        Option::<u32>::None
                    } else {
                        old(self).scanout
                    })
                    &&& final(self).calls@ == old(self).calls@.push(
                        (DeviceCall::DestroyFramebuffer { fb }),
                    )
                    &&& final(self).fail_next == old(self).fail_next
                },
                Err(d) => {
                    &&& old(self).fail_next matches Some(inj) && inj.kind
                        == CallKind::DestroyFramebuffer && d == inj.detail
                    &&& final(self).live_fbs == old(self).live_fbs
                    &&& final(self).scanout == old(self).scanout
                    &&& final(self).calls == old(self).calls
                    &&& final(self).fail_next is None
                },
            },
    {
        if self.injected(CallKind::DestroyFramebuffer) {
            return Err(self.take_failure());
        }
        let ghost prev = self.live_fbs@;
        let mut idx: usize = 0;
        while idx < self.live_fbs.len() && self.live_fbs[idx] != fb
            invariant
                idx <= self.live_fbs@.len(),
                *self == *old(self),
                self.live_fbs@ == prev,
                forall|k: int| 0 <= k < idx ==> self.live_fbs@[k] != fb,
            decreases self.live_fbs@.len() - idx,
        {
            idx = idx + 1;
        }
        proof {
            let w = choose|w: int| 0 <= w < prev.len() && prev[w] == fb;
            assert(idx < prev.len());
        }
        let ghost gidx = idx as int;
        self.live_fbs.remove(idx);
        proof {
            prev.remove_ensures(gidx);
            let cur = self.live_fbs@;
            assert forall|y: u32| y != fb implies cur.contains(y) == prev.contains(y) by {
                if prev.contains(y) {
                    let k = choose|k: int| 0 <= k < prev.len() && prev[k] == y;
                    if k < gidx {
                        assert(cur[k] == y);
                    } else {
                        assert(cur[k - 1] == prev[k]);
                    }
                }
                if cur.contains(y) {
                    let k = choose|k: int| 0 <= k < cur.len() && cur[k] == y;
                    if k < gidx {
                        assert(prev[k] == y);
                    } else {
                        assert(prev[k + 1] == y);
                    }
                }
            }
            assert(!cur.contains(fb)) by {
                if cur.contains(fb) {
                    let k = choose|k: int| 0 <= k < cur.len() && cur[k] == fb;
                    if k < gidx {
                        assert(prev[k] == fb);
                    } else {
                        assert(prev[k + 1] == fb);
                    }
                }
            }
            assert forall|i: int, j: int| 0 <= i < j < cur.len() implies cur[i] != cur[j] by {
                let pi = if i < gidx {
                    i
                } else {
                    i + 1
                };
                let pj = if j < gidx {
                    j
                } else {
                    j + 1
                };
                assert(cur[i] == prev[pi]);
                assert(cur[j] == prev[pj]);
            }
            assert forall|i: int| 0 <= i < cur.len() implies cur[i] < self.next_fb by {
                let pi = if i < gidx {
                    i
                } else {
                    i + 1
                };
                assert(cur[i] == prev[pi]);
            }
        }
        let destroy_scanout = match self.scanout {
            Some(s) => s == fb,
            None => false,
        };
        if destroy_scanout {
            self.scanout = None;
        }
        self.calls.push(DeviceCall::DestroyFramebuffer { fb });
        Ok(())
    }
}

} // verus!

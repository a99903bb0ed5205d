use vstd::prelude::*;

verus! {

/// The platform resource that the event loop failed to provide at
/// construction time.
#[derive(Debug, Clone, Copy, PartialEq, Eq, Structural)]
pub enum MissingResource {
    Device,
    Crtc,
    Connector,
    Mode,
}

/// Why a context could not be constructed.
#[derive(Debug, Clone, PartialEq, Eq)]
pub enum CreationError {
    /// A required platform resource (device, CRTC, connector or mode) was
    /// absent. Not recoverable for this context: the caller must pick a
    /// different backend.
    NotSupported(MissingResource),
    /// A native call failed while the context was being built; carries the
    /// native error's description.
    OsError(String),
}

/// The native step at which a present call failed. Variants that stand for a
/// failed native call carry the native error's description.
#[derive(Debug, Clone, PartialEq, Eq)]
pub enum OsFailure {
    /// The GL-level buffer swap failed.
    GlSwap,
    /// The context has no presentation surface, so there is no buffer to
    /// scan out.
    Surfaceless,
    /// The shared device handle was not opened successfully.
    DeviceUnavailable,
    /// Locking the surface's front buffer failed.
    LockFrontBuffer(String),
    /// Registering the front buffer as a display framebuffer failed.
    AddFramebuffer(String),
    /// Installing the new framebuffer on the display pipeline failed.
    SetCrtc(String),
    /// Retiring the previously installed framebuffer failed.
    DestroyFramebuffer(String),
}

/// Why a present call failed. Every failure of a present is an OS error:
/// some native call along the present sequence did not succeed.
#[derive(Debug, Clone, PartialEq, Eq)]
pub enum ContextError {
    OsError(OsFailure),
}

} // verus!

use vstd::prelude::*;

verus! {

/// The GL API a rendering context exposes.
#[derive(Debug, Clone, Copy, PartialEq, Eq, Structural)]
pub enum Api {
    OpenGl,
    OpenGlEs,
    WebGl,
}

/// The pixel format the GL component actually chose for a context.
#[derive(Debug, Clone, Copy, PartialEq, Eq)]
pub struct PixelFormat {
    pub hardware_accelerated: bool,
    pub color_bits: u8,
    pub alpha_bits: u8,
    pub depth_bits: u8,
    pub stencil_bits: u8,
    pub stereoscopy: bool,
    pub double_buffer: bool,
    pub multisampling: Option<u16>,
    pub srgb: bool,
}

/// A damaged sub-rectangle of the surface, handed to the GL component as a
/// hint with a damage-aware swap.
#[derive(Debug, Clone, Copy, PartialEq, Eq, Structural)]
pub struct Rect {
    pub x: u32,
    pub y: u32,
    pub width: u32,
    pub height: u32,
}

/// The EGL rendering context this backend drives. Context creation and
/// current-ness are owned by a separate GL component; this type holds, as
/// plain values, exactly what the backend reads of that collaborator: the
/// chosen API and pixel format, the native handles as addresses, whether the
/// context is current, and whether GL-level swaps (plain and damage-aware)
/// are working. The front end fills these fields from the real component.
#[derive(Debug, Clone, PartialEq, Eq)]
pub struct EglContext {
    /// The GL API the context was created for.
    pub api: Api,
    /// Whether the context is current on the calling thread.
    pub current: bool,
    /// The native context handle, as an address.
    pub raw_context: u64,
    /// The native display pointer the context was created over, as an
    /// address.
    pub display_ptr: u64,
    /// The pixel format the GL component chose.
    pub pixel_format: PixelFormat,
    /// Whether GL-level buffer swaps on this context currently succeed.
    pub swap_ok: bool,
    /// Whether the GL component supports damage-aware swaps.
    pub damage_supported: bool,
}

} // verus!

use vstd::prelude::*;

verus! {

/// The native buffer formats this backend requests from the buffer
/// allocator when it creates a scanout surface.
#[derive(Debug, Clone, Copy, PartialEq, Eq, Structural)]
pub enum BufferFormat {
    /// 24-bit color, no alpha channel.
    Rgb888,
    /// 24-bit color, 8 padding bits in a 32-bit word; the default.
    Xrgb8888,
    /// 12-bit color, 4 padding bits in a 16-bit word.
    Xrgb4444,
}

/// The pixel-format requirements a caller hands to construction: the
/// requested bit depths, and whether an sRGB-capable format is required.
#[derive(Debug, Clone, Copy, PartialEq, Eq)]
pub struct PixelFormatRequirements {
    pub color_bits: Option<u8>,
    pub alpha_bits: Option<u8>,
    pub srgb: bool,
    pub depth_bits: Option<u8>,
}

/// Whether the format table has an explicit entry for this combination of
/// requested color depth, alpha depth and sRGB flag.
pub open spec fn format_table_defines(
    color_bits: Option<u8>,
    alpha_bits: Option<u8>,
    srgb: bool,
) -> bool {
    ||| color_bits == Some(24u8) && (alpha_bits == Some(0u8) || alpha_bits is None)
    ||| color_bits == Some(24u8) && alpha_bits == Some(8u8)
    ||| color_bits == Some(12u8) && alpha_bits == Some(4u8) && !srgb
}

/// The buffer format chosen for a combination of requested depths: the
/// table's entry where one exists, and the 24-bit-color/8-bit-alpha default,
/// `Xrgb8888`, everywhere else.
pub open spec fn spec_buffer_format(
    color_bits: Option<u8>,
    alpha_bits: Option<u8>,
    srgb: bool,
) -> BufferFormat {
    if color_bits == Some(24u8) && (alpha_bits == Some(0u8) || alpha_bits is None) {
        BufferFormat::Rgb888
    } else if color_bits == Some(24u8) && alpha_bits == Some(8u8) {
        BufferFormat::Xrgb8888
    } else if color_bits == Some(12u8) && alpha_bits == Some(4u8) && !srgb {
        BufferFormat::Xrgb4444
    } else {
        BufferFormat::Xrgb8888
    }
}

/// Picks the native buffer format for the requested pixel format.
pub fn buffer_format_for(pf: &PixelFormatRequirements) -> (r: BufferFormat)
    ensures
        r == spec_buffer_format(pf.color_bits, pf.alpha_bits, pf.srgb),
{
    match (pf.color_bits, pf.alpha_bits, pf.srgb) {
        (Some(24), Some(0) | None, _) => BufferFormat::Rgb888,
        (Some(24), Some(8), _) => BufferFormat::Xrgb8888,
        (Some(12), Some(4), false) => BufferFormat::Xrgb4444,
        _ => BufferFormat::Xrgb8888,
    }
}

/// The format mapping is total and deterministic: it is defined for every
/// combination of requested depths, equal requests always map to the same
/// format, and every combination outside the table maps to the
/// 24-bit-color/8-bit-alpha default, `Xrgb8888`.
pub proof fn lemma_format_mapping_total_and_deterministic(
    c1: Option<u8>,
    a1: Option<u8>,
    s1: bool,
    c2: Option<u8>,
    a2: Option<u8>,
    s2: bool,
)
    ensures
        c1 == c2 && a1 == a2 && s1 == s2 ==> spec_buffer_format(c1, a1, s1) == spec_buffer_format(
            c2,
            a2,
            s2,
        ),
        !format_table_defines(c1, a1, s1) ==> spec_buffer_format(c1, a1, s1)
            == BufferFormat::Xrgb8888,
{
}

} // verus!

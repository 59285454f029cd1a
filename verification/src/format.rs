//! Pixel layouts that a capture source may declare.

use vstd::prelude::*;

verus! {

/// The pixel layout that a frame declares.
#[derive(Clone, Copy, Debug, PartialEq, Eq, Structural)]
pub enum FrameFormat {
    /// Packed 8-bit red, green, blue.
    Rgb,
    /// Packed 8-bit blue, green, red.
    Bgr,
    /// Packed 8-bit red, green, blue, alpha.
    Rgba,
    /// Packed 8-bit blue, green, red, alpha.
    Bgra,
    /// One 8-bit luminance sample per pixel.
    Gray8,
    /// Planar 4:2:0 YUV.
    I420,
    /// Planar 4:2:0 YUV with interleaved chroma.
    Nv12,
    /// Packed 4:2:2 YUV.
    Yuy2,
    /// Any layout this library has no name for.
    Unknown,
}

/// Bytes that one pixel occupies in the packed RGB layout.
pub const RGB_BYTES_PER_PIXEL: u8 = 3;

/// The byte length of a tightly packed RGB image of the given dimensions.
pub open spec fn packed_rgb_len(width: u32, height: u32) -> nat {
    (width * height * RGB_BYTES_PER_PIXEL) as nat
}

impl FrameFormat {
    /// The name under which caps negotiation knows the layout.
    pub open spec fn spec_name(self) -> Seq<char> {
        match self {
            FrameFormat::Rgb => "RGB"@,
            FrameFormat::Bgr => "BGR"@,
            FrameFormat::Rgba => "RGBA"@,
            FrameFormat::Bgra => "BGRA"@,
            FrameFormat::Gray8 => "GRAY8"@,
            FrameFormat::I420 => "I420"@,
            FrameFormat::Nv12 => "NV12"@,
            FrameFormat::Yuy2 => "YUY2"@,
            FrameFormat::Unknown => "UNKNOWN"@,
        }
    }

    /// Returns the name under which caps negotiation knows the layout.
    pub fn name(&self) -> (name: &'static str)
        ensures
            name@ == self.spec_name(),
    {
        match self {
            FrameFormat::Rgb => "RGB",
            FrameFormat::Bgr => "BGR",
            FrameFormat::Rgba => "RGBA",
            FrameFormat::Bgra => "BGRA",
            FrameFormat::Gray8 => "GRAY8",
            FrameFormat::I420 => "I420",
            FrameFormat::Nv12 => "NV12",
            FrameFormat::Yuy2 => "YUY2",
            FrameFormat::Unknown => "UNKNOWN",
        }
    }

    /// Tells whether this is the one layout the display accepts.
    pub fn is_rgb(&self) -> (rgb: bool)
        ensures
            rgb == (*self == FrameFormat::Rgb),
    {
        match self {
            FrameFormat::Rgb => true,
            _ => false,
        }
    }
}

} // verus!

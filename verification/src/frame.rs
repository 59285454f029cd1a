//! Raw frames as the capture thread sees them, and the window geometry that
//! fixes the capture resolution.

use vstd::prelude::*;
use crate::format::FrameFormat;

verus! {

/// One frame as delivered by the capture source: a borrowed byte region with
/// the dimensions, layout and row stride that the source declares for it.
///
/// The bytes are borrowed for one callback invocation and cannot be kept.
#[derive(Clone, Copy, Debug)]
pub struct RawFrame<'a> {
    /// The frame's bytes.
    pub data: &'a [u8],
    /// Declared width in pixels.
    pub width: u32,
    /// Declared height in pixels.
    pub height: u32,
    /// Declared pixel layout.
    pub format: FrameFormat,
    /// Declared distance in bytes between the starts of two rows.
    pub stride: i32,
}

/// What a raw frame holds, as plain values.
pub struct FrameView {
    pub data: Seq<u8>,
    pub width: u32,
    pub height: u32,
    pub format: FrameFormat,
    pub stride: i32,
}

impl<'a> View for RawFrame<'a> {
    type V = FrameView;

    open spec fn view(&self) -> FrameView {
        FrameView {
            data: self.data@,
            width: self.width,
            height: self.height,
            format: self.format,
            stride: self.stride,
        }
    }
}

impl<'a> RawFrame<'a> {
    /// Describes the byte region `data` as a frame.
    pub fn new(data: &'a [u8], width: u32, height: u32, format: FrameFormat, stride: i32) -> (frame:
        RawFrame<'a>)
        ensures
            frame@ == (FrameView { data: data@, width, height, format, stride }),
    {
        RawFrame { data, width, height, format, stride }
    }
}

/// The window's size in pixels, taken once at startup. It fixes the capture
/// resolution for the whole session.
#[derive(Clone, Copy, Debug, PartialEq, Eq, Structural)]
pub struct WindowGeometry {
    /// Width in pixels.
    pub width: u32,
    /// Height in pixels.
    pub height: u32,
}

impl WindowGeometry {
    /// Records a window size.
    pub fn new(width: u32, height: u32) -> (geometry: WindowGeometry)
        ensures
            geometry == (WindowGeometry { width, height }),
    {
        WindowGeometry { width, height }
    }
}

} // verus!

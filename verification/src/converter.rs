//! Turns a raw frame into a pixel buffer, or says why it cannot.

use vstd::prelude::*;
use crate::format::{packed_rgb_len, FrameFormat};
use crate::frame::{FrameView, RawFrame};
use crate::pixel_buffer::{allocatable, PixelBuffer, PixelView, ALLOCATION_HEADROOM};

verus! {

/// Why a frame was not converted.
#[derive(Clone, Copy, Debug, PartialEq, Eq, Structural)]
pub enum ConversionError {
    /// The frame declares a layout other than packed RGB; the layout is given.
    UnsupportedFormat(FrameFormat),
    /// The frame's byte length is not what its dimensions call for.
    SizeMismatch,
}

/// What conversion makes of a frame: the frame's own bytes under the frame's
/// dimensions when it declares packed RGB and holds exactly three bytes per
/// pixel, and otherwise the reason for refusing it. The declared layout is
/// judged first. The stride takes no part: rows are taken as tightly packed,
/// so a padded frame is one whose length does not match.
pub open spec fn convert_spec(frame: FrameView) -> Result<PixelView, ConversionError> {
    if frame.format != FrameFormat::Rgb {
        Err(ConversionError::UnsupportedFormat(frame.format))
    } else if frame.data.len() != packed_rgb_len(frame.width, frame.height) {
        Err(ConversionError::SizeMismatch)
    } else {
        Ok(PixelView { width: frame.width, height: frame.height, bytes: frame.data })
    }
}

/// The outcome of a conversion with the buffer replaced by what it holds.
pub open spec fn outcome_view(outcome: Result<PixelBuffer, ConversionError>) -> Result<
    PixelView,
    ConversionError,
> {
    match outcome {
        Ok(buffer) => Ok(buffer@),
        Err(error) => Err(error),
    }
}

/// Tells whether a frame's bytes can be copied into a buffer of their own:
/// the copy must not be larger than the allocator accepts.
pub open spec fn copyable(frame: FrameView) -> bool {
    allocatable(frame.data.len())
}

/// Tells whether a frame's bytes can be copied into a buffer of their own.
pub fn can_copy(frame: &RawFrame) -> (fits: bool)
    ensures
        fits == copyable(frame@),
{
    frame.data.len() <= isize::MAX as usize - ALLOCATION_HEADROOM
}

/// Tells whether the byte length `len` is what a packed RGB image of the
/// given dimensions has.
pub fn has_packed_rgb_len(len: usize, width: u32, height: u32) -> (matches: bool)
    ensures
        matches == (len == packed_rgb_len(width, height)),
{
    assert(width * height <= 0xFFFF_FFFF * 0xFFFF_FFFF) by (nonlinear_arith)
        requires
            width <= 0xFFFF_FFFF,
            height <= 0xFFFF_FFFF,
    ;
    let pixels: u64 = width as u64 * height as u64;
    pixels as u128 * 3 == len as u128
}

/// Validates a frame and copies it into a freshly allocated pixel buffer.
///
/// A frame that declares any layout but packed RGB is refused with
/// `UnsupportedFormat` before anything is allocated. A frame whose byte
/// length differs from `width * height * 3` is refused with `SizeMismatch`.
/// Every other frame is copied byte for byte.
pub fn convert(frame: RawFrame) -> (outcome: Result<PixelBuffer, ConversionError>)
    requires
        copyable(frame@),
    ensures
        outcome_view(outcome) == convert_spec(frame@),
        outcome is Ok <==> frame.format == FrameFormat::Rgb && frame.data@.len()
            == packed_rgb_len(frame.width, frame.height),
        outcome matches Ok(buffer) ==> buffer@.wf() && buffer@.width == frame.width
            && buffer@.height == frame.height && buffer@.bytes == frame.data@,
        frame.format != FrameFormat::Rgb ==> outcome.err() == Some(
            ConversionError::UnsupportedFormat(frame.format),
        ),
        frame.format == FrameFormat::Rgb && frame.data@.len() != packed_rgb_len(
            frame.width,
            frame.height,
        ) ==> outcome.err() == Some(ConversionError::SizeMismatch),
{
    if !frame.format.is_rgb() {
        return Err(ConversionError::UnsupportedFormat(frame.format));
    }
    if !has_packed_rgb_len(frame.data.len(), frame.width, frame.height) {
        return Err(ConversionError::SizeMismatch);
    }
    Ok(PixelBuffer::copy_of(frame.data, frame.width, frame.height))
}

/// Conversion depends on nothing but the frame: two frames that declare the
/// same layout and dimensions over equal bytes give the same outcome, and in
/// particular byte-identical buffers.
pub proof fn lemma_convert_repeatable(first: FrameView, second: FrameView)
    requires
        first.data == second.data,
        first.width == second.width,
        first.height == second.height,
        first.format == second.format,
    ensures
        convert_spec(first) == convert_spec(second),
        convert_spec(first) matches Ok(a) ==> (convert_spec(second) matches Ok(b) && a.bytes
            == b.bytes),
{
}

/// A converted buffer is well formed and holds exactly the frame's bytes, no
/// more and no fewer.
pub proof fn lemma_convert_exact_size(frame: FrameView)
    ensures
        convert_spec(frame) matches Ok(buffer) ==> buffer.wf() && buffer.bytes.len()
            == frame.data.len() && buffer.bytes == frame.data,
        convert_spec(frame) is Ok <==> frame.format == FrameFormat::Rgb && frame.data.len()
            == packed_rgb_len(frame.width, frame.height),
{
}

} // verus!

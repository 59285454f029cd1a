//! The pixel buffer that the display consumes.
//!
//! The buffer is slint's reference-counted `SharedPixelBuffer` of RGB pixels.
//! This module states what the library relies on from it and wraps it in a
//! type whose byte length always matches its dimensions.

use vstd::prelude::*;
use crate::format::packed_rgb_len;

verus! {

/// slint's pixel container, opaque to the verifier.
#[verifier::external_type_specification]
#[verifier::external_body]
#[verifier::reject_recursive_types(Pixel)]
pub struct ExSharedPixelBuffer<Pixel>(slint::SharedPixelBuffer<Pixel>);

/// The pixel type that `slint::Rgb8Pixel` abbreviates, opaque to the verifier.
#[verifier::external_type_specification]
#[verifier::external_body]
#[verifier::reject_recursive_types(T)]
pub struct ExRgb<T>(rgb::RGB<T>);

/// The pixels of a slint buffer as raw bytes, three per pixel, row by row.
pub uninterp spec fn pixel_bytes(pixels: slint::SharedPixelBuffer<slint::Rgb8Pixel>) -> Seq<u8>;

/// The width in pixels that a slint buffer was made with.
pub uninterp spec fn pixel_width(pixels: slint::SharedPixelBuffer<slint::Rgb8Pixel>) -> u32;

/// The height in pixels that a slint buffer was made with.
pub uninterp spec fn pixel_height(pixels: slint::SharedPixelBuffer<slint::Rgb8Pixel>) -> u32;

/// Headroom that the allocation of a slint buffer needs beside the pixels:
/// three machine words of bookkeeping, rounded up to their alignment.
pub const ALLOCATION_HEADROOM: usize = 32;

/// Tells whether a buffer of `len` bytes can be requested from the allocator,
/// which takes no request beyond `isize::MAX` bytes.
pub open spec fn allocatable(len: nat) -> bool {
    len + ALLOCATION_HEADROOM <= isize::MAX
}

/// Calls `slint::SharedPixelBuffer::new`.
///
/// The new buffer has the given dimensions and holds three bytes for each of
/// its `width * height` pixels, all zero. Sizes that make the layout
/// computation inside slint fail are left out.
#[verifier::external_body]
fn alloc_pixels(width: u32, height: u32) -> (pixels: slint::SharedPixelBuffer<slint::Rgb8Pixel>)
    requires
        allocatable(packed_rgb_len(width, height)),
    ensures
        pixel_width(pixels) == width,
        pixel_height(pixels) == height,
        pixel_bytes(pixels).len() == packed_rgb_len(width, height),
        forall|i: int| 0 <= i < pixel_bytes(pixels).len() ==> pixel_bytes(pixels)[i] == 0,
{
    slint::SharedPixelBuffer::<slint::Rgb8Pixel>::new(width, height)
}

/// Calls `slint::SharedPixelBuffer::make_mut_bytes`.
///
/// The slice starts out as the buffer's bytes; what is written through it is
/// what the buffer holds afterwards. The dimensions stay as they are.
#[verifier::external_body]
fn pixels_as_mut_bytes(pixels: &mut slint::SharedPixelBuffer<slint::Rgb8Pixel>) -> (bytes:
    &mut [u8])
    ensures
        bytes@ == pixel_bytes(*old(pixels)),
        pixel_bytes(*final(pixels)) == final(bytes)@,
        pixel_width(*final(pixels)) == pixel_width(*old(pixels)),
        pixel_height(*final(pixels)) == pixel_height(*old(pixels)),
{
    pixels.make_mut_bytes()
}

/// Calls `slint::SharedPixelBuffer::as_bytes`: the slice is the buffer's bytes.
#[verifier::external_body]
fn pixels_as_bytes(pixels: &slint::SharedPixelBuffer<slint::Rgb8Pixel>) -> (bytes: &[u8])
    ensures
        bytes@ == pixel_bytes(*pixels),
{
    pixels.as_bytes()
}

/// Calls `slint::SharedPixelBuffer::width`: the width the buffer was made with.
#[verifier::external_body]
fn pixels_width(pixels: &slint::SharedPixelBuffer<slint::Rgb8Pixel>) -> (width: u32)
    ensures
        width == pixel_width(*pixels),
{
    pixels.width()
}

/// Calls `slint::SharedPixelBuffer::height`: the height the buffer was made with.
#[verifier::external_body]
fn pixels_height(pixels: &slint::SharedPixelBuffer<slint::Rgb8Pixel>) -> (height: u32)
    ensures
        height == pixel_height(*pixels),
{
    pixels.height()
}

/// What a pixel buffer holds, as plain values.
pub struct PixelView {
    pub width: u32,
    pub height: u32,
    pub bytes: Seq<u8>,
}

impl PixelView {
    /// A buffer is well formed when it holds exactly three bytes per pixel.
    pub open spec fn wf(self) -> bool {
        self.bytes.len() == packed_rgb_len(self.width, self.height)
    }
}

/// An owned, contiguous block of packed RGB pixels, ready to render.
///
/// Its byte length is always `width * height * 3`.
#[derive(Debug)]
pub struct PixelBuffer {
    pixels: slint::SharedPixelBuffer<slint::Rgb8Pixel>,
}

impl View for PixelBuffer {
    type V = PixelView;

    closed spec fn view(&self) -> PixelView {
        PixelView {
            width: pixel_width(self.pixels),
            height: pixel_height(self.pixels),
            bytes: pixel_bytes(self.pixels),
        }
    }
}

impl PixelBuffer {
    #[verifier::type_invariant]
    spec fn sized_for_dimensions(self) -> bool {
        self@.wf()
    }

    /// Allocates a buffer of the given dimensions and copies `data` into it,
    /// byte for byte.
    pub(crate) fn copy_of(data: &[u8], width: u32, height: u32) -> (buffer: PixelBuffer)
        requires
            data@.len() == packed_rgb_len(width, height),
            allocatable(data@.len()),
        ensures
            buffer@ == (PixelView { width, height, bytes: data@ }),
    {
        let mut pixels = alloc_pixels(width, height);
        let bytes = pixels_as_mut_bytes(&mut pixels);
        let n: usize = data.len();
        let mut i: usize = 0;
        while i < n
            invariant
                i <= n,
                n == data@.len(),
                bytes@.len() == n,
                forall|j: int| 0 <= j < i ==> bytes@[j] == data@[j],
            decreases n - i,
        {
            bytes[i] = data[i];
            i += 1;
        }
        assert(bytes@ =~= data@);
        PixelBuffer { pixels }
    }

    /// Returns the width in pixels.
    pub fn width(&self) -> (width: u32)
        ensures
            width == self@.width,
    {
        pixels_width(&self.pixels)
    }

    /// Returns the height in pixels.
    pub fn height(&self) -> (height: u32)
        ensures
            height == self@.height,
    {
        pixels_height(&self.pixels)
    }

    /// Returns the pixels as raw bytes.
    pub fn as_bytes(&self) -> (bytes: &[u8])
        ensures
            bytes@ == self@.bytes,
            self@.wf(),
    {
        proof {
            use_type_invariant(self);
        }
        pixels_as_bytes(&self.pixels)
    }

    /// Gives the buffer up as the slint buffer that the display takes.
    pub fn into_shared(self) -> (pixels: slint::SharedPixelBuffer<slint::Rgb8Pixel>)
        ensures
            pixel_width(pixels) == self@.width,
            pixel_height(pixels) == self@.height,
            pixel_bytes(pixels) == self@.bytes,
            self@.wf(),
    {
        proof {
            use_type_invariant(&self);
        }
        self.pixels
    }
}

} // verus!

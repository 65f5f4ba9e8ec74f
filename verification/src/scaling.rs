//! The framebuffer image enlarged for display.

use image::imageops::{resize, FilterType};
use image::RgbaImage;
use vstd::prelude::*;
use crate::display::rgba_model;
use crate::machine::{Machine, HEIGHT, WIDTH};

verus! {

/// The largest factor by which the framebuffer image is enlarged.
pub const MAX_SCALE: u32 = 16;

/// The largest width or height that an image is resized to: what the
/// largest scale makes of the framebuffer's width.
pub const MAX_IMAGE_SIDE: u32 = 1024;

/// The bytes that `image::imageops::resize` with the triangle filter
/// returns for the image of `width` by `height` pixels, four bytes each,
/// that `pixels` holds, when it is asked for `new_width` by `new_height`
/// pixels.
pub uninterp spec fn triangle_resized(
    pixels: Seq<u8>,
    width: u32,
    height: u32,
    new_width: u32,
    new_height: u32,
) -> Seq<u8>;

/// Calls `image::imageops::resize` with `FilterType::Triangle` on the RGBA
/// image that `pixels` holds, and hands out the bytes of the image that
/// comes back. Not proved, but taken from that function: what it returns
/// depends on these arguments alone, and the new image has four bytes for
/// each of its `new_width` by `new_height` pixels. The image is only ever
/// enlarged, and to a bounded size: then the filter finds an old pixel
/// under every new one, and the buffers stay small.
#[verifier::external_body]
fn resize_triangle(
    pixels: Vec<u8>,
    width: u32,
    height: u32,
    new_width: u32,
    new_height: u32,
) -> (resized: Vec<u8>)
    requires
        0 < width <= new_width <= MAX_IMAGE_SIDE,
        0 < height <= new_height <= MAX_IMAGE_SIDE,
        pixels@.len() == 4 * width * height,
    ensures
        resized@ == triangle_resized(pixels@, width, height, new_width, new_height),
        resized@.len() == 4 * new_width * new_height,
{
    let image = RgbaImage::from_raw(width, height, pixels).unwrap();
    resize(&image, new_width, new_height, FilterType::Triangle).into_raw()
}

/// The framebuffer image enlarged `scale` times in each direction and
/// smoothed by the triangle filter.
pub open spec fn scaled_model(screen: Seq<Seq<u8>>, scale: u32) -> Seq<u8> {
    triangle_resized(
        rgba_model(screen),
        WIDTH as u32,
        HEIGHT as u32,
        (WIDTH * scale) as u32,
        (HEIGHT * scale) as u32,
    )
}

impl Machine {
    /// The framebuffer as the bytes of an image of `WIDTH * scale` by
    /// `HEIGHT * scale` pixels with four channels each, top scanline first:
    /// white on black, enlarged and smoothed. The scale is at least 1, and
    /// at most `MAX_SCALE` to keep the image small.
    pub fn scaled_image(&self, scale: u32) -> (data: Vec<u8>)
        requires
            1 <= scale <= MAX_SCALE,
        ensures
            data@ == scaled_model(self@.video_mem, scale),
            data@.len() == 4 * (WIDTH * scale) * (HEIGHT * scale),
    {
        let width = WIDTH as u32;
        let height = HEIGHT as u32;
        resize_triangle(self.rgba_data(), width, height, width * scale, height * scale)
    }
}

} // verus!

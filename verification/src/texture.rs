//! Luminance textures read from PNG files: the size the file decodes to and
//! how the texture's bytes reach the device.
use crate::memory::{staging_copy, Extent, StagingCopy};
use crate::primitives::Point2DI32;
use vstd::prelude::*;

verus! {

/// The width and height of the image that the image crate's PNG decoder
/// makes of `data`, or `None` where the bytes do not decode.
pub uninterp spec fn png_image_size(data: Seq<u8>) -> Option<(u32, u32)>;

/// Decodes `data` with `image::load_from_memory_with_format` as a PNG
/// file, converts the image to 8-bit luminance with `to_luma` (which keeps
/// its dimensions) and gives its width and height; `None` where the decoder
/// returns an error. The contract only names the result, a function of the
/// bytes alone; it does not say which bytes decode, nor to what size. The
/// decoder reports malformed files as errors; inputs on which it would not
/// return at all (such as a header asking for more memory than there is)
/// are not singled out.
#[verifier::external_body]
fn decode_png_size(data: &[u8]) -> (size: Option<(u32, u32)>)
    ensures
        size == png_image_size(data@),
{
    match image::load_from_memory_with_format(data, image::ImageFormat::PNG) {
        Ok(decoded) => {
            let luminance = decoded.to_luma();
            Some((luminance.width(), luminance.height()))
        },
        Err(_) => None,
    }
}

/// The layout of a `width` by `height` luminance texture: its size, and a
/// staging copy of one byte per texel, `width` bytes to a row, `height`
/// rows, into an image of that extent.
pub open spec fn luminance_layout(width: u32, height: u32) -> (Point2DI32, StagingCopy) {
    (
        Point2DI32 { x: width as i32, y: height as i32 },
        StagingCopy {
            staging_buffer_size: (width * height) as u64,
            buffer_width: width,
            buffer_height: height,
            image_extent: Extent { width, height, depth: 1 },
        },
    )
}

/// Whether a `width` by `height` texture fits the renderer's signed 32-bit
/// sizes and texel count.
pub open spec fn fits_texture(width: u32, height: u32) -> bool {
    width <= i32::MAX && height <= i32::MAX && width * height <= i32::MAX
}

/// A texture fits exactly when its width, its height and its texel count
/// are all within the signed 32-bit range; so every PNG image of such a
/// size loads.
pub proof fn lemma_fits_texture_exactly(width: u32, height: u32)
    ensures
        fits_texture(width, height) <==> (width <= 0x7fff_ffff && height <= 0x7fff_ffff && width * height
            <= 0x7fff_ffff),
{
}

/// A PNG file that decodes to a size within the signed 32-bit range loads
/// to the layout of that size: that size, and a staging copy of one byte
/// per texel, a row per line of the image, into an image of that extent.
pub proof fn lemma_fitting_png_loads(data: Seq<u8>, width: u32, height: u32)
    requires
        png_image_size(data) == Some((width, height)),
        width * height <= 0x7fff_ffff,
        width <= 0x7fff_ffff,
        height <= 0x7fff_ffff,
    ensures
        (match png_image_size(data) {
            Some((w, h)) => if fits_texture(w, h) {
                Some(luminance_layout(w, h))
            } else {
                None
            },
            None => None,
        }) == Some(luminance_layout(width, height)),
        luminance_layout(width, height).0 == (Point2DI32 { x: width as i32, y: height as i32 }),
        luminance_layout(width, height).1.staging_buffer_size == width * height,
        luminance_layout(width, height).1.buffer_width == width,
        luminance_layout(width, height).1.buffer_height == height,
        luminance_layout(width, height).1.image_extent == (Extent { width, height, depth: 1 }),
{
}

/// The layout of a decoded `width` by `height` luminance texture.
pub fn luminance_texture_layout(width: u32, height: u32) -> (layout: (Point2DI32, StagingCopy))
    requires
        fits_texture(width, height),
    ensures
        layout == luminance_layout(width, height),
{
    let size = Point2DI32 { x: width as i32, y: height as i32 };
    let copy = staging_copy(size, 1);
    (size, copy)
}

/// The layout of the luminance texture that PNG file `data` holds; `None`
/// where the bytes do not decode or the image does not fit the renderer's
/// sizes.
pub fn load_luminance_texture_layout(data: &Vec<u8>) -> (layout: Option<(Point2DI32, StagingCopy)>)
    ensures
        layout == match png_image_size(data@) {
            Some((width, height)) => if fits_texture(width, height) {
                Some(luminance_layout(width, height))
            } else {
                None
            },
            None => None,
        },
{
    match decode_png_size(data.as_slice()) {
        Some((width, height)) => {
            let (w, h) = (width as u64, height as u64);
            assert(w * h <= 0xffff_ffff * 0xffff_ffff) by (nonlinear_arith)
                requires
                    w <= 0xffff_ffff,
                    h <= 0xffff_ffff,
            ;
            if width <= 0x7fff_ffff && height <= 0x7fff_ffff && w * h <= 0x7fff_ffff {
                Some(luminance_texture_layout(width, height))
            } else {
                None
            }
        },
        None => None,
    }
}

} // verus!

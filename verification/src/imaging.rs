//! Calls into the `image` crate, and into std where vstd gives no
//! specification. Each contract below restates what the called code does,
//! as its source shows it; nothing here is proved.

use vstd::prelude::*;
use image::{imageops, ImageBuffer, Rgba};
use crate::raster::{flipped, rgba_fits};

verus! {

/// The luma that the `image` crate gives an 8-bit RGB colour: the integer
/// sRGB weighting `(2126 r + 7152 g + 722 b) / 10000`, rounded down.
pub open spec fn luma(r: u8, g: u8, b: u8) -> u8 {
    ((2126 * r + 7152 * g + 722 * b) / 10000) as u8
}

/// The luma of each of the first `pixels` RGBA pixels of `data`.
pub open spec fn luma_plane(data: Seq<u8>, pixels: int) -> Seq<u8> {
    Seq::new(pixels as nat, |p: int| luma(data[4 * p], data[4 * p + 1], data[4 * p + 2]))
}

/// `ImageBuffer::<Rgba<u8>, _>::from_raw(width, height, data)`, reduced to
/// whether it gives an image: it does exactly when the byte count
/// `4 * width * height`, computed in `usize` with checked multiplications,
/// does not overflow and is at most the buffer's length.
#[verifier::external_body]
pub(crate) fn rgba_from_raw_fits(width: u32, height: u32, data: &[u8]) -> (fits: bool)
    ensures
        fits == rgba_fits(width, height, data@.len() as int),
{
    ImageBuffer::<Rgba<u8>, &[u8]>::from_raw(width, height, data).is_some()
}

/// `imageops::flip_horizontal_in_place` on the RGBA image of `width` x
/// `height` pixels at the front of `data`: in every row, the pixels in
/// columns `x` and `width - 1 - x` trade places; bytes past the image are
/// not touched.
#[verifier::external_body]
pub(crate) fn flip_horizontal_in_place(width: u32, height: u32, data: &mut [u8])
    requires
        rgba_fits(width, height, old(data)@.len() as int),
    ensures
        final(data)@ == flipped(old(data)@, width as int, height as int, true, false),
{
    let mut img = ImageBuffer::<Rgba<u8>, &mut [u8]>::from_raw(width, height, data).unwrap();
    imageops::flip_horizontal_in_place(&mut img);
}

/// `imageops::flip_vertical_in_place` on the RGBA image of `width` x
/// `height` pixels at the front of `data`: in every column, the pixels in
/// rows `y` and `height - 1 - y` trade places; bytes past the image are not
/// touched.
#[verifier::external_body]
pub(crate) fn flip_vertical_in_place(width: u32, height: u32, data: &mut [u8])
    requires
        rgba_fits(width, height, old(data)@.len() as int),
    ensures
        final(data)@ == flipped(old(data)@, width as int, height as int, false, true),
{
    let mut img = ImageBuffer::<Rgba<u8>, &mut [u8]>::from_raw(width, height, data).unwrap();
    imageops::flip_vertical_in_place(&mut img);
}

/// `imageops::grayscale` on the RGBA image of `width` x `height` pixels at
/// the front of `data`, returned as its raw bytes: one byte per pixel, row
/// by row, holding `Pixel::to_luma` of that pixel (alpha is dropped). The
/// pixel iterator it walks panics on an image with no columns and more than
/// one row, which `requires` leaves out.
#[verifier::external_body]
pub(crate) fn grayscale_luma(width: u32, height: u32, data: &[u8]) -> (luma: Vec<u8>)
    requires
        rgba_fits(width, height, data@.len() as int),
        width == 0 ==> height <= 1,
    ensures
        luma@ == luma_plane(data@, width * height),
{
    let img = ImageBuffer::<Rgba<u8>, &[u8]>::from_raw(width, height, data).unwrap();
    imageops::grayscale(&img).into_raw()
}

/// `<[u8]>::copy_from_slice`: copies `src` over `dst`, which has the same
/// length (the std function panics otherwise).
#[verifier::external_body]
pub(crate) fn copy_from_slice(dst: &mut [u8], src: &[u8])
    requires
        old(dst)@.len() == src@.len(),
    ensures
        final(dst)@ == src@,
{
    dst.copy_from_slice(src);
}

} // verus!

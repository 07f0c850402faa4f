use vstd::prelude::*;
use vstd::string::*;
use vstd::arithmetic::div_mod::{lemma_fundamental_div_mod, lemma_fundamental_div_mod_converse};
use crate::imaging::{copy_from_slice, grayscale_luma, luma, luma_plane, rgba_from_raw_fits};
use crate::params::GrayscaleParams;
use crate::raster::{rgba_fits, rgba_len};

verus! {

/// The bytes `data` with every pixel turned gray: red, green and blue take
/// the pixel's luma, alpha is kept.
pub open spec fn grayscaled(data: Seq<u8>) -> Seq<u8> {
    Seq::new(
        data.len(),
        |i: int|
            if i % 4 == 3 {
                data[i]
            } else {
                luma(data[i - i % 4], data[i - i % 4 + 1], data[i - i % 4 + 2])
            },
    )
}

/// The message with which `grayscale` refuses a buffer too short for the
/// image.
pub open spec fn dimension_mismatch_message() -> Seq<char> {
    "width/height do not match buffer length"@
}

/// Turns the RGBA image of `width` x `height` pixels held in `data` into
/// shades of gray, in place, keeping each pixel's alpha. Fails, leaving
/// `data` as it was, where `data` is too short for the image. A buffer
/// longer than the image, and an image with no columns but several rows,
/// make the `image` crate panic; `requires` leaves them out.
pub fn grayscale(width: u32, height: u32, data: &mut [u8], _params: &GrayscaleParams) -> (res: Result<(), String>)
    requires
        old(data)@.len() <= rgba_len(width as int, height as int),
        width == 0 ==> height <= 1,
    ensures
        rgba_fits(width, height, old(data)@.len() as int) ==> res is Ok && final(data)@ == grayscaled(old(data)@),
        !rgba_fits(width, height, old(data)@.len() as int) ==> (res matches Err(msg) && msg@
            == dimension_mismatch_message() && final(data)@ == old(data)@),
{
    if !rgba_from_raw_fits(width, height, data) {
        return Err(String::from_str("width/height do not match buffer length"));
    }
    let ghost before = data@;
    let luma = grayscale_luma(width, height, data);
    assert(before.len() == 4 * luma@.len()) by (nonlinear_arith)
        requires
            before.len() == 4 * width * height,
            luma@.len() == width * height,
    ;
    let len = data.len();
    let mut out: Vec<u8> = Vec::new();
    let mut p: usize = 0;
    while p < luma.len()
        invariant
            data@ == before,
            luma@ == luma_plane(before, width * height),
            before.len() == 4 * luma@.len(),
            len == before.len(),
            p <= luma@.len(),
            out@.len() == 4 * p,
            forall|j: int| 0 <= j < 4 * p ==> out@[j] == grayscaled(before)[j],
        decreases luma@.len() - p,
    {
        let l = luma[p];
        let a = data[4 * p + 3];
        out.push(l);
        out.push(l);
        out.push(l);
        out.push(a);
        proof {
            assert forall|j: int| 0 <= j < 4 * (p + 1) implies out@[j] == grayscaled(before)[j] by {
                if j >= 4 * p {
                    lemma_fundamental_div_mod_converse(j, 4, p as int, j - 4 * p);
                }
            }
        }
        p = p + 1;
    }
    assert(out@ =~= grayscaled(before));
    copy_from_slice(data, out.as_slice());
    Ok(())
}

/// A gray colour is its own luma.
pub proof fn lemma_luma_of_gray(v: u8)
    ensures
        luma(v, v, v) == v,
{
    assert(2126 * v + 7152 * v + 722 * v == 10000 * v);
    assert((10000 * v) / 10000 == v) by (nonlinear_arith);
}

/// Whether pixel `p` of `data` is gray: equal red, green and blue.
pub open spec fn is_gray_pixel(data: Seq<u8>, p: int) -> bool {
    data[4 * p] == data[4 * p + 1] && data[4 * p + 1] == data[4 * p + 2]
}

/// An image of `pixels` pixels, all of them gray, comes out of the
/// grayscale conversion unchanged.
pub proof fn lemma_gray_image_unchanged(data: Seq<u8>, pixels: nat)
    requires
        data.len() == 4 * pixels,
        forall|p: int| 0 <= p < pixels ==> #[trigger] is_gray_pixel(data, p),
    ensures
        grayscaled(data) == data,
{
    assert forall|i: int| 0 <= i < data.len() implies #[trigger] grayscaled(data)[i] == data[i] by {
        let p = i / 4;
        lemma_fundamental_div_mod(i, 4);
        assert(is_gray_pixel(data, p));
        lemma_luma_of_gray(data[4 * p]);
    }
    assert(grayscaled(data) =~= data);
}

/// Converting to grayscale a second time changes nothing.
pub proof fn lemma_grayscale_idempotent(data: Seq<u8>, pixels: nat)
    requires
        data.len() == 4 * pixels,
    ensures
        grayscaled(grayscaled(data)) == grayscaled(data),
{
    let once = grayscaled(data);
    assert forall|p: int| 0 <= p < pixels implies #[trigger] is_gray_pixel(once, p) by {
        lemma_fundamental_div_mod_converse(4 * p, 4, p, 0);
        lemma_fundamental_div_mod_converse(4 * p + 1, 4, p, 1);
        lemma_fundamental_div_mod_converse(4 * p + 2, 4, p, 2);
    }
    lemma_gray_image_unchanged(once, pixels);
}

/// Pixel by pixel, grayscale conversion sets red, green and blue of every
/// pixel to the sRGB luma `(2126 r + 7152 g + 722 b) / 10000` of that
/// pixel's colour before, and keeps its alpha; the length does not change.
pub proof fn lemma_grayscale_pixel(data: Seq<u8>, p: int)
    requires
        0 <= p,
        4 * p + 3 < data.len(),
    ensures
        grayscaled(data).len() == data.len(),
        grayscaled(data)[4 * p] == (2126 * data[4 * p] + 7152 * data[4 * p + 1] + 722 * data[4 * p + 2]) / 10000,
        grayscaled(data)[4 * p + 1] == (2126 * data[4 * p] + 7152 * data[4 * p + 1] + 722 * data[4 * p + 2]) / 10000,
        grayscaled(data)[4 * p + 2] == (2126 * data[4 * p] + 7152 * data[4 * p + 1] + 722 * data[4 * p + 2]) / 10000,
        grayscaled(data)[4 * p + 3] == data[4 * p + 3],
{
    let r = data[4 * p];
    let g = data[4 * p + 1];
    let b = data[4 * p + 2];
    assert((2126 * r + 7152 * g + 722 * b) / 10000 <= 255) by (nonlinear_arith)
        requires
            r <= 255,
            g <= 255,
            b <= 255,
    ;
    lemma_fundamental_div_mod_converse(4 * p, 4, p, 0);
    lemma_fundamental_div_mod_converse(4 * p + 1, 4, p, 1);
    lemma_fundamental_div_mod_converse(4 * p + 2, 4, p, 2);
    lemma_fundamental_div_mod_converse(4 * p + 3, 4, p, 3);
}

/// After `grayscale` succeeds on an image of `width` x `height` pixels, every
/// one of its pixels is gray with the luma of its colour before, and keeps
/// its alpha.
pub proof fn lemma_grayscale_every_pixel(data: Seq<u8>, width: u32, height: u32)
    requires
        data.len() == rgba_len(width as int, height as int),
    ensures
        forall|p: int|
            0 <= p < width * height ==> {
                &&& #[trigger] grayscaled(data)[4 * p] == (2126 * data[4 * p] + 7152 * data[4 * p + 1] + 722
                    * data[4 * p + 2]) / 10000
                &&& grayscaled(data)[4 * p + 1] == grayscaled(data)[4 * p]
                &&& grayscaled(data)[4 * p + 2] == grayscaled(data)[4 * p]
                &&& grayscaled(data)[4 * p + 3] == data[4 * p + 3]
            },
{
    assert forall|p: int| 0 <= p < width * height implies {
        &&& #[trigger] grayscaled(data)[4 * p] == (2126 * data[4 * p] + 7152 * data[4 * p + 1] + 722
            * data[4 * p + 2]) / 10000
        &&& grayscaled(data)[4 * p + 1] == grayscaled(data)[4 * p]
        &&& grayscaled(data)[4 * p + 2] == grayscaled(data)[4 * p]
        &&& grayscaled(data)[4 * p + 3] == data[4 * p + 3]
    } by {
        assert(4 * p + 3 < data.len()) by (nonlinear_arith)
            requires
                0 <= p < width * height,
                data.len() == 4 * width * height,
        ;
        lemma_grayscale_pixel(data, p);
    }
}

} // verus!

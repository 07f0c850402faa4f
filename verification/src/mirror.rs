use vstd::prelude::*;
use crate::imaging::{flip_horizontal_in_place, flip_vertical_in_place, rgba_from_raw_fits};
use crate::params::MirrorParams;
use crate::raster::{
    byte_offset, flip_source, flipped, lemma_byte_offset_inverse, lemma_byte_decompose, lemma_flip_source_compose, lemma_flip_source_in_image,
    rgba_fits, rgba_len,
};

verus! {

/// Whether `data` holds an RGBA image of `width` x `height` pixels at its
/// front, as the `image` crate judges it.
pub fn rgba_buffer_fits(width: u32, height: u32, data: &[u8]) -> (fits: bool)
    ensures
        fits == rgba_fits(width, height, data@.len() as int),
{
    rgba_from_raw_fits(width, height, data)
}

/// Applies the mirror transform to a raw RGBA buffer in place: flips the
/// image at its front left to right where `params.horizontal` holds, then
/// top to bottom where `params.vertical` holds.
pub fn mirror(width: u32, height: u32, data: &mut [u8], params: &MirrorParams)
    requires
        rgba_fits(width, height, old(data)@.len() as int),
    ensures
        final(data)@ == flipped(old(data)@, width as int, height as int, params.horizontal, params.vertical),
{
    let ghost before = data@;
    if params.horizontal {
        flip_horizontal_in_place(width, height, data);
    } else {
        proof {
            lemma_flipped_none(before, width as int, height as int);
        }
    }
    let ghost after_first = data@;
    assert(after_first == flipped(before, width as int, height as int, params.horizontal, false));
    if params.vertical {
        flip_vertical_in_place(width, height, data);
        proof {
            lemma_flipped_compose(before, width as int, height as int, params.horizontal, false, false, true);
        }
    }
}

/// With no direction chosen, a flip leaves every byte where it is.
pub proof fn lemma_flipped_none(data: Seq<u8>, width: int, height: int)
    requires
        0 <= width,
        0 <= height,
    ensures
        flipped(data, width, height, false, false) == data,
{
    assert forall|i: int| 0 <= i < data.len() implies flip_source(i, width, height, false, false) == i by {
        if 0 <= i < rgba_len(width, height) {
            lemma_byte_decompose(i, width, height);
        }
    }
    assert(flipped(data, width, height, false, false) =~= data);
}

/// Flipping one way and then another is one flip in the directions that
/// were flipped exactly once; so flips in the two directions commute.
pub proof fn lemma_flipped_compose(
    data: Seq<u8>,
    width: int,
    height: int,
    first_h: bool,
    first_v: bool,
    second_h: bool,
    second_v: bool,
)
    requires
        0 <= width,
        0 <= height,
        rgba_len(width, height) <= data.len(),
    ensures
        flipped(flipped(data, width, height, first_h, first_v), width, height, second_h, second_v)
            == flipped(data, width, height, first_h != second_h, first_v != second_v),
{
    let once = flipped(data, width, height, first_h, first_v);
    let twice = flipped(once, width, height, second_h, second_v);
    let direct = flipped(data, width, height, first_h != second_h, first_v != second_v);
    assert forall|i: int| 0 <= i < data.len() implies twice[i] == direct[i] by {
        if 0 <= i < rgba_len(width, height) {
            lemma_flip_source_in_image(i, width, height, second_h, second_v);
        }
        lemma_flip_source_compose(i, width, height, first_h, first_v, second_h, second_v);
    }
    assert(twice =~= direct);
}

/// Mirroring twice with the same parameters gives back the before bytes.
pub proof fn lemma_mirror_twice_restores(data: Seq<u8>, width: u32, height: u32, params: MirrorParams)
    requires
        rgba_fits(width, height, data.len() as int),
    ensures
        flipped(
            flipped(data, width as int, height as int, params.horizontal, params.vertical),
            width as int,
            height as int,
            params.horizontal,
            params.vertical,
        ) == data,
{
    lemma_flipped_compose(
        data,
        width as int,
        height as int,
        params.horizontal,
        params.vertical,
        params.horizontal,
        params.vertical,
    );
    lemma_flipped_none(data, width as int, height as int);
}

/// Pixel by pixel, a horizontal flip swaps columns, a vertical flip swaps
/// rows, and both together turn the image by 180 degrees: the pixel at
/// column `x`, row `y` of the result is the one at the mirrored column and
/// row of the before. Bytes past the image keep their value.
pub proof fn lemma_flipped_pixels(
    data: Seq<u8>,
    width: u32,
    height: u32,
    horizontal: bool,
    vertical: bool,
    x: int,
    y: int,
    c: int,
)
    requires
        rgba_fits(width, height, data.len() as int),
        0 <= x < width,
        0 <= y < height,
        0 <= c < 4,
    ensures
        flipped(data, width as int, height as int, horizontal, vertical)[byte_offset(width as int, x, y, c)]
            == data[byte_offset(
            width as int,
            if horizontal { width - 1 - x } else { x },
            if vertical { height - 1 - y } else { y },
            c,
        )],
        forall|i: int|
            rgba_len(width as int, height as int) <= i < data.len() ==> #[trigger] flipped(
                data,
                width as int,
                height as int,
                horizontal,
                vertical,
            )[i] == data[i],
{
    lemma_byte_offset_inverse(width as int, height as int, x, y, c);
}

} // verus!

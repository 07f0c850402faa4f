use vstd::prelude::*;
use vstd::arithmetic::div_mod::{lemma_fundamental_div_mod, lemma_fundamental_div_mod_converse};

verus! {

// An RGBA image of `width` x `height` pixels is held row by row, four bytes
// (red, green, blue, alpha) per pixel, at the front of a byte buffer; bytes
// past the image belong to no pixel.

/// The number of bytes of an RGBA image of `width` x `height` pixels.
pub open spec fn rgba_len(width: int, height: int) -> int {
    4 * width * height
}

/// Whether the `image` crate accepts a buffer of `len` bytes for an RGBA
/// image of `width` x `height` pixels: the byte count is computed in `usize`
/// without overflow and the buffer is at least that long.
pub open spec fn rgba_fits(width: u32, height: u32, len: int) -> bool {
    &&& 4 * width <= usize::MAX
    &&& rgba_len(width as int, height as int) <= usize::MAX
    &&& rgba_len(width as int, height as int) <= len
}

/// The offset of channel `c` of the pixel in column `x` and row `y`.
pub open spec fn byte_offset(width: int, x: int, y: int, c: int) -> int {
    (y * width + x) * 4 + c
}

/// The column of the pixel that byte `i` belongs to.
pub open spec fn column_of(i: int, width: int) -> int {
    (i / 4) % width
}

/// The row of the pixel that byte `i` belongs to.
pub open spec fn row_of(i: int, width: int) -> int {
    (i / 4) / width
}

/// The byte that lands at offset `i` when the image is flipped: left to
/// right where `horizontal` holds, top to bottom where `vertical` holds.
/// Bytes past the image stay where they are.
pub open spec fn flip_source(i: int, width: int, height: int, horizontal: bool, vertical: bool) -> int {
    if 0 <= i < rgba_len(width, height) {
        let x = column_of(i, width);
        let y = row_of(i, width);
        byte_offset(
            width,
            if horizontal { width - 1 - x } else { x },
            if vertical { height - 1 - y } else { y },
            i % 4,
        )
    } else {
        i
    }
}

/// The bytes `data` after the image at their front is flipped.
pub open spec fn flipped(data: Seq<u8>, width: int, height: int, horizontal: bool, vertical: bool) -> Seq<u8> {
    Seq::new(data.len(), |i: int| data[flip_source(i, width, height, horizontal, vertical)])
}

/// A pixel position inside the image and a channel give a byte of the image,
/// from which position and channel are read back.
pub proof fn lemma_byte_offset_inverse(width: int, height: int, x: int, y: int, c: int)
    requires
        0 <= x < width,
        0 <= y < height,
        0 <= c < 4,
    ensures
        0 <= byte_offset(width, x, y, c) < rgba_len(width, height),
        byte_offset(width, x, y, c) % 4 == c,
        column_of(byte_offset(width, x, y, c), width) == x,
        row_of(byte_offset(width, x, y, c), width) == y,
{
    let p = y * width + x;
    let j = byte_offset(width, x, y, c);
    assert(0 <= p < width * height) by (nonlinear_arith)
        requires
            p == y * width + x,
            0 <= x < width,
            0 <= y < height,
    ;
    assert(j == p * 4 + c);
    lemma_fundamental_div_mod_converse(j, 4, p, c);
    lemma_fundamental_div_mod_converse(p, width, y, x);
    assert(rgba_len(width, height) == 4 * (width * height)) by (nonlinear_arith);
}

/// Every byte of the image belongs to a pixel inside the image.
pub proof fn lemma_byte_decompose(i: int, width: int, height: int)
    requires
        0 <= i < rgba_len(width, height),
        0 <= width,
        0 <= height,
    ensures
        0 < width,
        0 <= column_of(i, width) < width,
        0 <= row_of(i, width) < height,
        0 <= i % 4 < 4,
        i == byte_offset(width, column_of(i, width), row_of(i, width), i % 4),
{
    assert(rgba_len(width, height) == 4 * (width * height)) by (nonlinear_arith);
    assert(width != 0) by (nonlinear_arith)
        requires
            0 <= i < 4 * (width * height),
    ;
    let p = i / 4;
    lemma_fundamental_div_mod(i, 4);
    assert(0 <= p < width * height);
    lemma_fundamental_div_mod(p, width);
    let x = p % width;
    let y = p / width;
    assert(0 <= y < height) by (nonlinear_arith)
        requires
            p == width * y + x,
            0 <= x < width,
            0 <= p < width * height,
    ;
    assert(p == y * width + x) by (nonlinear_arith)
        requires
            p == width * y + x,
    ;
}

/// A flip takes every byte of the image from a byte of the image.
pub proof fn lemma_flip_source_in_image(i: int, width: int, height: int, horizontal: bool, vertical: bool)
    requires
        0 <= i < rgba_len(width, height),
        0 <= width,
        0 <= height,
    ensures
        0 <= flip_source(i, width, height, horizontal, vertical) < rgba_len(width, height),
        flip_source(i, width, height, horizontal, vertical) % 4 == i % 4,
        column_of(flip_source(i, width, height, horizontal, vertical), width) == (if horizontal {
            width - 1 - column_of(i, width)
        } else {
            column_of(i, width)
        }),
        row_of(flip_source(i, width, height, horizontal, vertical), width) == (if vertical {
            height - 1 - row_of(i, width)
        } else {
            row_of(i, width)
        }),
{
    lemma_byte_decompose(i, width, height);
    let x = column_of(i, width);
    let y = row_of(i, width);
    lemma_byte_offset_inverse(
        width,
        height,
        if horizontal { width - 1 - x } else { x },
        if vertical { height - 1 - y } else { y },
        i % 4,
    );
}

/// Flipping one way and then another moves each byte as one flip does: the
/// directions that were flipped exactly once.
pub proof fn lemma_flip_source_compose(
    i: int,
    width: int,
    height: int,
    first_h: bool,
    first_v: bool,
    second_h: bool,
    second_v: bool,
)
    requires
        0 <= width,
        0 <= height,
    ensures
        flip_source(flip_source(i, width, height, second_h, second_v), width, height, first_h, first_v)
            == flip_source(i, width, height, first_h != second_h, first_v != second_v),
{
    if 0 <= i < rgba_len(width, height) {
        lemma_byte_decompose(i, width, height);
        lemma_flip_source_in_image(i, width, height, second_h, second_v);
    }
}

} // verus!

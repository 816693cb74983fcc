//! The size of an image's pixel store, and the copy that is taken of it.

use vstd::prelude::*;
use vstd::slice::slice_subrange;
use vstd::slice::slice_to_vec;
use crate::depth::ColorDepth;

verus! {

/// The bytes that an image of `data_w` by `data_h` pixels occupies at the
/// given depth: rows follow one another without padding.
pub open spec fn pixel_bytes(data_w: int, data_h: int, depth: ColorDepth) -> int {
    data_w * data_h * depth.bytes()
}

/// The product of two 32-bit numbers and a depth stays far inside 128 bits.
proof fn pixel_bytes_bounded(data_w: i32, data_h: i32, depth: ColorDepth)
    ensures
        -0x1_0000_0000_0000_0000 <= data_w * data_h <= 0x1_0000_0000_0000_0000,
        -0x4_0000_0000_0000_0000 <= pixel_bytes(data_w as int, data_h as int, depth)
            <= 0x4_0000_0000_0000_0000,
{
    let w = data_w as int;
    let h = data_h as int;
    assert(-0x1_0000_0000_0000_0000 <= w * h <= 0x1_0000_0000_0000_0000) by (nonlinear_arith)
        requires
            -0x8000_0000 <= w <= 0x8000_0000,
            -0x8000_0000 <= h <= 0x8000_0000,
    ;
    let b = depth.bytes();
    let p = w * h;
    assert(-0x4_0000_0000_0000_0000 <= p * b <= 0x4_0000_0000_0000_0000) by (nonlinear_arith)
        requires
            -0x1_0000_0000_0000_0000 <= p <= 0x1_0000_0000_0000_0000,
            1 <= b <= 4,
    ;
}

/// The size in bytes of an image's pixel store, where that is a size: `None`
/// where the product is negative or does not fit a `usize`.
pub fn byte_count(data_w: i32, data_h: i32, depth: ColorDepth) -> (count: Option<usize>)
    ensures
        count is Some <==> 0 <= pixel_bytes(data_w as int, data_h as int, depth) <= usize::MAX,
        count matches Some(n) ==> n == pixel_bytes(data_w as int, data_h as int, depth),
{
    proof {
        pixel_bytes_bounded(data_w, data_h, depth);
    }
    let area: i128 = (data_w as i128) * (data_h as i128);
    let bytes: i128 = area * (depth.to_u8() as i128);
    if bytes < 0 || bytes > usize::MAX as i128 {
        None
    } else {
        Some(bytes as usize)
    }
}

/// Copies an image's pixels out of the store that the toolkit holds them in.
///
/// `store` is the toolkit's buffer, which may run on past the image. The copy
/// holds the first `data_w * data_h * depth` bytes of it, no more.
pub fn copy_pixels(data_w: i32, data_h: i32, depth: ColorDepth, store: &[u8]) -> (data: Vec<u8>)
    requires
        0 <= pixel_bytes(data_w as int, data_h as int, depth) <= store@.len(),
    ensures
        data@ == store@.subrange(0, pixel_bytes(data_w as int, data_h as int, depth)),
        data@.len() == pixel_bytes(data_w as int, data_h as int, depth),
{
    // A slice is no longer than `usize::MAX`, so the size is one.
    assert(store@.len() == store.len());
    let n = byte_count(data_w, data_h, depth).unwrap();
    slice_to_vec(slice_subrange(store, 0, n))
}

} // verus!

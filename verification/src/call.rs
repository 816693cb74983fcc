//! The calls that the library asks its caller to make into the toolkit.

use vstd::prelude::*;

verus! {

/// An entry point of the toolkit's image interface, with the arguments that
/// follow the image handle. Sizes, positions and flags are 32-bit integers, as
/// the toolkit takes them.
#[derive(Clone, Copy, Debug, PartialEq, Eq, Structural)]
pub enum Operation {
    /// Allocate an independent copy of the image; answers with its handle.
    Copy,
    /// Draw the image at `(x, y)` into a box of `w` by `h`.
    Draw { x: i32, y: i32, w: i32, h: i32 },
    /// Draw as `Draw` does, starting at the offset `(cx, cy)` inside the image.
    DrawExt { x: i32, y: i32, w: i32, h: i32, cx: i32, cy: i32 },
    /// Answers with the width at which the image is drawn.
    Width,
    /// Answers with the height at which the image is drawn.
    Height,
    /// Answers with the address of the image's pixel store.
    Data,
    /// Answers with the number of frames.
    Count,
    /// Answers with the width of the pixel store.
    DataW,
    /// Answers with the height of the pixel store.
    DataH,
    /// Answers with the bytes per pixel.
    Depth,
    /// Answers with the row stride of the pixel store.
    Ld,
    /// Set the size at which the image is drawn; the flags are 0 or 1.
    Scale { width: i32, height: i32, proportional: i32, can_expand: i32 },
    /// Turn the image into its greyed-out form.
    Inactive,
    /// Release the image.
    Delete,
}

/// One call into the toolkit: the image it is made on and what it does.
#[derive(Clone, Copy, Debug, PartialEq, Eq, Structural)]
pub struct NativeCall {
    /// The handle of the image. The library hands out no call on a null
    /// handle.
    pub image: usize,
    /// The entry point and its remaining arguments.
    pub op: Operation,
}

/// How the toolkit takes a flag: 1 for set, 0 for clear.
pub open spec fn flag(set: bool) -> i32 {
    if set {
        1i32
    } else {
        0i32
    }
}

/// Writes a flag as the integer that the toolkit takes.
pub fn flag_to_int(set: bool) -> (value: i32)
    ensures
        value == flag(set),
{
    if set {
        1
    } else {
        0
    }
}

} // verus!

//! The canonical pixel image: one frame, rows without padding.

use vstd::prelude::*;
use vstd::slice::slice_to_vec;
use crate::depth::ColorDepth;
use crate::pixels::pixel_bytes;

verus! {

/// An [`RgbImage`] as a mathematical object.
pub struct RgbView {
    /// The pixels, row after row.
    pub data: Seq<u8>,
    /// The pixels in a row.
    pub width: int,
    /// The rows.
    pub height: int,
    /// The bytes of a pixel.
    pub depth: ColorDepth,
}

impl RgbView {
    /// The pixel store has exactly the size that the dimensions and the depth
    /// give.
    pub open spec fn valid(self) -> bool {
        self.data.len() == pixel_bytes(self.width, self.height, self.depth)
    }
}

/// A single frame of pixels with its dimensions, owned by the caller and
/// independent of the toolkit.
#[derive(Debug)]
pub struct RgbImage {
    data: Vec<u8>,
    width: i32,
    height: i32,
    depth: ColorDepth,
}

impl View for RgbImage {
    type V = RgbView;

    closed spec fn view(&self) -> RgbView {
        RgbView {
            data: self.data@,
            width: self.width as int,
            height: self.height as int,
            depth: self.depth,
        }
    }
}

impl RgbImage {
    /// Holds of every image: see [`RgbView::valid`].
    #[verifier::type_invariant]
    pub open spec fn wf(self) -> bool {
        self@.valid()
    }

    /// Makes an image of `w` by `h` pixels from a copy of `data`, which holds
    /// exactly those pixels.
    pub fn new(data: &[u8], w: i32, h: i32, depth: ColorDepth) -> (image: RgbImage)
        requires
            data@.len() == pixel_bytes(w as int, h as int, depth),
        ensures
            image@ == (RgbView { data: data@, width: w as int, height: h as int, depth }),
            image@.valid(),
    {
        RgbImage { data: slice_to_vec(data), width: w, height: h, depth }
    }

    /// The pixels, row after row.
    pub fn data(&self) -> (data: &Vec<u8>)
        ensures
            data@ == self@.data,
            data@.len() == pixel_bytes(self@.width, self@.height, self@.depth),
    {
        proof {
            use_type_invariant(self);
        }
        &self.data
    }

    /// The pixels in a row.
    pub fn width(&self) -> (width: i32)
        ensures
            width == self@.width,
    {
        self.width
    }

    /// The rows.
    pub fn height(&self) -> (height: i32)
        ensures
            height == self@.height,
    {
        self.height
    }

    /// The bytes of a pixel.
    pub fn depth(&self) -> (depth: ColorDepth)
        ensures
            depth == self@.depth,
    {
        self.depth
    }
}

} // verus!

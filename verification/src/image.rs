//! The wrapper around an image handle and the operations on it.
//!
//! Every operation on the image requires a live wrapper. Those that need the
//! toolkit return the call to perform; the caller performs it and, where the
//! call answers with something, hands the answer to the function that works
//! on it.

use vstd::prelude::*;
use vstd::std_specs::cmp::PartialEqSpecImpl;
use crate::call::flag;
use crate::call::flag_to_int;
use crate::call::NativeCall;
use crate::call::Operation;
use crate::depth::ColorDepth;
use crate::error::FltkError;
use crate::error::FltkErrorKind;
use crate::pixels::copy_pixels;
use crate::pixels::pixel_bytes;
use crate::refcount::RefCount;
use crate::rgb::RgbImage;
use crate::rgb::RgbView;
use crate::state::Handle;
use crate::state::Shared;

verus! {

/// A wrapper around an image that the toolkit owns.
///
/// It holds the handle. The count of the wrappers that share the image is a
/// [`RefCount`], made with the first wrapper. A wrapper is not `Clone`: a
/// second wrapper for the same image is made by [`Image::clone`], which
/// counts it.
#[derive(Debug)]
pub struct Image {
    inner: Handle,
}

impl View for Image {
    type V = Handle;

    closed spec fn view(&self) -> Handle {
        self.inner
    }
}

impl Image {
    /// Holds of every wrapper: see [`Handle::valid`].
    #[verifier::type_invariant]
    pub open spec fn wf(self) -> bool {
        self@.valid()
    }

    /// Wraps a handle that came from the toolkit. The wrapper is live, and
    /// with it comes the count of the image, which stands at one. A null
    /// handle is not wrapped.
    pub fn from_image_ptr(ptr: usize) -> (wrapped: (Image, RefCount))
        requires
            ptr != 0,
        ensures
            wrapped.0@ == Handle::Live(ptr),
            wrapped.1@ == Shared::first(ptr),
            wrapped.1@.counts(wrapped.0@),
    {
        (Image { inner: Handle::Live(ptr) }, RefCount::first(ptr))
    }

    /// Whether the image was released through this wrapper. This is the one
    /// question that a deleted wrapper still answers about its image.
    pub fn was_deleted(&self) -> (deleted: bool)
        ensures
            deleted == !self@.live(),
    {
        match self.inner {
            Handle::Live(_) => false,
            Handle::Deleted => true,
        }
    }

    /// The handle of a live wrapper.
    pub fn as_image_ptr(&self) -> (ptr: usize)
        requires
            self@.live(),
        ensures
            ptr == self@.ptr(),
            ptr != 0,
    {
        proof {
            use_type_invariant(self);
        }
        match self.inner {
            Handle::Live(ptr) => ptr,
            Handle::Deleted => 0,
        }
    }

    /// The call that performs `op` on the image of a live wrapper.
    fn request(&self, op: Operation) -> (call: NativeCall)
        requires
            self@.live(),
        ensures
            call == self@.call(op),
            call.image != 0,
    {
        NativeCall { image: self.as_image_ptr(), op }
    }

    /// Makes a second wrapper for the same image and counts it: the shared
    /// count goes up by exactly one.
    pub fn clone(&self, count: &mut RefCount) -> (twin: Image)
        requires
            old(count)@.counts(self@),
            old(count)@.count < usize::MAX,
        ensures
            twin@ == self@,
            final(count)@ == old(count)@.raised(),
            final(count)@.counts(twin@),
    {
        proof {
            use_type_invariant(self);
        }
        count.raise();
        Image { inner: self.inner }
    }

    /// Asks for an independent copy of the image. The toolkit answers with the
    /// handle of the copy, which [`Image::from_image_ptr`] wraps and counts
    /// from one; this wrapper and the count of its image stay as they are.
    pub fn copy(&self) -> (call: NativeCall)
        requires
            self@.live(),
        ensures
            call == self@.call(Operation::Copy),
    {
        self.request(Operation::Copy)
    }

    /// Draws the image at `(x, y)` into a box of `w` by `h`.
    pub fn draw(&mut self, x: i32, y: i32, w: i32, h: i32) -> (call: NativeCall)
        requires
            old(self)@.live(),
        ensures
            call == old(self)@.call((Operation::Draw { x, y, w, h })),
            final(self)@ == old(self)@,
    {
        self.request(Operation::Draw { x, y, w, h })
    }

    /// Draws the image at `(x, y)` into a box of `w` by `h`, starting at the
    /// offset `(cx, cy)` inside the image.
    pub fn draw_ext(&mut self, x: i32, y: i32, w: i32, h: i32, cx: i32, cy: i32) -> (call:
        NativeCall)
        requires
            old(self)@.live(),
        ensures
            call == old(self)@.call((Operation::DrawExt { x, y, w, h, cx, cy })),
            final(self)@ == old(self)@,
    {
        self.request(Operation::DrawExt { x, y, w, h, cx, cy })
    }

    /// Asks for the width at which the image is drawn.
    pub fn width(&self) -> (call: NativeCall)
        requires
            self@.live(),
        ensures
            call == self@.call(Operation::Width),
    {
        self.request(Operation::Width)
    }

    /// Asks for the height at which the image is drawn.
    pub fn height(&self) -> (call: NativeCall)
        requires
            self@.live(),
        ensures
            call == self@.call(Operation::Height),
    {
        self.request(Operation::Height)
    }

    /// Short for [`Image::width`].
    pub fn w(&self) -> (call: NativeCall)
        requires
            self@.live(),
        ensures
            call == self@.call(Operation::Width),
    {
        self.request(Operation::Width)
    }

    /// Short for [`Image::height`].
    pub fn h(&self) -> (call: NativeCall)
        requires
            self@.live(),
        ensures
            call == self@.call(Operation::Height),
    {
        self.request(Operation::Height)
    }

    /// Asks for the address of the pixel store.
    pub fn to_raw_data(&self) -> (call: NativeCall)
        requires
            self@.live(),
        ensures
            call == self@.call(Operation::Data),
    {
        self.request(Operation::Data)
    }

    /// Asks for the number of frames.
    pub fn count(&self) -> (call: NativeCall)
        requires
            self@.live(),
        ensures
            call == self@.call(Operation::Count),
    {
        self.request(Operation::Count)
    }

    /// Asks for the width of the pixel store.
    pub fn data_w(&self) -> (call: NativeCall)
        requires
            self@.live(),
        ensures
            call == self@.call(Operation::DataW),
    {
        self.request(Operation::DataW)
    }

    /// Asks for the height of the pixel store.
    pub fn data_h(&self) -> (call: NativeCall)
        requires
            self@.live(),
        ensures
            call == self@.call(Operation::DataH),
    {
        self.request(Operation::DataH)
    }

    /// Asks for the bytes per pixel. [`ColorDepth::from_u8`] reads the answer.
    pub fn depth(&self) -> (call: NativeCall)
        requires
            self@.live(),
        ensures
            call == self@.call(Operation::Depth),
    {
        self.request(Operation::Depth)
    }

    /// Asks for the row stride of the pixel store.
    pub fn ld(&self) -> (call: NativeCall)
        requires
            self@.live(),
        ensures
            call == self@.call(Operation::Ld),
    {
        self.request(Operation::Ld)
    }

    /// Sets the size at which the image is drawn. The resizing is the
    /// toolkit's; the flags reach it as 0 or 1.
    pub fn scale(&mut self, width: i32, height: i32, proportional: bool, can_expand: bool) -> (call:
        NativeCall)
        requires
            old(self)@.live(),
        ensures
            call == old(self)@.call(
                (Operation::Scale {
                    width,
                    height,
                    proportional: flag(proportional),
                    can_expand: flag(can_expand),
                }),
            ),
            final(self)@ == old(self)@,
    {
        let op = Operation::Scale {
            width,
            height,
            proportional: flag_to_int(proportional),
            can_expand: flag_to_int(can_expand),
        };
        self.request(op)
    }

    /// Turns the image into its greyed-out form.
    pub fn inactive(&mut self) -> (call: NativeCall)
        requires
            old(self)@.live(),
        ensures
            call == old(self)@.call(Operation::Inactive),
            final(self)@ == old(self)@,
    {
        self.request(Operation::Inactive)
    }

    /// Copies the image's pixels out of the toolkit's store.
    ///
    /// `data_w`, `data_h` and `depth` are what the toolkit reports of the
    /// image, and `store` is the buffer behind the address that it gives for
    /// the pixels. The copy holds `data_w * data_h * depth` bytes, the first
    /// of the store.
    pub fn to_rgb_data(&self, data_w: i32, data_h: i32, depth: ColorDepth, store: &[u8]) -> (data:
        Vec<u8>)
        requires
            self@.live(),
            0 <= pixel_bytes(data_w as int, data_h as int, depth) <= store@.len(),
        ensures
            data@ == store@.subrange(0, pixel_bytes(data_w as int, data_h as int, depth)),
            data@.len() == pixel_bytes(data_w as int, data_h as int, depth),
    {
        copy_pixels(data_w, data_h, depth, store)
    }

    /// Converts the image to the canonical pixel image.
    ///
    /// `frames` is the number of frames that the toolkit reports. Only an
    /// image of exactly one frame converts; any other count gives the image
    /// format error, and the store is not looked at. The wrapper is left as it
    /// is either way.
    pub fn to_rgb(&self, frames: i32, data_w: i32, data_h: i32, depth: ColorDepth, store: &[u8]) -> (
        result: Result<RgbImage, FltkError>)
        requires
            self@.live(),
            frames == 1 ==> 0 <= pixel_bytes(data_w as int, data_h as int, depth) <= store@.len(),
        ensures
            result is Ok <==> frames == 1,
            result matches Err(error) ==> error == FltkError::Internal(
                FltkErrorKind::ImageFormatError,
            ),
            result matches Ok(image) ==> image@ == (RgbView {
                data: store@.subrange(0, pixel_bytes(data_w as int, data_h as int, depth)),
                width: data_w as int,
                height: data_h as int,
                depth,
            }),
    {
        if frames != 1 {
            Err(FltkError::Internal(FltkErrorKind::ImageFormatError))
        } else {
            let data = self.to_rgb_data(data_w, data_h, depth, store);
            Ok(RgbImage::new(data.as_slice(), data_w, data_h, depth))
        }
    }

    /// Releases the image at once, whatever its count, which is left as it
    /// is. The wrapper is deleted from here on. The caller sees to it that no
    /// other wrapper still uses the image.
    pub fn delete(&mut self) -> (call: NativeCall)
        requires
            old(self)@.live(),
        ensures
            call == old(self)@.call(Operation::Delete),
            final(self)@ == Handle::Deleted,
    {
        let call = self.request(Operation::Delete);
        self.inner = Handle::Deleted;
        call
    }

    /// Counts one more user of the image, for a widget that keeps it.
    pub fn increment_arc(&mut self, count: &mut RefCount)
        requires
            old(count)@.counts(old(self)@),
            old(count)@.count < usize::MAX,
        ensures
            final(self)@ == old(self)@,
            final(count)@ == old(count)@.raised(),
    {
        count.raise();
    }

    /// Counts one user of the image less. The count stays above zero: the
    /// image outlives the widget that gives it back.
    pub fn decrement_arc(&mut self, count: &mut RefCount)
        requires
            old(count)@.counts(old(self)@),
            old(count)@.count >= 2,
        ensures
            final(self)@ == old(self)@,
            final(count)@ == old(count)@.lowered(),
            final(count)@.counts(final(self)@),
    {
        count.lower();
    }

    /// Ends the wrapper's life. A live wrapper gives up its share of the
    /// image: the count goes down by one, and if that leaves zero, the image
    /// is to be released. A deleted wrapper has nothing left to give up, and
    /// the count stays as it is.
    pub fn release(self, count: &mut RefCount) -> (call: Option<NativeCall>)
        requires
            self@.live() ==> old(count)@.counts(self@),
        ensures
            call == old(count)@.last_call(self@),
            call is Some <==> self@.live() && final(count)@.count == 0,
            self@.live() ==> final(count)@ == old(count)@.lowered(),
            !self@.live() ==> final(count)@ == old(count)@,
    {
        match self.inner {
            Handle::Live(ptr) => {
                count.lower();
                if count.get() < 1 {
                    Some(NativeCall { image: ptr, op: Operation::Delete })
                } else {
                    None
                }
            },
            Handle::Deleted => None,
        }
    }

    /// Turns the wrapper into a fresh one for the same image, as if the
    /// handle had just come from the toolkit: with a count of its own, which
    /// stands at one.
    pub fn into_image(self) -> (wrapped: (Image, RefCount))
        requires
            self@.live(),
        ensures
            wrapped.0@ == self@,
            wrapped.1@ == Shared::first(self@.ptr()),
            wrapped.1@.counts(wrapped.0@),
    {
        Image::from_image_ptr(self.as_image_ptr())
    }
}

impl PartialEq for Image {
    /// Two wrappers are equal when they hold the same handle.
    fn eq(&self, other: &Self) -> (equal: bool) {
        self.inner == other.inner
    }
}

impl PartialEqSpecImpl for Image {
    open spec fn obeys_eq_spec() -> bool {
        true
    }

    open spec fn eq_spec(&self, other: &Self) -> bool {
        self@ == other@
    }
}

impl Eq for Image {

}

} // verus!

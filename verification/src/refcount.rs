//! The count of the wrappers that share one image.

use vstd::prelude::*;
use crate::state::Shared;

verus! {

/// The number of wrappers that share an image.
///
/// There is one count for each image that was wrapped, made together with
/// the first wrapper. Whoever holds the wrappers of an image holds its count
/// and passes it to the steps that change it: this is how the wrappers share
/// it.
#[derive(Debug)]
pub struct RefCount {
    image: usize,
    count: usize,
}

impl View for RefCount {
    type V = Shared;

    closed spec fn view(&self) -> Shared {
        Shared { image: self.image, count: self.count as nat }
    }
}

impl RefCount {
    /// The count of an image that has just been wrapped.
    pub(crate) fn first(image: usize) -> (count: RefCount)
        ensures
            count@ == Shared::first(image),
    {
        RefCount { image, count: 1 }
    }

    /// The number of wrappers that share the image.
    pub fn get(&self) -> (count: usize)
        ensures
            count == self@.count,
    {
        self.count
    }

    /// The address of the image that is counted.
    pub fn image(&self) -> (image: usize)
        ensures
            image == self@.image,
    {
        self.image
    }

    /// One more wrapper shares the image.
    pub(crate) fn raise(&mut self)
        requires
            old(self)@.count < usize::MAX,
        ensures
            final(self)@ == old(self)@.raised(),
    {
        self.count = self.count + 1;
    }

    /// One wrapper less shares the image.
    pub(crate) fn lower(&mut self)
        requires
            old(self)@.count >= 1,
        ensures
            final(self)@ == old(self)@.lowered(),
    {
        self.count = self.count - 1;
    }
}

} // verus!

//! The life of an image's wrappers as mathematical objects: what a wrapper
//! and the count of its image are at an instant, the steps that lead from one
//! instant to the next, and what holds of them.

use vstd::prelude::*;
use crate::call::NativeCall;
use crate::call::Operation;

verus! {

/// What a wrapper holds of its image. A wrapper starts out live and may become
/// deleted; nothing leads back.
#[derive(Clone, Copy, Debug, PartialEq, Eq, Structural)]
pub enum Handle {
    /// The address of an image that the toolkit keeps alive.
    Live(usize),
    /// The image was released through this wrapper.
    Deleted,
}

impl Handle {
    /// What every wrapper's handle satisfies: a live handle is not null.
    pub open spec fn valid(self) -> bool {
        self matches Handle::Live(ptr) ==> ptr != 0
    }

    /// The wrapper still has its image. This is the precondition of every
    /// operation on the image.
    pub open spec fn live(self) -> bool {
        self is Live
    }

    /// The address of the image of a live wrapper.
    pub open spec fn ptr(self) -> usize
        recommends
            self.live(),
    {
        match self {
            Handle::Live(ptr) => ptr,
            Handle::Deleted => 0,
        }
    }

    /// The call that performs `op` on the wrapper's image.
    pub open spec fn call(self, op: Operation) -> NativeCall
        recommends
            self.live(),
    {
        NativeCall { image: self.ptr(), op }
    }
}

/// The count of an image at an instant: how many wrappers share the image at
/// the address `image`.
pub struct Shared {
    /// The address of the image that is counted.
    pub image: usize,
    /// The wrappers that share it.
    pub count: nat,
}

impl Shared {
    /// The count of an image that has just been wrapped: one.
    pub open spec fn first(image: usize) -> Shared {
        Shared { image, count: 1 }
    }

    /// This is the count of the wrapper's image, and the wrapper is among
    /// those counted. Every step that changes the count starts from here.
    pub open spec fn counts(self, wrapper: Handle) -> bool {
        wrapper.live() && self.image == wrapper.ptr() && self.count >= 1
    }

    /// The count after one more wrapper has come to share the image.
    pub open spec fn raised(self) -> Shared {
        Shared { image: self.image, count: self.count + 1 }
    }

    /// The count after one of the wrappers has gone.
    pub open spec fn lowered(self) -> Shared {
        Shared { image: self.image, count: (self.count - 1) as nat }
    }

    /// What the end of a wrapper's life asks of the toolkit: nothing while
    /// another wrapper still counts the image, its release when the last one
    /// goes. A deleted wrapper has nothing to release.
    pub open spec fn last_call(self, wrapper: Handle) -> Option<NativeCall> {
        if wrapper.live() && self.count <= 1 {
            Some(wrapper.call(Operation::Delete))
        } else {
            None
        }
    }
}

/// After an explicit deletion a wrapper is not live, whatever it was before:
/// the precondition of every operation on the image fails on it, no count
/// counts it, and its end releases nothing. It stays a valid wrapper, which
/// can still be asked whether it was deleted.
pub proof fn deleted_is_not_live(count: Shared)
    ensures
        !Handle::Deleted.live(),
        Handle::Deleted.valid(),
        !count.counts(Handle::Deleted),
        count.last_call(Handle::Deleted) is None,
{
}

/// Cloning a live wrapper raises the shared count by exactly one and leaves
/// the image as it is. The clone holds the handle of the source, so each
/// operation makes the same call through either, and the toolkit's answer to
/// one is its answer to the other. The raised count counts both.
pub proof fn clone_shares_image(source: Handle, clone: Handle, count: Shared, op: Operation)
    requires
        source.valid(),
        count.counts(source),
        clone == source,
    ensures
        count.raised().count == count.count + 1,
        count.raised().image == count.image,
        count.raised().counts(source),
        count.raised().counts(clone),
        clone.call(op) == source.call(op),
{
}

/// A deep copy is counted on its own and from one: the count of the copy does
/// not depend on the count of the source, and a step of either count leaves
/// the other as it was.
pub proof fn copy_counts_from_one(source: Handle, count: Shared, copy: usize)
    requires
        source.valid(),
        count.counts(source),
        copy != 0,
    ensures
        Handle::Live(copy).valid(),
        Shared::first(copy).counts(Handle::Live(copy)),
        Shared::first(copy).count == 1,
        Shared::first(copy).image == copy,
        copy != source.ptr() ==> !count.counts(Handle::Live(copy)) && !Shared::first(copy).counts(
            source,
        ),
{
}

/// Raising the count and lowering it again changes nothing.
pub proof fn lowering_undoes_raising(count: Shared)
    ensures
        count.raised().lowered() == count,
{
}

/// The image is released exactly once, when its count goes from one to zero.
/// While more than one wrapper counts it, the end of a wrapper releases
/// nothing and leaves a count that counts the others. The end of the last one
/// releases the image and leaves a count of zero, from which no further step
/// starts.
pub proof fn released_exactly_once(wrapper: Handle, other: Handle, count: Shared)
    requires
        wrapper.valid(),
        count.counts(wrapper),
    ensures
        count.last_call(wrapper) is Some <==> count.count == 1,
        count.last_call(wrapper) is Some <==> count.lowered().count == 0,
        count.last_call(wrapper) matches Some(call) ==> call == (NativeCall {
            image: count.image,
            op: Operation::Delete,
        }) && call.image != 0,
        count.lowered().count > 0 && other == wrapper ==> count.lowered().counts(other),
        count.lowered().count == 0 ==> !count.lowered().counts(other),
{
}

} // verus!

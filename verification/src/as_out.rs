//! Making a handle from the storage itself.

use crate::out::{Out, Place, Pointee};
use crate::storage::{Uninit, UninitSlice};
use vstd::prelude::*;

verus! {

/// Storage that can hand out a write-only handle to itself.
pub trait AsOut<T: ?Sized + Pointee> {
    /// Whether `self` is a location that holds a value, and holds what `target` holds.
    spec fn is_target(&self, target: &T) -> bool;

    /// Whether `self` is storage that need not hold a value yet, and equals `storage`.
    spec fn is_storage(&self, storage: &T::Storage) -> bool;

    /// Returns a handle to `self`. The storage is neither read nor changed: the handle starts
    /// with what `self` holds, and `self` ends with what the handle leaves.
    #[must_use]
    fn as_out(&mut self) -> (out: Out<'_, T>)
        ensures
            match out.place() {
                Place::Init(target) => {
                    &&& <Self as AsOut<T>>::is_target(&*old(self), &*target)
                    &&& <Self as AsOut<T>>::is_target(&*final(self), &*final(target))
                },
                Place::Uninit(storage) => {
                    &&& <Self as AsOut<T>>::is_storage(&*old(self), &*storage)
                    &&& <Self as AsOut<T>>::is_storage(&*final(self), &*final(storage))
                },
            },
    ;
}

impl<T> AsOut<T> for T {
    open spec fn is_target(&self, target: &T) -> bool {
        *self == *target
    }

    open spec fn is_storage(&self, storage: &Uninit<T>) -> bool {
        false
    }

    fn as_out(&mut self) -> (out: Out<'_, T>) {
        Out::from_mut(self)
    }
}

impl<T> AsOut<T> for Uninit<T> {
    open spec fn is_target(&self, target: &T) -> bool {
        false
    }

    open spec fn is_storage(&self, storage: &Uninit<T>) -> bool {
        *self == *storage
    }

    fn as_out(&mut self) -> (out: Out<'_, T>) {
        Out::from_uninit(self)
    }
}

impl<T> AsOut<[T]> for [T] {
    open spec fn is_target(&self, target: &[T]) -> bool {
        self@ == target@
    }

    open spec fn is_storage(&self, storage: &UninitSlice<T>) -> bool {
        false
    }

    fn as_out(&mut self) -> (out: Out<'_, [T]>) {
        Out::from_slice(self)
    }
}

impl<T> AsOut<[T]> for UninitSlice<T> {
    open spec fn is_target(&self, target: &[T]) -> bool {
        false
    }

    open spec fn is_storage(&self, storage: &UninitSlice<T>) -> bool {
        *self == *storage
    }

    fn as_out(&mut self) -> (out: Out<'_, [T]>) {
        Out::from_uninit_slice(self)
    }
}

} // verus!

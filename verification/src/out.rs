//! The write-only handle and its operations on a single value.
//!
//! A handle borrows a location exclusively. What the location holds is the handle's view: a
//! value, or nothing yet. Where the handle points is its [`Place`], a mutable reference into
//! the caller's storage; the contracts below tie what that reference ends with to what the
//! handle did, so that a caller can tell what its storage holds once the handle is gone.
//!
//! A verified caller brings [`lemma_out_has_resolved`] into scope and reasons about its own
//! storage:
//!
//! ```ignore
//! broadcast use outref::out::lemma_out_has_resolved;
//!
//! fn store<T>(cell: &mut Uninit<T>, value: T)
//!     ensures
//!         final(cell)@ == Some(value),
//! {
//!     let mut out = Out::from_uninit(cell);
//!     let _ = out.overwrite(value);
//! }
//! ```

use crate::storage::{Uninit, UninitSlice};
use core::mem::ManuallyDrop;
use vstd::prelude::*;

pub mod slice;

verus! {

/// A type that a handle can point to. It names the storage that is reserved for a value of
/// the type before there is one.
pub trait Pointee {
    /// The storage for a value of this type that need not be there yet.
    type Storage;
}

impl<T> Pointee for T {
    type Storage = Uninit<T>;
}

impl<T> Pointee for [T] {
    type Storage = UninitSlice<T>;
}

/// Where a handle points.
pub enum Place<'a, T: ?Sized + Pointee> {
    /// A location that holds a value.
    Init(&'a mut T),
    /// Storage that need not hold a value yet.
    Uninit(&'a mut T::Storage),
}

/// A write-only handle to a location that may not hold a value yet.
///
/// The handle can store into the location and replace what is there, but it never reads the
/// location and never leaves it without a value once it has one. It owns nothing: dropping
/// the handle runs no destructor and leaves the location as it is.
pub struct Out<'a, T: ?Sized + Pointee> {
    place: Place<'a, T>,
}

impl<'a, T: ?Sized + Pointee> Out<'a, T> {
    /// The location behind the handle.
    pub closed spec fn place(&self) -> Place<'a, T> {
        self.place
    }
}

/// A handle that is no longer used is done with its location: nothing is cleaned up, and
/// what the location held last is what it holds from then on.
pub broadcast proof fn lemma_out_has_resolved<'a, T: ?Sized + Pointee>(out: Out<'a, T>)
    ensures
        #[trigger] has_resolved(out) ==> has_resolved(out.place()),
{
}

impl<'a, T> Out<'a, T> {
    /// What the location holds, `None` while it holds no value.
    pub open spec fn view(&self) -> Option<T> {
        match self.place() {
            Place::Init(target) => Some(*target),
            Place::Uninit(cell) => cell@,
        }
    }

    /// A handle to a location that holds a value. The value is not read.
    #[must_use]
    pub fn from_mut(data: &'a mut T) -> (out: Self)
        ensures
            match out.place() {
                Place::Init(target) => *target == *old(data) && *final(target) == *final(data),
                Place::Uninit(_) => false,
            },
    {
        Out { place: Place::Init(data) }
    }

    /// A handle to storage that need not hold a value yet.
    #[must_use]
    pub fn from_uninit(data: &'a mut Uninit<T>) -> (out: Self)
        ensures
            match out.place() {
                Place::Init(_) => false,
                Place::Uninit(cell) => *cell == *old(data) && *final(cell) == *final(data),
            },
    {
        Out { place: Place::Uninit(data) }
    }

    /// Lends the location to a second handle with a shorter lifetime.
    ///
    /// The child starts with what the location holds. While the child lives `self` cannot be
    /// used; when the child is gone, `self` points to the same location as before, which
    /// holds what the child left there.
    #[must_use]
    pub fn reborrow<'s>(&'s mut self) -> (child: Out<'s, T>)
        ensures
            match (old(self).place(), child.place(), final(self).place()) {
                (Place::Init(before), Place::Init(lent), Place::Init(after)) => {
                    &&& *lent == *before
                    &&& *after == *final(lent)
                    &&& *final(after) == *final(before)
                },
                (Place::Uninit(before), Place::Uninit(lent), Place::Uninit(after)) => {
                    &&& *lent == *before
                    &&& *after == *final(lent)
                    &&& *final(after) == *final(before)
                },
                _ => false,
            },
    {
        match &mut self.place {
            Place::Init(target) => Out { place: Place::Init(&mut **target) },
            Place::Uninit(cell) => Out { place: Place::Uninit(&mut **cell) },
        }
    }

    /// Stores `value` in the location and returns a reference to it.
    ///
    /// A value that the location held before is abandoned without running its destructor.
    /// The handle points to the same location afterwards, which holds what the returned
    /// reference ends with.
    #[must_use]
    pub fn overwrite(&mut self, value: T) -> (r: &mut T)
        ensures
            *r == value,
            final(self)@ == Some(*final(r)),
            match (old(self).place(), final(self).place()) {
                (Place::Init(before), Place::Init(after)) => *final(after) == *final(before),
                (Place::Uninit(before), Place::Uninit(after)) => *final(after) == *final(before),
                _ => false,
            },
    {
        match &mut self.place {
            Place::Init(target) => {
                let mut previous = value;
                core::mem::swap(&mut **target, &mut previous);
                let _abandoned = ManuallyDrop::new(previous);
                &mut **target
            },
            Place::Uninit(cell) => cell.write(value),
        }
    }

    /// Turns the handle into an ordinary reference to the value in the location.
    ///
    /// The caller states that the location holds a value: one that was written through a
    /// handle, or one that was there from the start.
    #[must_use]
    pub fn assume_init(self) -> (r: &'a mut T)
        requires
            self@ is Some,
        ensures
            Some(*r) == self@,
            match self.place() {
                Place::Init(target) => *final(target) == *final(r),
                Place::Uninit(cell) => final(cell)@ == Some(*final(r)),
            },
    {
        match self.place {
            Place::Init(target) => target,
            Place::Uninit(cell) => cell.assume_init_mut(),
        }
    }

    /// Stores `value` in the location and turns the handle into an ordinary reference to it:
    /// whatever is written through a handle is what is read once the handle is given up.
    pub fn write(self, value: T) -> (r: &'a mut T)
        ensures
            *r == value,
            match self.place() {
                Place::Init(target) => *final(target) == *final(r),
                Place::Uninit(cell) => final(cell)@ == Some(*final(r)),
            },
    {
        let mut out = self;
        let _ = out.overwrite(value);
        out.assume_init()
    }
}

} // verus!

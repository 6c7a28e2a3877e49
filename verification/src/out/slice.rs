//! The operations of a handle to a run of values.

use crate::fill::{fill_doubling, repeated};
use crate::out::{Out, Place};
use crate::storage::UninitSlice;
use vstd::prelude::*;

verus! {

/// The source of a copy is not as long as its destination.
#[derive(Clone, Copy, Debug, PartialEq, Eq)]
pub struct LengthMismatch {
    /// The number of elements in the destination.
    pub expected: usize,
    /// The number of elements in the source.
    pub found: usize,
}

impl<'a, T> Out<'a, [T]> {
    /// The number of elements behind the handle.
    pub open spec fn spec_len(&self) -> nat {
        match self.place() {
            Place::Init(target) => target@.len(),
            Place::Uninit(run) => run.spec_len(),
        }
    }

    /// What the elements hold, `None` while they do not all hold a value.
    pub open spec fn view(&self) -> Option<Seq<T>> {
        match self.place() {
            Place::Init(target) => Some(target@),
            Place::Uninit(run) => run@,
        }
    }

    /// Where all elements hold a value, there are `spec_len()` values.
    pub proof fn lemma_view_len(&self)
        ensures
            self@ is Some ==> self@->0.len() == self.spec_len(),
    {
        if let Place::Uninit(run) = self.place() {
            run.lemma_view_len();
        }
    }

    /// A handle to a slice whose elements hold values. The values are not read.
    #[must_use]
    pub fn from_slice(slice: &'a mut [T]) -> (out: Self)
        ensures
            match out.place() {
                Place::Init(target) => target@ == old(slice)@ && final(target)@ == final(slice)@,
                Place::Uninit(_) => false,
            },
    {
        Out { place: Place::Init(slice) }
    }

    /// A handle to storage for a run of values that need not be there yet.
    #[must_use]
    pub fn from_uninit_slice(slice: &'a mut UninitSlice<T>) -> (out: Self)
        ensures
            match out.place() {
                Place::Init(_) => false,
                Place::Uninit(run) => *run == *old(slice) && *final(run) == *final(slice),
            },
    {
        Out { place: Place::Uninit(slice) }
    }

    /// Lends the elements to a second handle with a shorter lifetime.
    ///
    /// The child starts with what the elements hold. When the child is gone, `self` points
    /// to the same elements as before, which hold what the child left there.
    #[must_use]
    pub fn reborrow<'s>(&'s mut self) -> (child: Out<'s, [T]>)
        ensures
            match (old(self).place(), child.place(), final(self).place()) {
                (Place::Init(before), Place::Init(lent), Place::Init(after)) => {
                    &&& lent@ == before@
                    &&& after@ == final(lent)@
                    &&& final(after)@ == final(before)@
                },
                (Place::Uninit(before), Place::Uninit(lent), Place::Uninit(after)) => {
                    &&& *lent == *before
                    &&& *after == *final(lent)
                    &&& *final(after) == *final(before)
                },
                _ => false,
            },
    {
        match &mut self.place {
            Place::Init(target) => Out { place: Place::Init(&mut **target) },
            Place::Uninit(run) => Out { place: Place::Uninit(&mut **run) },
        }
    }

    /// Whether there are no elements behind the handle.
    #[must_use]
    pub fn is_empty(&self) -> (b: bool)
        ensures
            b <==> self.spec_len() == 0,
    {
        self.len() == 0
    }

    /// The number of elements behind the handle.
    #[must_use]
    pub fn len(&self) -> (n: usize)
        ensures
            n == self.spec_len(),
    {
        match &self.place {
            Place::Init(target) => target.len(),
            Place::Uninit(run) => run.len(),
        }
    }

    /// Writes `value` into every element and returns the elements as a slice.
    ///
    /// A slice that holds values already is filled in place by block copies that double in
    /// length; storage that holds nothing yet receives its values one after the other. With
    /// no elements nothing is written. The handle points to the same elements afterwards,
    /// which hold what the returned slice ends with; Verus does not assume that a mutable
    /// slice keeps its length, so that clause names the condition.
    #[must_use]
    pub fn fill_copied(&mut self, value: T) -> (r: &mut [T]) where T: Copy
        ensures
            r@ == repeated(old(self).spec_len(), value),
            final(r)@.len() == r@.len() ==> {
                &&& final(self)@ == Some(final(r)@)
                &&& final(self).spec_len() == old(self).spec_len()
            },
            match (old(self).place(), final(self).place()) {
                (Place::Init(before), Place::Init(after)) => final(after)@ == final(before)@,
                (Place::Uninit(before), Place::Uninit(after)) => *final(after) == *final(before),
                _ => false,
            },
    {
        match &mut self.place {
            Place::Init(target) => {
                fill_doubling(&mut **target, value);
                &mut **target
            },
            Place::Uninit(run) => run.write_filled(value),
        }
    }

    /// Copies `src` into the elements, which are as many as `src` has.
    ///
    /// Where the lengths differ nothing is copied: the elements stay as they are and the
    /// error names both lengths.
    pub fn copy_from_slice(&mut self, src: &[T]) -> (r: Result<(), LengthMismatch>) where T: Copy
        ensures
            match r {
                Ok(()) => src@.len() == old(self).spec_len() && final(self)@ == Some(src@),
                Err(e) => {
                    &&& src@.len() != old(self).spec_len()
                    &&& e.expected == old(self).spec_len()
                    &&& e.found == src@.len()
                    &&& final(self)@ == old(self)@
                },
            },
            final(self).spec_len() == old(self).spec_len(),
            match (old(self).place(), final(self).place()) {
                (Place::Init(before), Place::Init(after)) => final(after)@ == final(before)@,
                (Place::Uninit(before), Place::Uninit(after)) => *final(after) == *final(before),
                _ => false,
            },
    {
        let len = self.len();
        if src.len() != len {
            return Err(LengthMismatch { expected: len, found: src.len() });
        }
        match &mut self.place {
            Place::Init(target) => {
                target.copy_from_slice(src);
            },
            Place::Uninit(run) => {
                let _ = run.write_copy_of_slice(src);
            },
        }
        Ok(())
    }

    /// Turns the handle into an ordinary reference to the elements.
    ///
    /// The caller states that every element holds a value.
    #[must_use]
    pub fn assume_init(self) -> (r: &'a mut [T])
        requires
            self@ is Some,
        ensures
            Some(r@) == self@,
            match self.place() {
                Place::Init(target) => final(target)@ == final(r)@,
                Place::Uninit(run) => {
                    &&& final(run).spec_len() == run.spec_len()
                    &&& final(r)@.len() == r@.len() ==> final(run)@ == Some(final(r)@)
                },
            },
    {
        match self.place {
            Place::Init(target) => target,
            Place::Uninit(run) => run.assume_init_mut(),
        }
    }
}

} // verus!

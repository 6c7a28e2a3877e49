//! Storage that is reserved for values before there are any.
//!
//! [`Uninit`] is room for one value and [`UninitSlice`] is room for a run of values. Both
//! know whether they hold values, so that reading them back needs no trust in the caller:
//! the operations that hand out what was written state as a precondition that it is there.

use crate::fill::repeated;
use core::mem::ManuallyDrop;
use vstd::prelude::*;

verus! {

/// Storage reserved for one value of `T`, which may not hold a value yet.
pub struct Uninit<T> {
    slot: Option<T>,
}

impl<T> View for Uninit<T> {
    type V = Option<T>;

    /// The value in the storage, or `None` while there is none.
    closed spec fn view(&self) -> Option<T> {
        self.slot
    }
}

impl<T> Uninit<T> {
    /// Storage that holds no value.
    pub fn uninit() -> (cell: Self)
        ensures
            cell@ is None,
    {
        Uninit { slot: None }
    }

    /// Storage that holds `value`.
    pub fn new(value: T) -> (cell: Self)
        ensures
            cell@ == Some(value),
    {
        Uninit { slot: Some(value) }
    }

    /// Whether the storage holds a value.
    pub fn is_init(&self) -> (b: bool)
        ensures
            b == (self@ is Some),
    {
        self.slot.is_some()
    }

    /// Stores `value` and returns a reference to it. A value that the storage held before is
    /// abandoned: its destructor does not run.
    pub fn write(&mut self, value: T) -> (r: &mut T)
        ensures
            *r == value,
            final(self)@ == Some(*final(r)),
    {
        let previous = self.slot.take();
        let _abandoned = ManuallyDrop::new(previous);
        self.slot.insert(value)
    }

    /// A reference to the value in the storage, which has to be there.
    pub fn assume_init_mut(&mut self) -> (r: &mut T)
        requires
            old(self)@ is Some,
        ensures
            Some(*r) == old(self)@,
            final(self)@ == Some(*final(r)),
    {
        self.slot.as_mut().unwrap()
    }

    /// The value in the storage, if there is one.
    pub fn get(&self) -> (r: Option<&T>)
        ensures
            match r {
                Some(value) => self@ == Some(*value),
                None => self@ is None,
            },
    {
        self.slot.as_ref()
    }

    /// Takes the storage apart and returns the value it held, if any.
    pub fn into_inner(self) -> (r: Option<T>)
        ensures
            r == self@,
    {
        self.slot
    }
}

/// Storage reserved for a run of `len` values of `T`. It holds either all of them or, for
/// what a reader can tell, none.
pub struct UninitSlice<T> {
    len: usize,
    cells: Vec<T>,
}

impl<T> View for UninitSlice<T> {
    type V = Option<Seq<T>>;

    /// The values in the storage, or `None` while they are not all there.
    closed spec fn view(&self) -> Option<Seq<T>> {
        if self.cells@.len() == self.len {
            Some(self.cells@)
        } else {
            None
        }
    }
}

impl<T> UninitSlice<T> {
    /// The number of values that the storage has room for.
    pub closed spec fn spec_len(&self) -> nat {
        self.len as nat
    }

    /// Storage that holds its values holds as many as it has room for.
    pub proof fn lemma_view_len(&self)
        ensures
            self@ is Some ==> self@->0.len() == self.spec_len(),
    {
    }

    /// Storage with room for `len` values, none of them written. Storage for no values at
    /// all counts as holding them.
    pub fn with_len(len: usize) -> (run: Self)
        ensures
            run.spec_len() == len,
            run@ == if len == 0 {
                Some(Seq::<T>::empty())
            } else {
                None
            },
    {
        let mut cells = Vec::new();
        let _ = cells.try_reserve(len);
        UninitSlice { len, cells }
    }

    /// Storage that holds `values`, with room for exactly as many.
    pub fn from_vec(values: Vec<T>) -> (run: Self)
        ensures
            run.spec_len() == values@.len(),
            run@ == Some(values@),
    {
        UninitSlice { len: values.len(), cells: values }
    }

    /// The number of values that the storage has room for.
    pub fn len(&self) -> (n: usize)
        ensures
            n == self.spec_len(),
    {
        self.len
    }

    /// Whether the storage holds all its values.
    pub fn is_init(&self) -> (b: bool)
        ensures
            b == (self@ is Some),
    {
        self.cells.len() == self.len
    }

    /// Writes `value` into every place of the storage and returns the values as a slice.
    ///
    /// Afterwards the storage holds what the returned slice ends with. Verus does not assume
    /// that a mutable slice keeps its length, so the last clause names that condition.
    pub fn write_filled(&mut self, value: T) -> (r: &mut [T]) where T: Copy
        ensures
            r@ == repeated(old(self).spec_len(), value),
            final(self).spec_len() == old(self).spec_len(),
            final(self)@ == if final(r)@.len() == r@.len() {
                Some(final(r)@)
            } else {
                None
            },
    {
        self.cells.clear();
        let len = self.len;
        let mut written: usize = 0;
        while written < len
            invariant
                written <= len,
                len == self.len,
                self.len == old(self).len,
                self.cells@ == repeated(written as nat, value),
            decreases len - written,
        {
            self.cells.push(value);
            written = written + 1;
            assert(self.cells@ =~= repeated(written as nat, value));
        }
        self.cells.as_mut_slice()
    }

    /// Writes a copy of `src`, which is as long as the storage, and returns the values as a
    /// slice. Afterwards the storage holds what the returned slice ends with.
    pub fn write_copy_of_slice(&mut self, src: &[T]) -> (r: &mut [T]) where T: Copy
        requires
            src@.len() == old(self).spec_len(),
        ensures
            r@ == src@,
            final(self).spec_len() == old(self).spec_len(),
            final(self)@ == if final(r)@.len() == r@.len() {
                Some(final(r)@)
            } else {
                None
            },
    {
        self.cells.clear();
        let len = self.len;
        let mut written: usize = 0;
        while written < len
            invariant
                written <= len,
                len == self.len,
                self.len == old(self).len,
                src@.len() == len,
                self.cells@ == src@.subrange(0, written as int),
            decreases len - written,
        {
            self.cells.push(src[written]);
            written = written + 1;
            assert(self.cells@ =~= src@.subrange(0, written as int));
        }
        assert(self.cells@ =~= src@);
        self.cells.as_mut_slice()
    }

    /// The values in the storage as a slice. They have to be there.
    pub fn assume_init_mut(&mut self) -> (r: &mut [T])
        requires
            old(self)@ is Some,
        ensures
            Some(r@) == old(self)@,
            final(self).spec_len() == old(self).spec_len(),
            final(self)@ == if final(r)@.len() == r@.len() {
                Some(final(r)@)
            } else {
                None
            },
    {
        self.cells.as_mut_slice()
    }

    /// The values in the storage, if they are all there.
    pub fn as_slice(&self) -> (r: Option<&[T]>)
        ensures
            match r {
                Some(values) => self@ == Some(values@),
                None => self@ is None,
            },
    {
        if self.cells.len() == self.len {
            Some(self.cells.as_slice())
        } else {
            None
        }
    }

    /// Takes the storage apart and returns its values, if they are all there.
    pub fn into_vec(self) -> (r: Option<Vec<T>>)
        ensures
            match r {
                Some(values) => self@ == Some(values@),
                None => self@ is None,
            },
    {
        if self.cells.len() == self.len {
            Some(self.cells)
        } else {
            None
        }
    }
}

} // verus!

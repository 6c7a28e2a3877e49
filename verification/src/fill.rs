//! Filling a slice with one value by block copies.

use vstd::prelude::*;

verus! {

/// The sequence of `len` elements that all equal `value`.
pub open spec fn repeated<T>(len: nat, value: T) -> Seq<T> {
    Seq::new(len, |i: int| value)
}

/// Assumed of `<[E]>::copy_from_slice` in the standard library: it copies every element of
/// `src` into `dst`, so that `dst` ends up equal to `src` element by element. It panics when
/// the two lengths differ, which the precondition rules out.
pub assume_specification<E: Copy>[ <[E]>::copy_from_slice ](dst: &mut [E], src: &[E])
    requires
        old(dst)@.len() == src@.len(),
    ensures
        final(dst)@ == src@,
;

/// Fills `dst` with copies of `value`.
///
/// The first element is written directly. After that the filled front of the slice is copied
/// into the region right behind it, which doubles the filled length each round, and a last
/// copy covers the tail that is shorter than the front. A slice of `n` elements is filled
/// with about `log2(n)` block copies between disjoint regions. An empty slice is left alone.
pub fn fill_doubling<T: Copy>(dst: &mut [T], value: T)
    ensures
        final(dst)@ == repeated(old(dst)@.len(), value),
{
    let len = dst.len();
    if len == 0 {
        return;
    }
    dst[0] = value;
    let mut filled: usize = 1;
    while filled <= len / 2
        invariant
            1 <= filled <= len,
            dst@.len() == len,
            forall|i: int| 0 <= i < filled ==> dst@[i] == value,
        decreases len - filled,
    {
        let (front, back) = dst.split_at_mut(filled);
        let (next, _) = back.split_at_mut(filled);
        next.copy_from_slice(front);
        filled = filled * 2;
    }
    let rest = len - filled;
    if rest > 0 {
        let (front, back) = dst.split_at_mut(filled);
        let (source, _) = front.split_at(rest);
        back.copy_from_slice(source);
    }
    assert(dst@ =~= repeated(len as nat, value));
}

} // verus!

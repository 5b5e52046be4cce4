use vstd::prelude::*;

verus! {

/// Relies on `<[T]>::swap`: it exchanges the two elements in place and
/// panics when either index is out of bounds.
pub assume_specification<T>[ <[T]>::swap ](s: &mut [T], a: usize, b: usize)
    requires
        a < old(s)@.len(),
        b < old(s)@.len(),
    ensures
        final(s)@ == old(s)@.update(a as int, old(s)@[b as int]).update(b as int, old(s)@[a as int]),
;

} // verus!

use vstd::prelude::*;

use std::ops::Range;

use crate::buffer::Vector;

verus! {

impl<T> std::ops::Deref for Vector<T> {
    type Target = [T];

    fn deref(&self) -> (r: &[T])
        ensures
            r@ == self@,
    {
        self.as_slice()
    }
}

impl<T> std::ops::DerefMut for Vector<T> {
    fn deref_mut(&mut self) -> (r: &mut [T])
        ensures
            r@ == old(self)@,
            final(self)@ == final(r)@,
    {
        self.as_slice_mut()
    }
}

impl<T> std::ops::Index<usize> for Vector<T> {
    type Output = T;

    fn index(&self, index: usize) -> (r: &T)
        ensures
            *r == self@[index as int],
    {
        self.get_as_ref(index)
    }
}

impl<T> vstd::std_specs::core::IndexSpecImpl<usize> for Vector<T> {
    open spec fn index_req(&self, index: &usize) -> bool {
        *index < self@.len()
    }
}

impl<T> std::ops::Index<Range<usize>> for Vector<T> {
    type Output = [T];

    fn index(&self, range: Range<usize>) -> (r: &[T])
        ensures
            r@ == self@.subrange(range.start as int, range.end as int),
    {
        self.get_range(range)
    }
}

impl<T> vstd::std_specs::core::IndexSpecImpl<Range<usize>> for Vector<T> {
    open spec fn index_req(&self, range: &Range<usize>) -> bool {
        range.start <= range.end <= self@.len()
    }
}

} // verus!

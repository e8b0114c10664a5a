use vstd::prelude::*;

use crate::buffer::Vector;

verus! {

/// An owning iterator over the elements of a [`Vector`], from either end.
///
/// The elements that are still to come are kept in reverse order, so that
/// taking from the front is a pop.
pub struct VecIterator<T> {
    rest: Vec<T>,
}

impl<T> View for VecIterator<T> {
    type V = Seq<T>;

    /// The elements still to come, front first.
    closed spec fn view(&self) -> Seq<T> {
        self.rest@.reverse()
    }
}

impl<T> Vector<T> {
    /// Turns the buffer into an iterator that hands out its elements.
    pub fn into_iter(self) -> (r: VecIterator<T>)
        ensures
            r@ == self@,
    {
        let ghost whole = self@;
        let mut source = self;
        let mut rest: Vec<T> = Vec::new();
        while source.len() > 0
            invariant
                source@ + rest@.reverse() == whole,
            decreases source@.len(),
        {
            let v = source.pop();
            rest.push(v);
        }
        VecIterator { rest }
    }
}

impl<T> VecIterator<T> {
    /// Takes the first element still to come, or `None` when all are out.
    pub fn next(&mut self) -> (r: Option<T>)
        ensures
            old(self)@.len() == 0 ==> r is None && final(self)@ == old(self)@,
            old(self)@.len() > 0 ==> r == Some(old(self)@[0]) && final(self)@ == old(self)@.drop_first(),
    {
        self.rest.pop()
    }

    /// Takes the last element still to come, or `None` when all are out.
    pub fn next_back(&mut self) -> (r: Option<T>)
        ensures
            old(self)@.len() == 0 ==> r is None && final(self)@ == old(self)@,
            old(self)@.len() > 0 ==> r == Some(old(self)@.last()) && final(self)@ == old(self)@.drop_last(),
    {
        if self.rest.len() == 0 {
            None
        } else {
            Some(self.rest.remove(0))
        }
    }
}

} // verus!

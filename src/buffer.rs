use vstd::prelude::*;

verus! {

/// The capacity that a buffer of capacity `c` grows to when it is full:
/// one slot for an empty allocation, twice as many otherwise (bounded by the
/// largest `usize`).
pub open spec fn grown(c: nat) -> nat {
    if c == 0 {
        1
    } else if c <= usize::MAX / 2 {
        2 * c
    } else {
        usize::MAX as nat
    }
}

/// A growable buffer: the live elements, in order, at the front of a block of
/// `capacity` slots. The block only ever grows, by the policy of [`grown`],
/// and only when an element is pushed while every slot is taken.
#[derive(Debug, Hash)]
pub struct Vector<T> {
    data: Vec<T>,
    capacity: usize,
}

impl<T> View for Vector<T> {
    type V = Seq<T>;

    /// The live elements, in order.
    closed spec fn view(&self) -> Seq<T> {
        self.data@
    }
}

impl<T> Vector<T> {
    /// The number of allocated slots.
    pub closed spec fn spec_capacity(&self) -> nat {
        self.capacity as nat
    }

    /// The live elements never outnumber the allocated slots.
    ///
    /// Every operation here keeps this; the mutable slice views cannot change
    /// the number of elements either, but their contracts do not carry it.
    pub closed spec fn wf(&self) -> bool {
        self.data@.len() <= self.capacity
    }

    /// An empty buffer with no usable slot.
    pub fn new() -> (r: Self)
        ensures
            r.wf(),
            r@ == Seq::<T>::empty(),
            r.spec_capacity() == 0,
    {
        Vector { data: Vec::new(), capacity: 0 }
    }

    /// Grows the block by the doubling policy; the elements stay as they are.
    fn increment_cap(&mut self)
        ensures
            old(self).wf() ==> final(self).wf(),
            final(self)@ == old(self)@,
            final(self).spec_capacity() == grown(old(self).spec_capacity()),
    {
        if self.capacity == 0 {
            self.capacity = 1;
        } else if self.capacity <= usize::MAX / 2 {
            self.capacity = self.capacity * 2;
        } else {
            self.capacity = usize::MAX;
        }
    }

    /// Appends `elem` after the last element, growing the block first when
    /// every slot is taken.
    pub fn push(&mut self, elem: T)
        requires
            old(self)@.len() < usize::MAX,
        ensures
            old(self).wf() ==> final(self).wf(),
            final(self)@ == old(self)@.push(elem),
            final(self).spec_capacity() == if old(self)@.len() >= old(self).spec_capacity() {
                grown(old(self).spec_capacity())
            } else {
                old(self).spec_capacity()
            },
    {
        if self.data.len() >= self.capacity {
            self.increment_cap();
        }
        self.data.push(elem);
    }

    /// Removes the last element and hands it to the caller.
    pub fn pop(&mut self) -> (r: T)
        requires
            old(self)@.len() > 0,
        ensures
            old(self).wf() ==> final(self).wf(),
            r == old(self)@.last(),
            final(self)@ == old(self)@.drop_last(),
            final(self).spec_capacity() == old(self).spec_capacity(),
    {
        self.data.pop().unwrap()
    }

    /// Removes the element at `index`, moving every later element one place
    /// to the left; an index past the end leaves the buffer unchanged.
    pub fn delete_inplace(&mut self, index: usize)
        ensures
            old(self).wf() ==> final(self).wf(),
            index < old(self)@.len() ==> final(self)@ == old(self)@.remove(index as int),
            index >= old(self)@.len() ==> final(self)@ == old(self)@,
            final(self).spec_capacity() == old(self).spec_capacity(),
    {
        if index < self.data.len() {
            // the removed element is finalized here, once
            let _removed = self.data.remove(index);
        }
    }

    /// Overwrites the element at `index` with `elem`; an index past the end
    /// leaves the buffer unchanged.
    pub fn replace(&mut self, index: usize, elem: T)
        ensures
            old(self).wf() ==> final(self).wf(),
            index < old(self)@.len() ==> final(self)@ == old(self)@.update(index as int, elem),
            index >= old(self)@.len() ==> final(self)@ == old(self)@,
            final(self).spec_capacity() == old(self).spec_capacity(),
    {
        if index < self.data.len() {
            self.data.set(index, elem);
        }
    }

    /// Builds a buffer by pushing each of `values` in order.
    pub fn from_vec(values: Vec<T>) -> (r: Self)
        ensures
            r.wf(),
            r@ == values@,
            r@.len() == values@.len(),
    {
        let ghost old_values = values@;
        let mut values = values;
        let total: usize = values.len();
        let mut reversed: Vec<T> = Vec::new();
        while values.len() > 0
            invariant
                values@ + reversed@.reverse() == old_values,
            decreases values@.len(),
        {
            let v = values.pop().unwrap();
            reversed.push(v);
        }
        let mut r = Vector::new();
        while reversed.len() > 0
            invariant
                r.wf(),
                total == old_values.len(),
                r@.len() + reversed@.len() == total,
                r@ + reversed@.reverse() == old_values,
            decreases reversed@.len(),
        {
            let v = reversed.pop().unwrap();
            r.push(v);
        }
        r
    }

    /// A borrowed view of the live elements.
    pub fn as_slice(&self) -> (r: &[T])
        ensures
            r@ == self@,
    {
        self.data.as_slice()
    }

    /// A borrowed view of the element at `index`.
    pub fn get_as_ref(&self, index: usize) -> (r: &T)
        requires
            index < self@.len(),
        ensures
            *r == self@[index as int],
    {
        &self.data[index]
    }

    /// A mutable borrow of the element at `index`; what is written through it
    /// lands at `index` and nowhere else.
    pub fn get_as_ref_mut(&mut self, index: usize) -> (r: &mut T)
        requires
            index < old(self)@.len(),
        ensures
            *r == old(self)@[index as int],
            final(self)@ == old(self)@.update(index as int, *final(r)),
            old(self).wf() ==> final(self).wf(),
            final(self).spec_capacity() == old(self).spec_capacity(),
    {
        &mut self.data[index]
    }

    /// A borrowed view of the elements in the half-open range.
    pub fn get_range(&self, range: std::ops::Range<usize>) -> (r: &[T])
        requires
            range.start <= range.end <= self@.len(),
        ensures
            r@ == self@.subrange(range.start as int, range.end as int),
    {
        vstd::slice::slice_subrange(self.data.as_slice(), range.start, range.end)
    }

    /// A mutable borrowed view of the live elements.
    pub fn as_slice_mut(&mut self) -> (r: &mut [T])
        ensures
            r@ == old(self)@,
            final(self)@ == final(r)@,
            final(self).spec_capacity() == old(self).spec_capacity(),
    {
        self.data.as_mut_slice()
    }

    /// A mutable borrowed view of the elements in the half-open range; the
    /// elements outside it stay as they are.
    pub fn get_range_mut(&mut self, range: std::ops::Range<usize>) -> (r: &mut [T])
        requires
            range.start <= range.end <= old(self)@.len(),
        ensures
            r@ == old(self)@.subrange(range.start as int, range.end as int),
            final(self)@ == old(self)@.subrange(0, range.start as int) + final(r)@ + old(self)@.subrange(
                range.end as int,
                old(self)@.len() as int,
            ),
            final(self).spec_capacity() == old(self).spec_capacity(),
    {
        let all = self.data.as_mut_slice();
        let (_front, rest) = all.split_at_mut(range.start);
        let (middle, _back) = rest.split_at_mut(range.end - range.start);
        middle
    }

    /// The number of live elements.
    pub fn len(&self) -> (r: usize)
        ensures
            r == self@.len(),
    {
        self.data.len()
    }

    /// The number of allocated slots.
    pub fn capacity(&self) -> (r: usize)
        ensures
            r == self.spec_capacity(),
    {
        self.capacity
    }
}

impl<T: Copy> Vector<T> {
    /// A copy of the element at `index`; the buffer keeps its own.
    pub fn get(&self, index: usize) -> (r: T)
        requires
            index < self@.len(),
        ensures
            r == self@[index as int],
    {
        self.data[index]
    }

    /// A copy of the element at `index`, or `None` past the end.
    pub fn get_result(&self, index: usize) -> (r: Option<T>)
        ensures
            index < self@.len() ==> r == Some(self@[index as int]),
            index >= self@.len() ==> r is None,
    {
        if index < self.data.len() {
            Some(self.data[index])
        } else {
            None
        }
    }

    /// A copy of the element at `index` that makes no bounds test of its own:
    /// the caller has established that `index` is in range.
    pub fn get_unchecked(&self, index: usize) -> (r: T)
        requires
            index < self@.len(),
        ensures
            r == self@[index as int],
    {
        self.data[index]
    }
}

} // verus!

//! An array of which only part is populated.
use vstd::prelude::*;

verus! {

/// An array allocated as a specific size, of which only part is populated.
pub struct PreallocatedArray<T> {
    pub data: Vec<T>,
    pub len: usize,
    pub max_len: usize,
}

impl<T> View for PreallocatedArray<T> {
    type V = Seq<T>;

    /// The part that is populated.
    open spec fn view(&self) -> Seq<T> {
        self.data@.take(self.len as int)
    }
}

impl<T> PreallocatedArray<T> {
    /// The array is as long as it was allocated, and no more of it is populated than there is.
    pub open spec fn wf(&self) -> bool {
        self.data@.len() == self.max_len && self.len <= self.max_len
    }

    /// An array of the slots of `data`, the first `len` of which are populated.
    pub fn new(data: Vec<T>, len: usize) -> (array: Self)
        ensures
            array.data@ == data@,
            array.len == len,
            array.max_len == data@.len(),
    {
        let max_len: usize = data.len();
        Self { data, len, max_len }
    }

    /// The part that is populated.
    pub fn as_ref(&self) -> (populated: &[T])
        requires
            self.wf(),
        ensures
            populated@ == self@,
            populated@.len() == self.len,
            forall|i: int| 0 <= i < self.len ==> populated@[i] == self.data@[i],
    {
        vstd::slice::slice_subrange(self.data.as_slice(), 0, self.len)
    }

    /// All the slots, to be written to.
    pub fn data_mut(&mut self) -> (slots: &mut [T])
        ensures
            slots@ == old(self).data@,
            final(self).data@ == final(slots)@,
            final(self).len == old(self).len,
            final(self).max_len == old(self).max_len,
    {
        self.data.as_mut_slice()
    }

    /// How many slots are populated, to be written to.
    pub fn len_mut(&mut self) -> (len: &mut usize)
        ensures
            *len == old(self).len,
            final(self).data@ == old(self).data@,
            final(self).len == *final(len),
            final(self).max_len == old(self).max_len,
    {
        &mut self.len
    }
}

impl<T: Copy> PreallocatedArray<T> {
    /// Populates the array with `items` and nothing else.
    pub fn fill(&mut self, items: &[T])
        requires
            old(self).wf(),
            items@.len() <= old(self).max_len,
        ensures
            final(self).wf(),
            final(self)@ == items@,
            final(self).max_len == old(self).max_len,
    {
        let ghost slots_before = self.data@.len();
        let count: usize = items.len();
        let mut i: usize = 0;
        let slots = self.data_mut();
        while i < count
            invariant
                i <= count,
                count == items@.len(),
                count <= slots_before,
                slots@.len() == slots_before,
                forall|j: int| 0 <= j < i ==> slots@[j] == items@[j],
            decreases count - i,
        {
            slots[i] = items[i];
            i += 1;
        }
        *self.len_mut() = count;
        proof {
            assert(self@ =~= items@);
        }
    }
}

} // verus!

use vstd::prelude::*;

verus! {

/// A vector that never holds more than `CAPACITY` elements.
pub struct ArrayVec<const CAPACITY: usize, T> {
    values: Vec<T>,
}

impl<const CAPACITY: usize, T> View for ArrayVec<CAPACITY, T> {
    type V = Seq<T>;

    /// The live elements, first to last.
    closed spec fn view(&self) -> Seq<T> {
        self.values@
    }
}

impl<const CAPACITY: usize, T> ArrayVec<CAPACITY, T> {
    /// The length never exceeds the capacity.
    pub closed spec fn wf(&self) -> bool {
        self.values@.len() <= CAPACITY
    }

    /// A well-formed vector holds at most `CAPACITY` elements.
    pub proof fn lemma_bounded(&self)
        requires
            self.wf(),
        ensures
            self@.len() <= CAPACITY,
    {
    }

    pub fn new() -> (r: Self)
        ensures
            r.wf(),
            r@ == Seq::<T>::empty(),
    {
        ArrayVec { values: Vec::new() }
    }

    pub fn len(&self) -> (r: usize)
        requires
            self.wf(),
        ensures
            r == self@.len(),
            r <= CAPACITY,
    {
        self.values.len()
    }

    pub fn is_empty(&self) -> (r: bool)
        ensures
            r == (self@.len() == 0),
    {
        self.values.len() == 0
    }

    pub fn is_full(&self) -> (r: bool)
        requires
            self.wf(),
        ensures
            r == (self@.len() == CAPACITY),
    {
        self.values.len() == CAPACITY
    }

    /// Appends `value`; the caller guarantees that there is room.
    pub fn push_unchecked(&mut self, value: T)
        requires
            old(self).wf(),
            old(self)@.len() < CAPACITY,
        ensures
            final(self).wf(),
            final(self)@ == old(self)@.push(value),
    {
        self.values.push(value);
    }

    /// Appends `value`, or hands it back when the vector is full.
    pub fn push(&mut self, value: T) -> (r: Result<(), T>)
        requires
            old(self).wf(),
        ensures
            final(self).wf(),
            old(self)@.len() < CAPACITY ==> r is Ok && final(self)@ == old(self)@.push(value),
            old(self)@.len() == CAPACITY ==> r == Err::<(), T>(value) && final(self)@ == old(self)@,
    {
        if self.values.len() < CAPACITY {
            self.push_unchecked(value);
            Ok(())
        } else {
            Err(value)
        }
    }

    /// Removes and returns the last element, if any.
    pub fn pop(&mut self) -> (r: Option<T>)
        requires
            old(self).wf(),
        ensures
            final(self).wf(),
            old(self)@.len() > 0 ==> r == Some(old(self)@.last()) && final(self)@
                == old(self)@.drop_last(),
            old(self)@.len() == 0 ==> r is None && final(self)@ == old(self)@,
    {
        self.values.pop()
    }

    /// Inserts `value` at `index`, shifting the elements from `index` on one
    /// slot right; hands `value` back when the vector is full or `index` is
    /// past the end.
    pub fn insert(&mut self, index: usize, value: T) -> (r: Result<(), T>)
        requires
            old(self).wf(),
        ensures
            final(self).wf(),
            old(self)@.len() < CAPACITY && index <= old(self)@.len() ==> r is Ok && final(self)@
                == old(self)@.insert(index as int, value),
            !(old(self)@.len() < CAPACITY && index <= old(self)@.len()) ==> r == Err::<(), T>(value)
                && final(self)@ == old(self)@,
    {
        if self.values.len() < CAPACITY && index <= self.values.len() {
            self.values.insert(index, value);
            Ok(())
        } else {
            Err(value)
        }
    }

    /// The live elements as a slice.
    pub fn as_slice(&self) -> (r: &[T])
        ensures
            r@ == self@,
    {
        self.values.as_slice()
    }

    /// The element at `index`, if it is live.
    pub fn get(&self, index: usize) -> (r: Option<&T>)
        ensures
            index < self@.len() ==> r == Some(&self@[index as int]),
            index >= self@.len() ==> r is None,
    {
        if index < self.values.len() {
            Some(&self.values[index])
        } else {
            None
        }
    }

    /// References to the live elements, first to last.
    pub fn iter(&self) -> (r: Vec<&T>)
        ensures
            r@.len() == self@.len(),
            forall|i: int| 0 <= i < self@.len() ==> *r@[i] == self@[i],
    {
        let mut out: Vec<&T> = Vec::new();
        let mut i: usize = 0;
        while i < self.values.len()
            invariant
                i <= self.values@.len(),
                out@.len() == i,
                forall|j: int| 0 <= j < i ==> *out@[j] == self.values@[j],
            decreases self.values@.len() - i,
        {
            out.push(&self.values[i]);
            i = i + 1;
        }
        out
    }

    /// The live elements as a mutable slice: what is written through it
    /// becomes the vector's content.
    pub fn iter_mut(&mut self) -> (r: &mut [T])
        ensures
            r@ == old(self)@,
            final(self)@ == final(r)@,
    {
        self.values.as_mut_slice()
    }
}

impl<const CAPACITY: usize, T: Clone> ArrayVec<CAPACITY, T> {
    /// Appends clones of all of `slice`, or nothing when they do not all fit.
    pub fn extend_from_slice(&mut self, slice: &[T]) -> (r: Result<(), ()>)
        requires
            old(self).wf(),
        ensures
            final(self).wf(),
            old(self)@.len() + slice@.len() <= CAPACITY ==> {
                &&& r is Ok
                &&& final(self)@.len() == old(self)@.len() + slice@.len()
                &&& final(self)@.subrange(0, old(self)@.len() as int) == old(self)@
                &&& forall|i: int|
                    0 <= i < slice@.len() ==> cloned(slice@[i], final(self)@[old(self)@.len() + i])
            },
            old(self)@.len() + slice@.len() > CAPACITY ==> r is Err && final(self)@ == old(self)@,
    {
        if slice.len() > CAPACITY - self.values.len() {
            return Err(());
        }
        let ghost start = self.values@;
        let mut i: usize = 0;
        while i < slice.len()
            invariant
                i <= slice@.len(),
                start.len() + slice@.len() <= CAPACITY,
                self.values@.len() == start.len() + i,
                self.values@.subrange(0, start.len() as int) == start,
                forall|j: int| 0 <= j < i ==> cloned(slice@[j], self.values@[start.len() + j]),
            decreases slice@.len() - i,
        {
            let value = slice[i].clone();
            self.values.push(value);
            assert(self.values@.subrange(0, start.len() as int) =~= start);
            i = i + 1;
        }
        Ok(())
    }
}

impl<const CAPACITY: usize, T> Default for ArrayVec<CAPACITY, T> {
    fn default() -> (r: Self)
        ensures
            r.wf(),
            r@ == Seq::<T>::empty(),
    {
        Self::new()
    }
}

/// An insertion at `index` keeps the elements before `index`, puts `value`
/// at `index`, and moves each later element one place right, in order.
pub proof fn lemma_insert_shifts_right<T>(before: Seq<T>, index: int, value: T)
    requires
        0 <= index <= before.len(),
    ensures
        before.insert(index, value).len() == before.len() + 1,
        before.insert(index, value)[index] == value,
        forall|j: int| 0 <= j < index ==> #[trigger] before.insert(index, value)[j] == before[j],
        forall|j: int|
            index <= j < before.len() ==> #[trigger] before.insert(index, value)[j + 1] == before[j],
{
}

} // verus!

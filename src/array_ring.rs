use vstd::prelude::*;

verus! {

/// A double-ended queue that never holds more than `CAPACITY` elements,
/// stored in a fixed array of slots addressed modulo `CAPACITY`.
pub struct ArrayRing<const CAPACITY: usize, T> {
    values: Vec<Option<T>>,
    len: usize,
    start: usize,
}

impl<const CAPACITY: usize, T> View for ArrayRing<CAPACITY, T> {
    type V = Seq<T>;

    /// The elements, front to back.
    closed spec fn view(&self) -> Seq<T> {
        Seq::new(self.len as nat, |i: int| self.values@[self.slot(i)]->Some_0)
    }
}

impl<const CAPACITY: usize, T> ArrayRing<CAPACITY, T> {
    /// The slot of the element at logical index `i`: `(start + i) mod CAPACITY`.
    pub closed spec fn slot(&self, i: int) -> int {
        if self.start + i < CAPACITY {
            self.start + i
        } else {
            self.start + i - CAPACITY
        }
    }

    /// The logical index that slot `k` would hold.
    closed spec fn rank(&self, k: int) -> int {
        if k >= self.start {
            k - self.start
        } else {
            k + CAPACITY - self.start
        }
    }

    /// The slots hold values exactly on the window of `len` slots that
    /// begins at `start`; the window may wrap around the end.
    pub closed spec fn wf(&self) -> bool {
        &&& self.values@.len() == CAPACITY
        &&& self.len <= CAPACITY
        &&& (CAPACITY == 0 ==> self.start == 0)
        &&& (CAPACITY > 0 ==> self.start < CAPACITY)
        &&& forall|k: int|
            0 <= k < CAPACITY ==> (#[trigger] self.values@[k] is Some <==> self.rank(k) < self.len)
    }

    /// A well-formed ring holds at most `CAPACITY` elements.
    pub proof fn lemma_bounded(&self)
        requires
            self.wf(),
        ensures
            self@.len() <= CAPACITY,
    {
    }

    pub fn new() -> (r: Self)
        ensures
            r.wf(),
            r@ == Seq::<T>::empty(),
    {
        let mut values: Vec<Option<T>> = Vec::new();
        let mut i: usize = 0;
        while i < CAPACITY
            invariant
                i <= CAPACITY,
                values@.len() == i,
                forall|k: int| 0 <= k < i ==> #[trigger] values@[k] is None,
            decreases CAPACITY - i,
        {
            values.push(None);
            i = i + 1;
        }
        let r = ArrayRing { values, len: 0, start: 0 };
        assert(r@ =~= Seq::<T>::empty());
        r
    }

    pub fn len(&self) -> (r: usize)
        ensures
            r == self@.len(),
    {
        self.len
    }

    pub fn is_empty(&self) -> (r: bool)
        ensures
            r == (self@.len() == 0),
    {
        self.len == 0
    }

    pub fn is_full(&self) -> (r: bool)
        ensures
            r == (self@.len() == CAPACITY),
    {
        self.len == CAPACITY
    }

    /// The slot of logical index `index`, computed without overflow.
    fn slot_of(&self, index: usize) -> (r: usize)
        requires
            self.wf(),
            index < CAPACITY,
        ensures
            r == self.slot(index as int),
            r < CAPACITY,
    {
        if index < CAPACITY - self.start {
            self.start + index
        } else {
            index - (CAPACITY - self.start)
        }
    }

    /// Puts `value` in front, or hands it back when the ring is full.
    pub fn push_front(&mut self, value: T) -> (r: Result<(), T>)
        requires
            old(self).wf(),
        ensures
            final(self).wf(),
            old(self)@.len() < CAPACITY ==> r is Ok && final(self)@ == seq![value] + old(self)@,
            old(self)@.len() == CAPACITY ==> r == Err::<(), T>(value) && final(self)@ == old(self)@,
    {
        if self.len < CAPACITY {
            let ghost before = *self;
            let start = if self.start == 0 {
                CAPACITY - 1
            } else {
                self.start - 1
            };
            self.values.set(start, Some(value));
            self.start = start;
            self.len = self.len + 1;
            assert forall|k: int| 0 <= k < CAPACITY implies (#[trigger] self.values@[k] is Some
                <==> self.rank(k) < self.len) by {
                if k != start {
                    assert(before.values@[k] == self.values@[k]);
                }
            }
            assert(self@ =~= seq![value] + before@) by {
                assert forall|i: int| 0 < i < self.len implies self.slot(i) == before.slot(i - 1) by {}
            }
            Ok(())
        } else {
            Err(value)
        }
    }

    /// Puts `value` at the back, or hands it back when the ring is full.
    pub fn push_back(&mut self, value: T) -> (r: Result<(), T>)
        requires
            old(self).wf(),
        ensures
            final(self).wf(),
            old(self)@.len() < CAPACITY ==> r is Ok && final(self)@ == old(self)@.push(value),
            old(self)@.len() == CAPACITY ==> r == Err::<(), T>(value) && final(self)@ == old(self)@,
    {
        if self.len < CAPACITY {
            let ghost before = *self;
            let k = self.slot_of(self.len);
            self.values.set(k, Some(value));
            self.len = self.len + 1;
            assert forall|j: int| 0 <= j < CAPACITY implies (#[trigger] self.values@[j] is Some
                <==> self.rank(j) < self.len) by {
                if j != k {
                    assert(before.values@[j] == self.values@[j]);
                }
            }
            assert(self@ =~= before@.push(value));
            Ok(())
        } else {
            Err(value)
        }
    }

    /// Removes and returns the front element, if any; the window's start
    /// advances by one slot modulo `CAPACITY`.
    pub fn pop_front(&mut self) -> (r: Option<T>)
        requires
            old(self).wf(),
        ensures
            final(self).wf(),
            old(self)@.len() > 0 ==> r == Some(old(self)@[0]) && final(self)@
                == old(self)@.drop_first(),
            old(self)@.len() == 0 ==> r is None && final(self)@ == old(self)@,
    {
        if self.len > 0 {
            let ghost before = *self;
            let k = self.start;
            let value = self.values[k].take();
            self.start = if k + 1 == CAPACITY {
                0
            } else {
                k + 1
            };
            self.len = self.len - 1;
            assert forall|j: int| 0 <= j < CAPACITY implies (#[trigger] self.values@[j] is Some
                <==> self.rank(j) < self.len) by {
                if j != k {
                    assert(before.values@[j] == self.values@[j]);
                }
            }
            assert(self@ =~= before@.drop_first()) by {
                assert forall|i: int| 0 <= i < self.len implies self.slot(i) == before.slot(i + 1) by {}
            }
            match value {
                Some(v) => Some(v),
                None => None,
            }
        } else {
            None
        }
    }

    /// Removes and returns the back element, if any.
    pub fn pop_back(&mut self) -> (r: Option<T>)
        requires
            old(self).wf(),
        ensures
            final(self).wf(),
            old(self)@.len() > 0 ==> r == Some(old(self)@.last()) && final(self)@
                == old(self)@.drop_last(),
            old(self)@.len() == 0 ==> r is None && final(self)@ == old(self)@,
    {
        if self.len > 0 {
            let ghost before = *self;
            let k = self.slot_of(self.len - 1);
            let value = self.values[k].take();
            self.len = self.len - 1;
            assert forall|j: int| 0 <= j < CAPACITY implies (#[trigger] self.values@[j] is Some
                <==> self.rank(j) < self.len) by {
                if j != k {
                    assert(before.values@[j] == self.values@[j]);
                }
            }
            assert(self@ =~= before@.drop_last());
            value
        } else {
            None
        }
    }

    /// The element at logical index `index`, if there is one.
    pub fn get(&self, index: usize) -> (r: Option<&T>)
        requires
            self.wf(),
        ensures
            index < self@.len() ==> r == Some(&self@[index as int]),
            index >= self@.len() ==> r is None,
    {
        if index < self.len {
            let k = self.slot_of(index);
            match &self.values[k] {
                Some(v) => Some(v),
                None => None,
            }
        } else {
            None
        }
    }

    /// Mutable access to the element at logical index `index`; what is
    /// written through it becomes that element.
    pub fn get_mut(&mut self, index: usize) -> (r: Option<&mut T>)
        requires
            old(self).wf(),
        ensures
            final(self).wf(),
            index < old(self)@.len() ==> r is Some && *r->Some_0 == old(self)@[index as int]
                && final(self)@ == old(self)@.update(index as int, *final(r->Some_0)),
            index >= old(self)@.len() ==> r is None && final(self)@ == old(self)@,
    {
        if index < self.len {
            let k = self.slot_of(index);
            match &mut self.values[k] {
                Some(v) => Some(v),
                None => None,
            }
        } else {
            None
        }
    }

    /// References to the elements, front to back; walk it backwards for the
    /// reverse order.
    pub fn iter(&self) -> (r: Vec<&T>)
        requires
            self.wf(),
        ensures
            r@.len() == self@.len(),
            forall|i: int| 0 <= i < self@.len() ==> *r@[i] == self@[i],
    {
        let mut out: Vec<&T> = Vec::new();
        let mut i: usize = 0;
        while i < self.len
            invariant
                self.wf(),
                i <= self.len,
                out@.len() == i,
                forall|j: int| 0 <= j < i ==> *out@[j] == self@[j],
            decreases self.len - i,
        {
            let k = self.slot_of(i);
            match &self.values[k] {
                Some(v) => out.push(v),
                None => {},
            }
            i = i + 1;
        }
        out
    }
}

impl<const CAPACITY: usize, T> Default for ArrayRing<CAPACITY, T> {
    fn default() -> (r: Self)
        ensures
            r.wf(),
            r@ == Seq::<T>::empty(),
    {
        Self::new()
    }
}

/// One operation of a queue discipline on a ring: `push_back` of a value, or
/// `pop_front`.
pub enum QueueOp<T> {
    PushBack(T),
    PopFront,
}

/// Contents and popped elements after `ops`, applied from `contents` as the
/// contracts of `push_back` (when it succeeds) and `pop_front` describe them.
pub open spec fn run_queue<T>(contents: Seq<T>, ops: Seq<QueueOp<T>>) -> (Seq<T>, Seq<T>)
    decreases ops.len(),
{
    if ops.len() == 0 {
        (contents, Seq::empty())
    } else {
        let (rest, popped) = run_queue(contents, ops.drop_last());
        match ops.last() {
            QueueOp::PushBack(value) => (rest.push(value), popped),
            QueueOp::PopFront => if rest.len() > 0 {
                (rest.drop_first(), popped.push(rest[0]))
            } else {
                (rest, popped)
            },
        }
    }
}

/// The values that `ops` pushes, in order.
pub open spec fn pushed_values<T>(ops: Seq<QueueOp<T>>) -> Seq<T>
    decreases ops.len(),
{
    if ops.len() == 0 {
        Seq::empty()
    } else {
        match ops.last() {
            QueueOp::PushBack(value) => pushed_values(ops.drop_last()).push(value),
            QueueOp::PopFront => pushed_values(ops.drop_last()),
        }
    }
}

/// First in, first out: what was popped, followed by what is left, is what
/// the ring held followed by what was pushed, in the same order.
pub proof fn lemma_queue_fifo<T>(contents: Seq<T>, ops: Seq<QueueOp<T>>)
    ensures
        run_queue(contents, ops).1 + run_queue(contents, ops).0 == contents + pushed_values(ops),
    decreases ops.len(),
{
    if ops.len() > 0 {
        lemma_queue_fifo(contents, ops.drop_last());
        let (rest, popped) = run_queue(contents, ops.drop_last());
        match ops.last() {
            QueueOp::PushBack(value) => {
                assert(popped + rest.push(value) =~= (popped + rest).push(value));
            },
            QueueOp::PopFront => {
                if rest.len() > 0 {
                    assert(popped.push(rest[0]) + rest.drop_first() =~= popped + rest);
                }
            },
        }
    }
}

} // verus!

use vstd::prelude::*;

verus! {

/// A non-reentrant lock around a value. While the lock is held, the value
/// lives in the one guard that `lock` handed out, and nowhere else.
pub struct SpinLock<T> {
    data: Option<T>,
}

/// Exclusive access to the value of a held lock, given back by `unlock`.
/// The lock is released only by handing the guard to `unlock`, not when the
/// guard goes out of scope: a guard that is dropped instead leaves the lock
/// held for good and its value lost.
pub struct SpinLockGuard<T> {
    value: T,
}

impl<T> SpinLock<T> {
    /// Whether a guard is out.
    pub closed spec fn is_locked(&self) -> bool {
        self.data is None
    }

    /// The protected value, while no guard is out.
    pub closed spec fn value(&self) -> T {
        self.data->Some_0
    }

    pub fn new(data: T) -> (r: Self)
        ensures
            !r.is_locked(),
            r.value() == data,
    {
        SpinLock { data: Some(data) }
    }

    /// Takes the lock if it is free: the guard holds the value and the lock
    /// is held. A held lock stays as it is and no second guard comes out.
    pub fn try_lock(&mut self) -> (r: Option<SpinLockGuard<T>>)
        ensures
            !old(self).is_locked() ==> r is Some && r->Some_0.value() == old(self).value()
                && final(self).is_locked(),
            old(self).is_locked() ==> r is None && *final(self) == *old(self),
    {
        match self.data.take() {
            Some(value) => Some(SpinLockGuard { value }),
            None => None,
        }
    }

    /// Takes the lock, which must be free: with one thread of control, a
    /// held lock would never be released and the wait would never end.
    pub fn lock(&mut self) -> (r: SpinLockGuard<T>)
        requires
            !old(self).is_locked(),
        ensures
            r.value() == old(self).value(),
            final(self).is_locked(),
    {
        loop
            invariant
                !self.is_locked(),
                *self == *old(self),
            decreases 1int,
        {
            if let Some(guard) = self.try_lock() {
                return guard;
            }
        }
    }

    /// Releases the lock: the value that the guard holds is the lock's.
    pub fn unlock(&mut self, guard: SpinLockGuard<T>)
        requires
            old(self).is_locked(),
        ensures
            !final(self).is_locked(),
            final(self).value() == guard.value(),
    {
        self.data = Some(guard.value);
    }
}

impl<T> SpinLockGuard<T> {
    /// The value the guard gives access to.
    pub closed spec fn value(&self) -> T {
        self.value
    }

    pub fn as_ref(&self) -> (r: &T)
        ensures
            *r == self.value(),
    {
        &self.value
    }

    /// Mutable access: what is written through it is the guard's value.
    pub fn as_mut(&mut self) -> (r: &mut T)
        ensures
            *r == old(self).value(),
            final(self).value() == *final(r),
    {
        &mut self.value
    }

    /// Replaces the protected value.
    pub fn set(&mut self, value: T)
        ensures
            final(self).value() == value,
    {
        self.value = value;
    }
}

} // verus!

use vstd::prelude::*;

use crate::cell::GLock;
use crate::global::GlobalPermit;

verus! {

/// Exclusive access to one cell's value while the process-wide lock is held.
///
/// The guard owns the permit of the global lock and borrows the value. Its
/// fields drop in order: the borrow first, then the permit, so the lock is
/// released only after the last possible use of the value.
pub struct GLockGuard<'a, T> {
    value: &'a mut T,
    global_guard: GlobalPermit<'a>,
}

impl<'a, T> GLockGuard<'a, T> {
    /// The value as the guard currently sees it.
    pub closed spec fn view(&self) -> T {
        *self.value
    }

    /// The borrow of the cell's value that the guard holds.
    pub closed spec fn borrowed(&self) -> &'a mut T {
        self.value
    }

    /// Once a guard is done with (it is dropped, or never written again), the
    /// value it saw last is the value its cell is left with.
    pub proof fn lemma_release_keeps_value(self)
        requires
            has_resolved(self),
        ensures
            *final(self.borrowed()) == self@,
    {
    }
}

impl<T> GLock<T> {
    /// Pairs an exclusive borrow of this cell's value with the permit of the
    /// global lock, so that the value is reached only while the lock is held.
    pub fn guard<'a>(&'a mut self, global_guard: GlobalPermit<'a>) -> (r: GLockGuard<'a, T>)
        ensures
            r@ == old(self)@,
            final(self)@ == *final(r.borrowed()),
    {
        GLockGuard { value: self.get_mut(), global_guard }
    }
}

impl<'a, T> core::ops::Deref for GLockGuard<'a, T> {
    type Target = T;

    fn deref(&self) -> (r: &T)
        ensures
            *r == self@,
    {
        self.value
    }
}

impl<'a, T> core::ops::DerefMut for GLockGuard<'a, T> {
    fn deref_mut(&mut self) -> (r: &mut T)
        ensures
            *r == old(self)@,
            final(self)@ == *final(r),
            *final(final(self).borrowed()) == *final(old(self).borrowed()),
    {
        self.value
    }
}

} // verus!

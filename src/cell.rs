use vstd::prelude::*;

verus! {

/// Owns one value; access to it is serialised by the single lock that every
/// `GLock` shares.
///
/// Building the cell, borrowing it exclusively and unwrapping it need no lock:
/// exclusive ownership of the cell already rules out any other access.
pub struct GLock<T> {
    inner: T,
}

impl<T> GLock<T> {
    /// The value the cell holds.
    pub closed spec fn view(&self) -> T {
        self.inner
    }

    /// The cell that `new` builds from `value`.
    pub closed spec fn spec_new(value: T) -> GLock<T> {
        GLock { inner: value }
    }

    /// Creates a new cell holding `value`. Takes no lock and never blocks.
    pub fn new(value: T) -> (r: Self)
        ensures
            r == Self::spec_new(value),
            r@ == value,
    {
        GLock { inner: value }
    }

    /// Direct mutable access through an exclusive borrow of the cell, with no
    /// lock taken: whatever is written through the result is what the cell
    /// holds afterwards.
    pub fn get_mut(&mut self) -> (r: &mut T)
        ensures
            *r == old(self)@,
            final(self)@ == *final(r),
    {
        &mut self.inner
    }

    /// A cell built from `value` and never locked gives back exactly `value`
    /// when it is unwrapped.
    pub proof fn lemma_unwrap_returns_initial(value: T)
        ensures
            Self::spec_new(value)@ == value,
    {
    }

    /// Consumes the cell and returns the value it holds, with no lock taken.
    pub fn into_inner(self) -> (r: T)
        ensures
            r == self@,
    {
        self.inner
    }
}

} // verus!

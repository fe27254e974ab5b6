//! [`Alloc`]: an arena-lifetime owning handle to a single allocation.

use vstd::prelude::*;

verus! {

/// An owning handle to a value in an arena, with a lifetime tied to that
/// arena. The value stays where the arena placed it until the arena is
/// reset or dropped.
pub struct Alloc<'a, T> {
    inner: &'a mut T,
}

impl<'a, T> Alloc<'a, T> {
    /// The value the handle owns.
    pub closed spec fn value(&self) -> T {
        *self.inner
    }

    /// Wrap the unique borrow of a freshly placed value.
    pub fn from_mut(inner: &'a mut T) -> (r: Alloc<'a, T>)
        ensures
            r.value() == *old(inner),
    {
        Alloc { inner }
    }

    /// The value.
    pub fn get(&self) -> (r: &T)
        ensures
            *r == self.value(),
    {
        &*self.inner
    }

    /// The value, mutably.
    pub fn as_mut(&mut self) -> (r: &mut T)
        ensures
            *r == old(self).value(),
            final(self).value() == *final(r),
    {
        &mut *self.inner
    }

    /// Consume the handle and return the underlying arena-lifetime borrow;
    /// the value then lives until the arena is reset or dropped.
    pub fn leak(this: Self) -> (r: &'a mut T)
        ensures
            *r == this.value(),
    {
        this.inner
    }
}

} // verus!

//! The allocation error of the library.

use vstd::prelude::*;

verus! {

/// Why an allocation could not be served.
#[derive(Clone, Copy, Debug, PartialEq, Eq, Structural)]
pub enum AllocError {
    /// The backing allocator (or the chunk budget) refused to provide memory,
    /// or the request cannot be placed in any chunk.
    Exhausted,
    /// The requested alignment is at or above the cap of the entry point.
    AlignmentTooLarge,
    /// The requested size overflows the address space.
    CapacityOverflow,
}

impl AllocError {
    /// True iff the request was rejected for its alignment.
    pub fn is_alignment_too_large(&self) -> (r: bool)
        ensures
            r <==> *self == AllocError::AlignmentTooLarge,
    {
        match self {
            AllocError::AlignmentTooLarge => true,
            _ => false,
        }
    }

    /// True iff the request's size overflowed.
    pub fn is_capacity_overflow(&self) -> (r: bool)
        ensures
            r <==> *self == AllocError::CapacityOverflow,
    {
        match self {
            AllocError::CapacityOverflow => true,
            _ => false,
        }
    }
}

/// Unwrap the value of a successful allocation. The panicking allocation
/// entry points forward to their fallible siblings through this helper;
/// it is called only on a result that is known to be `Ok`.
pub fn expect_alloc<T>(r: Result<T, AllocError>) -> (v: T)
    requires
        r is Ok,
    ensures
        r == Ok::<T, AllocError>(v),
{
    r.unwrap()
}

} // verus!

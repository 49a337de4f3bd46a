//! Geometry of private stacks.

use std::ops::Range;

use vstd::prelude::*;

pub mod laws;

verus! {

pub const STACK_ALIGNMENT: usize = 16;

#[derive(Clone, Copy, Debug, PartialEq, Eq, Structural)]
pub enum AllocationError {
    InvalidSize,
    OutOfMemory,
}

/// A size that an allocation with the stack's alignment can have.
pub open spec fn is_stack_size(bytes: usize) -> bool {
    0 < bytes && bytes <= isize::MAX - (STACK_ALIGNMENT - 1)
}

/// One allocated stack.
#[derive(Debug)]
pub struct StackAllocation {
    start: usize,
    size: usize,
}

/// Whether a stack of this size may be asked for.
pub fn check_size(bytes: usize) -> (result: Result<(), AllocationError>)
    ensures
        result == if is_stack_size(bytes) {
            Ok::<(), AllocationError>(())
        } else {
            Err(AllocationError::InvalidSize)
        },
{
    if bytes == 0 || bytes > isize::MAX as usize - (STACK_ALIGNMENT - 1) {
        Err(AllocationError::InvalidSize)
    } else {
        Ok(())
    }
}

impl StackAllocation {
    pub closed spec fn low(&self) -> usize {
        self.start
    }

    pub closed spec fn length(&self) -> usize {
        self.size
    }

    #[verifier::type_invariant]
    spec fn in_address_space(self) -> bool {
        self.start + self.size <= usize::MAX
    }

    /// Takes what the allocator gave for a checked size: the address of the block,
    /// or zero where there was no memory.
    pub fn allocate(bytes: usize, address: usize) -> (result: Result<Self, AllocationError>)
        requires
            address + bytes <= usize::MAX,
        ensures
            !is_stack_size(bytes) ==> result == Err::<Self, AllocationError>(
                AllocationError::InvalidSize,
            ),
            is_stack_size(bytes) && address == 0 ==> result == Err::<Self, AllocationError>(
                AllocationError::OutOfMemory,
            ),
            is_stack_size(bytes) && address != 0 ==> result is Ok && (result->Ok_0).low() == address
                && (result->Ok_0).length() == bytes,
    {
        match check_size(bytes) {
            Ok(()) => {},
            Err(error) => return Err(error),
        }
        if address == 0 {
            return Err(AllocationError::OutOfMemory);
        }
        Ok(StackAllocation { start: address, size: bytes })
    }

    pub fn range(&self) -> (range: Range<usize>)
        ensures
            range.start == self.low(),
            range.end == self.low() + self.length(),
    {
        proof {
            use_type_invariant(self);
        }
        Range { start: self.start, end: self.start + self.size }
    }

    /// Gives the stack up for the life of the process.
    pub fn leak(self) -> (range: Range<usize>)
        ensures
            range.start == self.low(),
            range.end == self.low() + self.length(),
    {
        self.range()
    }
}

} // verus!

//! What the geometry of private stacks promises.

use std::ops::Range;

use vstd::prelude::*;

use crate::owned_context::stack::check_size;
use crate::owned_context::stack::AllocationError;
use crate::owned_context::stack::StackAllocation;

verus! {

/// A stack is never empty and, rounded up to its alignment, fits an allocation; it lies where
/// the allocator gave it, and is as long as it was asked for.
pub proof fn stacks_lie_where_they_were_allocated(
    bytes: usize,
    address: usize,
    checked: Result<(), AllocationError>,
    result: Result<StackAllocation, AllocationError>,
    range: Range<usize>,
    leaked: Range<usize>,
)
    requires
        address + bytes <= usize::MAX,
        call_ensures(check_size, (bytes,), checked),
        call_ensures(StackAllocation::allocate, (bytes, address), result),
        result is Ok ==> call_ensures(StackAllocation::range, (&result->Ok_0,), range),
        result is Ok ==> call_ensures(StackAllocation::leak, (result->Ok_0,), leaked),
    ensures
        checked is Ok <==> 0 < bytes && bytes + 15 <= isize::MAX,
        result is Ok <==> checked is Ok && address != 0,
        result matches Err(error) ==> (error == AllocationError::InvalidSize <==> checked is Err),
        result is Ok ==> range.start == address && range.end == address + bytes && leaked.start
            == address && leaked.end == address + bytes,
{
}

} // verus!

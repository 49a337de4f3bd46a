//! What the phases of an owned thread promise.

use vstd::prelude::*;

use crate::owned_context::enter_runtime;
use crate::owned_context::Phase;

verus! {

/// The runtime is entered from a capture and from nowhere else, and not twice.
pub proof fn the_runtime_is_entered_from_a_capture(
    phase: &mut Phase,
    again: &mut Phase,
    first: bool,
    second: bool,
)
    requires
        call_ensures(enter_runtime, (phase,), first),
        *old(again) == *final(phase),
        call_ensures(enter_runtime, (again,), second),
    ensures
        first <==> *old(phase) == Phase::Captured,
        first ==> *final(phase) == Phase::Runtime,
        !first ==> *final(phase) == *old(phase),
        !second,
{
}

} // verus!

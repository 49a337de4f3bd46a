//! The context of one owned guest thread.

pub mod exit;
pub mod laws;
pub mod native_step;
pub mod stack;
pub mod tls;

use vstd::prelude::*;

verus! {

/// Where an owned thread stands between a capture and its return.
#[derive(Clone, Copy, Debug, PartialEq, Eq, Structural)]
pub enum Phase {
    Idle,
    Captured,
    Runtime,
    Returning,
    Failed,
    Terminating,
}

/// Enters the runtime from a capture, and from nowhere else.
pub fn enter_runtime(phase: &mut Phase) -> (entered: bool)
    ensures
        entered == (*old(phase) == Phase::Captured),
        *final(phase) == if *old(phase) == Phase::Captured {
            Phase::Runtime
        } else {
            *old(phase)
        },
{
    if *phase == Phase::Captured {
        *phase = Phase::Runtime;
        true
    } else {
        false
    }
}

} // verus!

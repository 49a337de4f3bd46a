//! What the operations on shared resources promise.

use vstd::prelude::*;

use crate::rpc::resources::AcquireError;
use crate::rpc::resources::Drain;
use crate::rpc::resources::Lease;
use crate::rpc::resources::Resources;

verus! {

/// A resource is acquired exactly while nothing is closing and nothing failed, and counts one.
pub proof fn acquired_resources_count_one<W>(
    resources: &mut Resources<W>,
    result: Result<Lease, AcquireError>,
    active: usize,
)
    requires
        call_ensures(Resources::<W>::acquire, (resources,), result),
        call_ensures(Resources::<W>::active, (&*final(resources),), active),
    ensures
        result is Ok <==> !old(resources).closing && old(resources).failure is None
            && old(resources).active < usize::MAX,
        result is Ok ==> active == old(resources).active + 1,
        result is Err ==> *final(resources) == *old(resources),
        result matches Err(error) ==> (error == AcquireError::Closed <==> old(resources).closing
            || old(resources).failure is Some),
        *final(resources) == (Resources { active: final(resources).active, ..*old(resources) }),
{
}

/// A released resource counts one less; the last one, and no other, gives out the waiter.
pub proof fn the_last_release_gives_out_the_waiter<W>(
    resources: &mut Resources<W>,
    lease: Lease,
    woken: Option<W>,
)
    requires
        old(resources).active > 0,
        call_ensures(Resources::<W>::release, (resources, lease), woken),
    ensures
        final(resources).active == old(resources).active - 1,
        old(resources).active == 1 ==> woken == old(resources).waiter && final(resources).waiter
            is None,
        old(resources).active > 1 ==> woken is None && final(resources).waiter
            == old(resources).waiter,
        final(resources).closing == old(resources).closing,
        final(resources).failure == old(resources).failure,
{
}

/// Draining waits while something is in use, finishes with the first failure once nothing is,
/// and does nothing before the resources are closed.
pub proof fn drains_finish_when_nothing_is_in_use<W>(
    closed: &mut Resources<W>,
    resources: &mut Resources<W>,
    waiter: W,
    drain: Drain<W>,
)
    requires
        call_ensures(Resources::<W>::drain, (resources, waiter), drain),
        call_ensures(Resources::<W>::close, (closed,), ()),
    ensures
        *final(closed) == (Resources { closing: true, ..*old(closed) }),
        drain is Open <==> !old(resources).closing,
        drain is Pending <==> old(resources).closing && old(resources).active > 0,
        drain matches Drain::Pending(replaced) ==> replaced == old(resources).waiter
            && final(resources).waiter == Some(waiter),
        drain matches Drain::Finished(result) ==> (match result {
            Ok(()) => old(resources).failure is None,
            Err(errno) => old(resources).failure == Some(errno),
        }),
        !(drain is Pending) ==> *final(resources) == *old(resources),
        final(resources).active == old(resources).active,
        final(resources).failure == old(resources).failure,
        final(resources).closing == old(resources).closing,
{
}

/// The first failure is kept, and changes nothing else.
pub proof fn the_first_failure_is_kept<W>(
    resources: &mut Resources<W>,
    lease: Lease,
    errno: i32,
)
    requires
        call_ensures(Resources::<W>::failed, (resources, &lease, errno), ()),
    ensures
        old(resources).failure is None ==> final(resources).failure == Some(errno),
        old(resources).failure is Some ==> final(resources).failure == old(resources).failure,
        *final(resources) == (Resources { failure: final(resources).failure, ..*old(resources) }),
{
}

/// Fresh resources are open, unused and unwaited for.
pub proof fn fresh_resources_can_be_acquired<W>(
    fresh: Resources<W>,
    resources: &mut Resources<W>,
    result: Result<Lease, AcquireError>,
)
    requires
        call_ensures(Resources::<W>::new, (), fresh),
        *old(resources) == fresh,
        call_ensures(Resources::<W>::acquire, (resources,), result),
    ensures
        result is Ok,
        final(resources).active == 1,
        fresh.waiter is None,
        fresh.failure is None,
        !fresh.closing,
{
}

} // verus!

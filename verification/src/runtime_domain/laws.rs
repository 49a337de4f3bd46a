//! What the depths of a thread promise.

use vstd::prelude::*;

use crate::runtime_domain::Domain;

verus! {

/// Each scope changes its own depth by one and is undone by its end.
pub proof fn scopes_are_undone(
    entered: &mut Domain,
    left: &mut Domain,
    installing: &mut Domain,
    installed: &mut Domain,
    allocating: &mut Domain,
    allocated: &mut Domain,
)
    requires
        *old(installing) == *old(entered),
        *old(allocating) == *old(entered),
        old(entered).depth < u64::MAX,
        old(entered).installation < u64::MAX,
        old(entered).allocation < u64::MAX,
        call_ensures(Domain::enter, (entered,), ()),
        *old(left) == *final(entered),
        call_ensures(Domain::leave, (left,), ()),
        call_ensures(Domain::installation_enter, (installing,), ()),
        *old(installed) == *final(installing),
        call_ensures(Domain::installation_leave, (installed,), ()),
        call_ensures(Domain::allocation_enter, (allocating,), ()),
        *old(allocated) == *final(allocating),
        call_ensures(Domain::allocation_leave, (allocated,), ()),
    ensures
        final(entered).depth == old(entered).depth + 1,
        final(entered).installation == old(entered).installation,
        final(entered).allocation == old(entered).allocation,
        final(installing).installation == old(entered).installation + 1,
        final(installing).depth == old(entered).depth,
        final(installing).allocation == old(entered).allocation,
        final(allocating).allocation == old(entered).allocation + 1,
        final(allocating).depth == old(entered).depth,
        final(allocating).installation == old(entered).installation,
        *final(left) == *old(entered),
        *final(installed) == *old(entered),
        *final(allocated) == *old(entered),
{
}

/// An installation goes on exactly inside its scope, and what is allocated is the runtime's
/// exactly inside the runtime or the scope of an allocation.
pub proof fn depths_tell_where_a_thread_is(
    domain: Domain,
    installing: bool,
    allocating: bool,
    last: bool,
)
    requires
        call_ensures(Domain::installation_active, (&domain,), installing),
        call_ensures(Domain::allocation_active, (&domain,), allocating),
        call_ensures(Domain::terminal_clock_scope, (&domain,), last),
    ensures
        installing <==> domain.installation > 0,
        allocating <==> domain.depth > 0 || domain.allocation > 0,
        last <==> domain.depth == 1,
{
}

/// A handler that entered its two scopes knows whether it interrupted the runtime; a thread
/// that is less deep knows nothing.
pub proof fn two_scopes_tell_the_runtime(
    first: &mut Domain,
    second: &mut Domain,
    nested_callback: bool,
    early: Option<bool>,
    result: Option<bool>,
)
    requires
        old(first).depth <= u64::MAX - 2,
        call_ensures(Domain::enter, (first,), ()),
        *old(second) == *final(first),
        call_ensures(Domain::enter, (second,), ()),
        call_ensures(
            Domain::interrupted_runtime_in_clocked_preload_handler,
            (&*final(first), nested_callback),
            early,
        ),
        call_ensures(
            Domain::interrupted_runtime_in_clocked_preload_handler,
            (&*final(second), nested_callback),
            result,
        ),
    ensures
        result == Some(old(first).depth > 0 || nested_callback),
        old(first).depth == 0 ==> early is None,
{
}

} // verus!

//! What transactions on the bases of a thread promise.

use vstd::prelude::*;

use crate::owned_context::Phase;
use crate::owned_context::tls::bases;
use crate::owned_context::tls::completion;
use crate::owned_context::tls::enter;
use crate::owned_context::tls::explained;
use crate::owned_context::tls::owned;
use crate::owned_context::tls::publish;
use crate::owned_context::tls::request;
use crate::owned_context::tls::Observation;
use crate::owned_context::tls::State;

verus! {

/// The bases are handed out exactly to the thread that owns them, inside the runtime, while
/// they are deferred and the runtime has a base of its own.
pub proof fn bases_are_handed_to_their_owner(
    state: State,
    tid: i64,
    phase: Phase,
    mine: bool,
    result: Result<[u64; 2], &'static str>,
)
    requires
        call_ensures(owned, (state, tid, phase), mine),
        call_ensures(bases, (state, tid, phase), result),
    ensures
        mine <==> {
            &&& tid > 0
            &&& state.owner == tid
            &&& phase == Phase::Runtime
            &&& state.phase == 2
            &&& state.deferred == 1
            &&& state.private@[0] != 0
            &&& state.private@[0] != state.guest@[0]
        },
        result is Ok <==> mine,
        result matches Ok(pair) ==> pair@ == state.guest@,
{
}

/// The kernel is asked exactly by the owner, for one of the four operations, and never to make
/// the runtime's own base the guest's.
pub proof fn the_runtimes_base_is_never_given_away(
    before: State,
    tid: i64,
    phase: Phase,
    operation: u64,
    argument: u64,
    mine: bool,
    asked: Result<(), &'static str>,
    result: Result<(), &'static str>,
)
    requires
        call_ensures(owned, (before, tid, phase), mine),
        call_ensures(request, (before, operation, argument), asked),
        call_ensures(enter, (before, tid, phase, operation, argument), result),
    ensures
        asked is Ok <==> 0x1001 <= operation <= 0x1004 && !(operation == 0x1002 && argument
            == before.private@[0]),
        result is Ok <==> mine && asked is Ok,
{
}

/// A reply of the kernel is believed exactly where it is a success or an error, of a known
/// operation, and the bases are what it explains: changed by a set that succeeded, in the
/// place that it names, and by nothing else.
pub proof fn replies_are_believed_where_they_explain_the_bases(
    before: State,
    operation: u64,
    argument: u64,
    observed: Observation,
    result: Result<[u64; 2], &'static str>,
)
    requires
        call_ensures(completion, (before, operation, argument, observed), result),
    ensures
        ({
            let fs = if observed.result == 0 && operation == 0x1002 {
                argument
            } else {
                before.guest@[0]
            };
            let gs = if observed.result == 0 && operation == 0x1001 {
                argument
            } else {
                before.guest@[1]
            };
            &&& result is Ok <==> -4095 <= observed.result <= 0 && (observed.result == 0 ==> 0x1001
                <= operation <= 0x1004) && observed.guest@[0] == fs && observed.guest@[1] == gs
            &&& result matches Ok(pair) ==> pair@[0] == fs && pair@[1] == gs
        }),
{
    let expected = explained(before.guest@, operation, argument, observed.result);
    assert(expected.len() == 2);
    if observed.guest@[0] == expected[0] && observed.guest@[1] == expected[1] {
        assert(observed.guest@ =~= expected);
    }
}

/// What is believed is published exactly where nobody changed the bases meanwhile: only the
/// guest's bases change, and the kernel's result is handed on.
pub proof fn believed_bases_are_published(
    control: &mut State,
    before: State,
    operation: u64,
    argument: u64,
    observed: Observation,
    believed: Result<[u64; 2], &'static str>,
    result: Result<i64, &'static str>,
)
    requires
        call_ensures(completion, (before, operation, argument, observed), believed),
        call_ensures(publish, (control, before, operation, argument, observed), result),
    ensures
        result is Ok <==> believed is Ok && *old(control) == before,
        result matches Ok(value) ==> value == observed.result && final(control).guest@
            == observed.guest@,
        result is Err ==> *final(control) == *old(control),
        final(control).private == old(control).private,
        final(control).owner == old(control).owner,
        final(control).phase == old(control).phase,
        final(control).deferred == old(control).deferred,
{
}

} // verus!

//! What the operations of a clock promise.

use vstd::prelude::*;

use crate::runtime::clock::Boundary;
use crate::runtime::clock::ClockError;
use crate::runtime::clock::Creation;
use crate::runtime::clock::RcbClock;
use crate::runtime::clock::Sample;

verus! {

/// At a paused boundary guest time is what the counter reads, whatever the clock remembers
/// of callbacks: it grows exactly as the reading does.
pub proof fn paused_time_is_the_reading(
    clock: RcbClock,
    other: RcbClock,
    value: u64,
    later: u64,
    result: Result<u64, ClockError>,
    later_result: Result<u64, ClockError>,
)
    requires
        call_ensures(
            RcbClock::read_guest_rcb_clock,
            (&clock, Boundary::Paused, Ok(Some(value))),
            result,
        ),
        call_ensures(
            RcbClock::read_guest_rcb_clock,
            (&other, Boundary::Paused, Ok(Some(later))),
            later_result,
        ),
    ensures
        result is Ok,
        later_result is Ok,
        result->Ok_0 == value,
        later_result->Ok_0 - result->Ok_0 == later - value,
{
}

/// Outside callbacks guest time runs with the counter, behind it by what was deducted.
pub proof fn free_time_runs_with_the_counter(
    clock: RcbClock,
    value: u64,
    later: u64,
    result: Result<u64, ClockError>,
    later_result: Result<u64, ClockError>,
)
    requires
        clock.depth == 0,
        clock.deduction <= value <= later,
        call_ensures(
            RcbClock::read_guest_rcb_clock,
            (&clock, Boundary::Inactive, Ok(Some(value))),
            result,
        ),
        call_ensures(
            RcbClock::read_guest_rcb_clock,
            (&clock, Boundary::Inactive, Ok(Some(later))),
            later_result,
        ),
    ensures
        result is Ok,
        later_result is Ok,
        result->Ok_0 + clock.deduction == value,
        later_result->Ok_0 - result->Ok_0 == later - value,
{
}

/// Inside a callback guest time stands still: it is what it was at the entry, whatever the
/// counter reads since.
pub proof fn callback_time_stands_still(
    clock: RcbClock,
    value: u64,
    later: u64,
    result: Result<u64, ClockError>,
    later_result: Result<u64, ClockError>,
)
    requires
        clock.depth > 0,
        clock.deduction <= clock.entry <= value,
        clock.entry <= later,
        call_ensures(
            RcbClock::read_guest_rcb_clock,
            (&clock, Boundary::Inactive, Ok(Some(value))),
            result,
        ),
        call_ensures(
            RcbClock::read_guest_rcb_clock,
            (&clock, Boundary::Inactive, Ok(Some(later))),
            later_result,
        ),
    ensures
        result == later_result,
        result is Ok,
        result->Ok_0 + clock.deduction == clock.entry,
{
}

/// Guest time is never ahead of the counter and never runs backwards, even where the counter
/// reads less than was deducted.
pub proof fn guest_time_never_runs_backwards(
    clock: RcbClock,
    boundary: Boundary,
    value: u64,
    later: u64,
    result: Result<u64, ClockError>,
    later_result: Result<u64, ClockError>,
)
    requires
        boundary != Boundary::Counting,
        value <= later,
        call_ensures(
            RcbClock::read_guest_rcb_clock,
            (&clock, boundary, Ok(Some(value))),
            result,
        ),
        call_ensures(
            RcbClock::read_guest_rcb_clock,
            (&clock, boundary, Ok(Some(later))),
            later_result,
        ),
    ensures
        result is Ok,
        later_result is Ok,
        result->Ok_0 <= value,
        result->Ok_0 <= later_result->Ok_0,
{
}

/// A clock is read exactly outside counting, over a counter that reads; the failure says
/// what was missing.
pub proof fn clocks_are_read_only_in_exclusion(
    clock: RcbClock,
    boundary: Boundary,
    sample: Sample,
    result: Result<u64, ClockError>,
)
    requires
        call_ensures(RcbClock::read_guest_rcb_clock, (&clock, boundary, sample), result),
    ensures
        result is Ok <==> boundary != Boundary::Counting && (sample matches Ok(Some(_))),
        boundary == Boundary::Counting <==> result == Err::<u64, ClockError>(
            ClockError::ReadOutsideExclusion,
        ),
        boundary != Boundary::Counting ==> (sample matches Err(error) ==> result == Err::<
            u64,
            ClockError,
        >(ClockError::Read(error))),
        result == Err::<u64, ClockError>(ClockError::Unavailable) <==> boundary == Boundary::Paused
            && sample == Ok::<Option<u64>, i32>(None),
        result == Err::<u64, ClockError>(ClockError::Unsupported) <==> boundary
            == Boundary::Inactive && sample == Ok::<Option<u64>, i32>(None),
{
}

/// Every callback that is entered is one deeper; only the outermost one remembers the
/// reading. A paused boundary needs nothing, a counting one refuses.
pub proof fn entries_are_remembered_once(
    clock: &mut RcbClock,
    boundary: Boundary,
    sample: Sample,
    result: Result<(), ClockError>,
)
    requires
        call_ensures(RcbClock::enter_rcb_handler, (clock, boundary, sample), result),
    ensures
        result is Ok <==> boundary == Boundary::Paused || (boundary == Boundary::Inactive
            && sample is Ok),
        boundary != Boundary::Inactive || result is Err ==> *final(clock) == *old(clock),
        boundary == Boundary::Counting ==> result == Err::<(), ClockError>(
            ClockError::EnteredBeforeExclusion,
        ),
        boundary == Boundary::Inactive ==> (sample matches Err(error) ==> result == Err::<
            (),
            ClockError,
        >(ClockError::Read(error))),
        boundary == Boundary::Inactive && result is Ok ==> {
            &&& old(clock).depth < u32::MAX ==> final(clock).depth == old(clock).depth + 1
            &&& final(clock).depth > 0
            &&& old(clock).depth == 0 && (sample matches Ok(Some(_))) ==> sample == Ok::<
                Option<u64>,
                i32,
            >(Some(final(clock).entry))
            &&& old(clock).depth > 0 || sample == Ok::<Option<u64>, i32>(None)
                ==> final(clock).entry == old(clock).entry
            &&& final(clock).deduction == old(clock).deduction
            &&& final(clock).present == old(clock).present
            &&& final(clock).owner == old(clock).owner
            &&& final(clock).unavailable == old(clock).unavailable
        },
{
}

/// Leaving undoes entering by one, and says exactly of the outermost callback that it was
/// that. What was never entered cannot be left.
pub proof fn leaving_undoes_entering(
    clock: &mut RcbClock,
    boundary: Boundary,
    result: Result<bool, ClockError>,
)
    requires
        call_ensures(RcbClock::leave_rcb_handler, (clock, boundary), result),
    ensures
        boundary == Boundary::Inactive && old(clock).depth > 0 <==> final(clock).depth + 1
            == old(clock).depth,
        *final(clock) == (RcbClock { depth: final(clock).depth, ..*old(clock) }),
        result == Ok::<bool, ClockError>(true) <==> boundary == Boundary::Inactive
            && old(clock).depth == 1,
        result == Ok::<bool, ClockError>(false) <==> boundary == Boundary::Paused || (boundary
            == Boundary::Inactive && old(clock).depth > 1),
        result == Err::<bool, ClockError>(ClockError::DepthUnderflow) <==> boundary
            == Boundary::Inactive && old(clock).depth == 0,
        result == Err::<bool, ClockError>(ClockError::RestartedBeforeTeardown) <==> boundary
            == Boundary::Counting,
{
}

/// What is deducted is what the counter read since the entry, added to what was deducted
/// before; a failed reading deducts nothing.
pub proof fn exactly_the_callback_is_deducted(
    clock: &mut RcbClock,
    sample: Sample,
    result: Result<(), ClockError>,
)
    requires
        call_ensures(RcbClock::deduct_callback, (clock, sample), result),
    ensures
        result is Ok <==> sample is Ok,
        sample matches Err(error) ==> result == Err::<(), ClockError>(ClockError::Read(error)),
        !(sample matches Ok(Some(_))) ==> *final(clock) == *old(clock),
        sample matches Ok(Some(value)) ==> {
            &&& final(clock).entry == 0
            &&& final(clock).deduction >= old(clock).deduction
            &&& old(clock).entry <= value && old(clock).deduction + (value - old(clock).entry)
                <= u64::MAX ==> final(clock).deduction - old(clock).deduction == value
                - old(clock).entry
            &&& value <= old(clock).entry ==> final(clock).deduction == old(clock).deduction
            &&& old(clock).entry <= value && old(clock).deduction + (value - old(clock).entry)
                > u64::MAX ==> final(clock).deduction == u64::MAX
        },
        *final(clock) == (RcbClock {
            deduction: final(clock).deduction,
            entry: final(clock).entry,
            ..*old(clock)
        }),
{
}

/// A callback takes no guest time: what is read after it goes on from what was read when it
/// was entered, for exactly as long as the counter went on after it.
pub proof fn time_goes_on_where_the_callback_was_entered(
    entered: &mut RcbClock,
    left: &mut RcbClock,
    deducted: &mut RcbClock,
    enter: u64,
    leave: u64,
    later: u64,
    before: Result<u64, ClockError>,
    after: Result<u64, ClockError>,
    entry: Result<(), ClockError>,
    outermost: Result<bool, ClockError>,
    deduction: Result<(), ClockError>,
)
    requires
        old(entered).depth == 0,
        old(entered).deduction <= enter <= leave <= later,
        call_ensures(
            RcbClock::read_guest_rcb_clock,
            (&*old(entered), Boundary::Inactive, Ok(Some(enter))),
            before,
        ),
        call_ensures(
            RcbClock::enter_rcb_handler,
            (entered, Boundary::Inactive, Ok(Some(enter))),
            entry,
        ),
        *old(left) == *final(entered),
        call_ensures(RcbClock::leave_rcb_handler, (left, Boundary::Inactive), outermost),
        *old(deducted) == *final(left),
        call_ensures(RcbClock::deduct_callback, (deducted, Ok(Some(leave))), deduction),
        call_ensures(
            RcbClock::read_guest_rcb_clock,
            (&*final(deducted), Boundary::Inactive, Ok(Some(later))),
            after,
        ),
    ensures
        entry is Ok,
        outermost == Ok::<bool, ClockError>(true),
        deduction is Ok,
        before is Ok,
        after is Ok,
        after->Ok_0 - before->Ok_0 == later - leave,
{
}

/// A clock is bound anew only outside boundaries and to a thread that there is; it then
/// knows of no counter and of nothing spent, but the callbacks that are active stay so.
pub proof fn rebinding_forgets_the_counter(
    clock: &mut RcbClock,
    boundary: Boundary,
    owner: i32,
    result: Result<(), ClockError>,
    foreign: bool,
)
    requires
        call_ensures(RcbClock::initialize_rcb_clock, (clock, boundary, owner), result),
        call_ensures(RcbClock::is_foreign, (&*final(clock), owner), foreign),
    ensures
        result is Ok <==> boundary == Boundary::Inactive && owner > 0,
        result is Err ==> *final(clock) == *old(clock),
        result == Err::<(), ClockError>(ClockError::RebindActive) <==> boundary
            != Boundary::Inactive,
        result == Err::<(), ClockError>(ClockError::OwnerUnknown) <==> boundary
            == Boundary::Inactive && owner <= 0,
        result is Ok ==> {
            &&& !foreign
            &&& final(clock).owner == owner
            &&& !final(clock).present
            &&& final(clock).unavailable
            &&& final(clock).entry == 0
            &&& final(clock).deduction == 0
            &&& final(clock).depth == old(clock).depth
        },
{
}

/// A clock is foreign to every thread but its own.
pub proof fn clocks_have_one_owner(clock: RcbClock, owner: i32, foreign: bool)
    requires
        call_ensures(RcbClock::is_foreign, (&clock, owner), foreign),
    ensures
        foreign <==> clock.owner != owner,
{
}

/// A counter that was made is there, starts with nothing deducted, and inside a callback
/// counts from what it reads at once. Only one that was asked for must be made and
/// published.
pub proof fn counters_that_were_asked_for_are_needed(
    clock: &mut RcbClock,
    creation: Creation,
    requested: bool,
    result: Result<(), ClockError>,
)
    requires
        call_ensures(RcbClock::initialized, (clock, creation, requested), result),
    ensures
        creation is Failed ==> *final(clock) == *old(clock) && (result is Err <==> requested) && (
        result is Err ==> result == Err::<(), ClockError>(ClockError::CreateFailed)),
        creation matches Creation::Created { sample, published } ==> {
            let unread = old(clock).depth != 0 && sample is Err;
            &&& result is Ok <==> !unread && (requested ==> published)
            &&& unread ==> *final(clock) == *old(clock) && (sample matches Err(error) ==> result
                == Err::<(), ClockError>(ClockError::Read(error)))
            &&& !unread ==> final(clock).present
            &&& !unread && requested && !published ==> result == Err::<(), ClockError>(
                ClockError::PublishFailed,
            ) && *final(clock) == (RcbClock { present: true, ..*old(clock) })
            &&& result is Ok ==> {
                &&& !final(clock).unavailable
                &&& final(clock).deduction == 0
                &&& old(clock).depth == 0 ==> final(clock).entry == 0
                &&& old(clock).depth != 0 ==> sample == Ok::<u64, i32>(final(clock).entry)
            }
        },
        final(clock).owner == old(clock).owner,
        final(clock).depth == old(clock).depth,
{
}

} // verus!

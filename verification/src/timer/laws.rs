//! What the operations of a timer promise, one by one and together.

use vstd::prelude::*;

use crate::timer::check_access;
use crate::timer::check_borrow;
use crate::timer::initialize;
use crate::timer::initialize_owned;
use crate::timer::Decision;
use crate::timer::Errno;
use crate::timer::Generation;
use crate::timer::InstallError;
use crate::timer::InterruptionResolution;
use crate::timer::ModeledInterruption;
use crate::timer::NotificationError;
use crate::timer::Observation;
use crate::timer::OwnedTimer;
use crate::timer::OwnedTimerPosition;
use crate::timer::ResolutionQuestion;
use crate::timer::ResolutionReply;
use crate::timer::StageQuestion;
use crate::timer::StageReply;
use crate::timer::Ticket;
use crate::timer::TimerSchedule;

verus! {

// ---------------------------------------------------------------------------
// Observations and deliveries
// ---------------------------------------------------------------------------

/// A delivery that an observation causes is at the observed position, under the target
/// and the suffix that were staged. It uses up the request and nothing else.
pub proof fn deliveries_are_where_they_were_observed(
    timer: &mut OwnedTimer,
    observation: Observation,
    result: Result<Option<OwnedTimerPosition>, Errno>,
)
    requires
        old(timer).interrupted is None,
        old(timer).request is Some,
        call_ensures(
            OwnedTimer::advance,
            (timer, observation, Some(Decision::Deliver)),
            result,
        ),
    ensures
        result matches Ok(Some(position)) && {
            &&& position.rip == observation.rip
            &&& position.clock == observation.clock
            &&& position.sequence == observation.sequence
            &&& position.generation == observation.generation.number
            &&& position.target == (old(timer).request->0).target
            &&& position.suffix == (old(timer).request->0).suffix
        },
        final(timer).request is None,
        final(timer).owner == old(timer).owner,
        final(timer).window == old(timer).window,
        final(timer).delivered == old(timer).delivered,
        final(timer).interruption_sequence == old(timer).interruption_sequence,
        final(timer).interrupted is None,
{
}

/// Two observations that differ anywhere are delivered at different positions.
pub proof fn deliveries_tell_observations_apart(
    timer: &mut OwnedTimer,
    twin: &mut OwnedTimer,
    observation: Observation,
    other: Observation,
    result: Result<Option<OwnedTimerPosition>, Errno>,
    twin_result: Result<Option<OwnedTimerPosition>, Errno>,
)
    requires
        old(timer).interrupted is None,
        old(timer).request is Some,
        *old(twin) == *old(timer),
        observation != other,
        call_ensures(
            OwnedTimer::advance,
            (timer, observation, Some(Decision::Deliver)),
            result,
        ),
        call_ensures(OwnedTimer::advance, (twin, other, Some(Decision::Deliver)), twin_result),
    ensures
        result != twin_result,
        *final(timer) == *final(twin),
{
}

/// A step delivers nothing: the request goes on from the observation, under its
/// generation, its target and its suffix.
pub proof fn steps_carry_the_request_on(
    timer: &mut OwnedTimer,
    observation: Observation,
    result: Result<Option<OwnedTimerPosition>, Errno>,
)
    requires
        old(timer).interrupted is None,
        old(timer).request is Some,
        call_ensures(OwnedTimer::advance, (timer, observation, Some(Decision::Step)), result),
    ensures
        result == Ok::<Option<OwnedTimerPosition>, Errno>(None),
        final(timer).request matches Some(next) && {
            let request = old(timer).request->0;
            &&& next.ticket.generation == request.ticket.generation
            &&& next.ticket.sequence == observation.sequence
            &&& next.clock == observation.clock
            &&& next.target == request.target
            &&& next.suffix == request.suffix
            &&& next.immediate == request.immediate
        },
        *final(timer) == (OwnedTimer { request: final(timer).request, ..*old(timer) }),
{
}

/// An observation is refused exactly while an interruption is open, without a request,
/// or where the controller refuses it, and then nothing changes.
pub proof fn refused_observations_change_nothing(
    timer: &mut OwnedTimer,
    observation: Observation,
    reply: Option<Decision>,
    result: Result<Option<OwnedTimerPosition>, Errno>,
)
    requires
        call_ensures(OwnedTimer::advance, (timer, observation, reply), result),
    ensures
        result is Err <==> old(timer).interrupted is Some || old(timer).request is None
            || reply is None,
        result is Err ==> *final(timer) == *old(timer),
        old(timer).interrupted is Some ==> result == Err::<Option<OwnedTimerPosition>, Errno>(
            Errno::EBUSY,
        ),
        old(timer).interrupted is None && result is Err ==> result == Err::<
            Option<OwnedTimerPosition>,
            Errno,
        >(Errno::EINVAL),
{
}

/// The controller is told of an observation exactly where one that it decides is taken.
pub proof fn observations_that_are_told_are_taken(
    timer: &mut OwnedTimer,
    told: bool,
    observation: Observation,
    decision: Decision,
    result: Result<Option<OwnedTimerPosition>, Errno>,
)
    requires
        call_ensures(OwnedTimer::may_advance, (&*old(timer),), told),
        call_ensures(OwnedTimer::advance, (timer, observation, Some(decision)), result),
    ensures
        told <==> result is Ok,
{
}

/// An immediate request is delivered where it is asked for, at its own target, once.
pub proof fn immediate_requests_are_delivered_in_place(
    timer: &mut OwnedTimer,
    pc: u64,
    clock: u64,
    result: Result<Option<OwnedTimerPosition>, Errno>,
)
    requires
        call_ensures(OwnedTimer::immediate, (timer, pc, clock), result),
    ensures
        result matches Ok(Some(position)) ==> {
            let request = old(timer).request->0;
            &&& old(timer).interrupted is None
            &&& old(timer).request is Some
            &&& request.immediate
            &&& clock == request.target
            &&& position.rip == pc
            &&& position.clock == clock
            &&& position.target == clock
            &&& position.suffix == request.suffix
            &&& position.generation == request.ticket.generation.number
            &&& position.sequence == 0
            &&& *final(timer) == (OwnedTimer { request: None, ..*old(timer) })
        },
        old(timer).interrupted is None && (old(timer).request matches Some(request)
            && request.immediate && clock == request.target) ==> result matches Ok(Some(_)),
        !(result matches Ok(Some(_))) ==> *final(timer) == *old(timer),
        result == Err::<Option<OwnedTimerPosition>, Errno>(Errno::EBUSY)
            <==> old(timer).interrupted is Some,
        result == Err::<Option<OwnedTimerPosition>, Errno>(Errno::EINVAL)
            <==> old(timer).interrupted is None && (old(timer).request matches Some(request)
            && request.immediate && clock != request.target),
        result matches Err(error) ==> error == Errno::EBUSY || error == Errno::EINVAL,
{
}

/// What is published is what the window shows, until the window is closed.
pub proof fn published_deliveries_are_shown_until_the_window_closes(
    timer: &mut OwnedTimer,
    closed: &mut OwnedTimer,
    position: OwnedTimerPosition,
    result: Result<(), Errno>,
)
    requires
        call_ensures(OwnedTimer::publish_delivery, (timer, position), result),
        *old(closed) == *final(timer),
        call_ensures(OwnedTimer::close_window, (closed,), ()),
    ensures
        result is Ok <==> old(timer).interrupted is None,
        result is Ok ==> final(timer).delivered == Some(position),
        result is Err ==> result == Err::<(), Errno>(Errno::EBUSY) && *final(timer) == *old(timer),
        *final(timer) == (OwnedTimer { delivered: final(timer).delivered, ..*old(timer) }),
        final(closed).delivered is None,
        final(closed).window is None,
        *final(closed) == (OwnedTimer { delivered: None, window: None, ..*old(timer) }),
{
}

// ---------------------------------------------------------------------------
// Schedules
// ---------------------------------------------------------------------------

/// Outside interruptions a schedule is staged exactly in a window, precisely, in branches
/// that the clock can still count, and where the controller arms it. The request then
/// starts from the clock of the window, and fires as many branches later.
pub proof fn schedules_start_from_their_window(
    timer: &mut OwnedTimer,
    rcbs: u64,
    suffix: u64,
    precise: bool,
    reply: StageReply,
    result: Result<(), Errno>,
)
    requires
        old(timer).interrupted is None,
        call_ensures(
            OwnedTimer::stage,
            (timer, TimerSchedule::RcbsAndInstructions(rcbs, suffix), precise, reply),
            result,
        ),
    ensures
        result is Ok <==> (old(timer).window matches Some((_, clock)) && precise && clock + rcbs
            <= u64::MAX && reply is Armed),
        result is Ok ==> {
            let clock = (old(timer).window->0).1;
            &&& reply matches StageReply::Armed(generation, decision)
            &&& final(timer).request matches Some(request)
            &&& request.target == clock + rcbs
            &&& request.suffix == suffix
            &&& request.clock == clock
            &&& request.ticket.generation == generation
            &&& request.ticket.sequence == 0
            &&& request.immediate <==> decision == Decision::Deliver
        },
        result is Err && old(timer).window is Some ==> final(timer).request is None,
        old(timer).window is None ==> *final(timer) == *old(timer),
        *final(timer) == (OwnedTimer { request: final(timer).request, ..*old(timer) }),
{
}

/// Branches alone are branches with no further instruction, whatever the timer and the
/// controller say, and a number of nanoseconds is never staged.
pub proof fn branches_alone_have_no_suffix(
    timer: &mut OwnedTimer,
    twin: &mut OwnedTimer,
    timed: &mut OwnedTimer,
    rcbs: u64,
    nanoseconds: u64,
    precise: bool,
    reply: StageReply,
    result: Result<(), Errno>,
    twin_result: Result<(), Errno>,
    timed_result: Result<(), Errno>,
)
    requires
        *old(twin) == *old(timer),
        *old(timed) == *old(timer),
        call_ensures(
            OwnedTimer::stage,
            (timer, TimerSchedule::Rcbs(rcbs), precise, reply),
            result,
        ),
        call_ensures(
            OwnedTimer::stage,
            (twin, TimerSchedule::RcbsAndInstructions(rcbs, 0), precise, reply),
            twin_result,
        ),
        call_ensures(
            OwnedTimer::stage,
            (timed, TimerSchedule::Time(nanoseconds), precise, reply),
            timed_result,
        ),
    ensures
        result == twin_result,
        *final(timer) == *final(twin),
        timed_result is Err,
        old(timer).interrupted is None && old(timer).window is Some ==> final(timed).request
            is None,
{
}

/// Each refusal of a schedule has its reason.
pub proof fn refused_schedules_name_the_reason(
    timer: &mut OwnedTimer,
    rcbs: u64,
    suffix: u64,
    precise: bool,
    reply: StageReply,
    result: Result<(), Errno>,
)
    requires
        old(timer).interrupted is None,
        call_ensures(
            OwnedTimer::stage,
            (timer, TimerSchedule::RcbsAndInstructions(rcbs, suffix), precise, reply),
            result,
        ),
    ensures
        result matches Err(error) ==> {
            let asked = old(timer).request matches Some(request) && !request.immediate;
            &&& old(timer).window is None ==> error == Errno::EOPNOTSUPP
            &&& old(timer).window is Some && asked && reply == StageReply::CancelRefused ==> error
                == Errno::EINVAL
            &&& old(timer).window is Some && !(asked && reply == StageReply::CancelRefused)
                && !precise ==> error == Errno::EOPNOTSUPP
            &&& old(timer).window is Some && !(asked && reply == StageReply::CancelRefused)
                && precise ==> error == Errno::EOVERFLOW
        },
{
}

/// The controller is asked to cancel exactly the request that it still counts for, and to
/// arm exactly what the timer then holds.
pub proof fn questions_say_what_is_staged(
    timer: &mut OwnedTimer,
    question: StageQuestion,
    schedule: TimerSchedule,
    precise: bool,
    generation: Generation,
    decision: Decision,
    result: Result<(), Errno>,
)
    requires
        call_ensures(
            OwnedTimer::stage_question,
            (&*old(timer), schedule, precise),
            question,
        ),
        call_ensures(
            OwnedTimer::stage,
            (timer, schedule, precise, StageReply::Armed(generation, decision)),
            result,
        ),
    ensures
        old(timer).interrupted is Some || old(timer).window is None ==> question.cancel is None
            && question.arm is None,
        old(timer).interrupted is None && old(timer).window is Some ==> {
            &&& question.arm is Some <==> result is Ok
            &&& question.cancel is Some <==> (old(timer).request matches Some(request)
                && !request.immediate)
            &&& question.cancel is Some ==> question.cancel->0 == (
            old(timer).request->0).ticket.generation
            &&& question.arm matches Some(armed) ==> {
                let request = final(timer).request->0;
                &&& armed.target == request.target
                &&& armed.suffix == request.suffix
                &&& armed.clock == request.clock
                &&& armed.clock == (old(timer).window->0).1
                &&& armed.target == armed.clock + armed.rcbs
            }
        },
{
}

/// What is staged is what is delivered: between a schedule and its delivery the target
/// and the suffix stay as they were asked for.
pub proof fn schedules_reach_their_delivery(
    timer: &mut OwnedTimer,
    stepped: &mut OwnedTimer,
    delivered: &mut OwnedTimer,
    rcbs: u64,
    suffix: u64,
    generation: Generation,
    first: Observation,
    second: Observation,
    staged_result: Result<(), Errno>,
    step_result: Result<Option<OwnedTimerPosition>, Errno>,
    result: Result<Option<OwnedTimerPosition>, Errno>,
)
    requires
        old(timer).interrupted is None,
        old(timer).window is Some,
        (old(timer).window->0).1 + rcbs <= u64::MAX,
        call_ensures(
            OwnedTimer::stage,
            (
                timer,
                TimerSchedule::RcbsAndInstructions(rcbs, suffix),
                true,
                StageReply::Armed(generation, Decision::Step),
            ),
            staged_result,
        ),
        *old(stepped) == *final(timer),
        call_ensures(OwnedTimer::advance, (stepped, first, Some(Decision::Step)), step_result),
        *old(delivered) == *final(stepped),
        call_ensures(
            OwnedTimer::advance,
            (delivered, second, Some(Decision::Deliver)),
            result,
        ),
    ensures
        staged_result is Ok,
        step_result == Ok::<Option<OwnedTimerPosition>, Errno>(None),
        result matches Ok(Some(position)) && {
            &&& position.target == (old(timer).window->0).1 + rcbs
            &&& position.suffix == suffix
            &&& position.rip == second.rip
            &&& position.clock == second.clock
        },
        final(delivered).request is None,
{
}

/// A schedule that the controller is to deliver at once is delivered at the next
/// question, and under no ticket.
pub proof fn due_schedules_are_delivered_at_once(
    timer: &mut OwnedTimer,
    asked: &mut OwnedTimer,
    suffix: u64,
    generation: Generation,
    pc: u64,
    staged_result: Result<(), Errno>,
    ticket: Result<Option<Ticket>, Errno>,
    result: Result<Option<OwnedTimerPosition>, Errno>,
)
    requires
        old(timer).interrupted is None,
        old(timer).window is Some,
        call_ensures(
            OwnedTimer::stage,
            (
                timer,
                TimerSchedule::RcbsAndInstructions(0, suffix),
                true,
                StageReply::Armed(generation, Decision::Deliver),
            ),
            staged_result,
        ),
        call_ensures(OwnedTimer::next_ticket, (&*final(timer),), ticket),
        *old(asked) == *final(timer),
        call_ensures(OwnedTimer::immediate, (asked, pc, (old(timer).window->0).1), result),
    ensures
        ticket == Err::<Option<Ticket>, Errno>(Errno::EINVAL),
        result matches Ok(Some(position)) && position.rip == pc && position.clock == (
        old(timer).window->0).1 && position.suffix == suffix && position.generation
            == generation.number,
        final(asked).request is None,
{
}

/// Cancelling forgets the request and nothing else, even where the controller refuses;
/// an open interruption cannot be cancelled away.
pub proof fn cancelled_requests_are_gone(
    timer: &mut OwnedTimer,
    question: Option<Generation>,
    refused: bool,
    result: Result<(), Errno>,
)
    requires
        call_ensures(OwnedTimer::cancel_question, (&*old(timer),), question),
        call_ensures(OwnedTimer::cancel, (timer, refused), result),
    ensures
        old(timer).interrupted is Some ==> question is None && *final(timer) == *old(timer)
            && result == Err::<(), Errno>(Errno::EBUSY),
        old(timer).interrupted is None ==> {
            &&& final(timer).request is None
            &&& *final(timer) == (OwnedTimer { request: None, ..*old(timer) })
            &&& question is Some <==> (old(timer).request matches Some(request)
                && !request.immediate)
            &&& question is Some ==> question->0 == (old(timer).request->0).ticket.generation
            &&& result is Err <==> question is Some && refused
            &&& result is Err ==> result == Err::<(), Errno>(Errno::EINVAL)
        },
{
}

// ---------------------------------------------------------------------------
// Tickets and windows
// ---------------------------------------------------------------------------

/// A ticket is one past the last observation of its own request, and is given out exactly
/// for a request that is stepped towards and not interrupted.
pub proof fn tickets_belong_to_their_request(
    timer: OwnedTimer,
    result: Result<Option<Ticket>, Errno>,
)
    requires
        call_ensures(OwnedTimer::next_ticket, (&timer,), result),
    ensures
        result matches Ok(Some(ticket)) ==> (timer.request matches Some(request)
            && ticket.generation == request.ticket.generation && ticket.sequence
            == request.ticket.sequence + 1 && !request.immediate) && timer.interrupted is None,
        result == Ok::<Option<Ticket>, Errno>(None) <==> timer.interrupted is None
            && timer.request is None,
        result == Err::<Option<Ticket>, Errno>(Errno::EBUSY) <==> timer.interrupted is Some,
        result == Err::<Option<Ticket>, Errno>(Errno::EINVAL) <==> timer.interrupted is None && (
        timer.request matches Some(request) && request.immediate),
        result == Err::<Option<Ticket>, Errno>(Errno::EOVERFLOW) <==> timer.interrupted is None
            && (timer.request matches Some(request) && !request.immediate
            && request.ticket.sequence == u64::MAX),
{
}

/// One window is open at a time, and inside an interruption only at the position at which
/// it began.
pub proof fn windows_open_at_their_position(
    timer: &mut OwnedTimer,
    pc: u64,
    clock: u64,
    result: Result<(), Errno>,
)
    requires
        call_ensures(OwnedTimer::open_window, (timer, pc, clock), result),
    ensures
        result is Ok <==> old(timer).window is None && (old(timer).interrupted matches Some(open)
            ==> !open.failed && open.pc == pc && open.clock == clock),
        result is Ok ==> final(timer).window == Some((pc, clock)),
        result is Err ==> *final(timer) == *old(timer),
        *final(timer) == (OwnedTimer { window: final(timer).window, ..*old(timer) }),
        old(timer).window is Some ==> result == Err::<(), Errno>(Errno::EBUSY),
        old(timer).window is None && (old(timer).interrupted matches Some(open) && open.failed)
            ==> result == Err::<(), Errno>(Errno::ECANCELED),
        old(timer).window is None && (old(timer).interrupted matches Some(open) && !open.failed
            && (open.pc != pc || open.clock != clock)) ==> result == Err::<(), Errno>(
            Errno::EINVAL,
        ),
{
}

/// A new timer has nothing: no request, no window, no delivery, no interruption.
pub proof fn new_timers_are_empty(owner: i64, timer: OwnedTimer, free: Result<(), Errno>)
    requires
        call_ensures(OwnedTimer::new, (owner,), timer),
        call_ensures(OwnedTimer::uninterrupted, (&timer,), free),
    ensures
        timer.owner == owner,
        timer.request is None,
        timer.window is None,
        timer.delivered is None,
        timer.interrupted is None,
        timer.interruption_sequence == 0,
        free is Ok,
{
}

/// A timer is free exactly without an open interruption.
pub proof fn open_interruptions_keep_the_timer_busy(timer: OwnedTimer, free: Result<(), Errno>)
    requires
        call_ensures(OwnedTimer::uninterrupted, (&timer,), free),
    ensures
        free is Ok <==> timer.interrupted is None,
        free is Err ==> free == Err::<(), Errno>(Errno::EBUSY),
{
}

// ---------------------------------------------------------------------------
// Interruptions
// ---------------------------------------------------------------------------

/// An interruption begins exactly under the next ticket, at no earlier clock than the last
/// observation, and where nothing else is open. It remembers where it began, leaves the
/// request alone and takes the next name.
pub proof fn interruptions_begin_under_the_next_ticket(
    timer: &mut OwnedTimer,
    next: Result<Option<Ticket>, Errno>,
    ticket: Option<Ticket>,
    pc: u64,
    clock: u64,
    result: Result<ModeledInterruption, Errno>,
)
    requires
        call_ensures(OwnedTimer::next_ticket, (&*old(timer),), next),
        call_ensures(OwnedTimer::begin_interruption, (timer, ticket, pc, clock), result),
    ensures
        result is Ok <==> {
            &&& old(timer).interrupted is None
            &&& old(timer).window is None
            &&& old(timer).delivered is None
            &&& next == Ok::<Option<Ticket>, Errno>(ticket)
            &&& old(timer).request matches Some(request) ==> request.clock <= clock
            &&& old(timer).interruption_sequence < u64::MAX
        },
        result matches Ok(name) ==> {
            &&& name.owner == old(timer).owner
            &&& name.sequence == old(timer).interruption_sequence + 1
            &&& final(timer).interruption_sequence == name.sequence
            &&& final(timer).interrupted matches Some(open)
            &&& open.identity == name
            &&& open.pc == pc
            &&& open.clock == clock
            &&& open.replacement is None
            &&& !open.failed
            &&& final(timer).request == old(timer).request
            &&& final(timer).owner == old(timer).owner
            &&& final(timer).window is None
            &&& final(timer).delivered is None
        },
        result is Err ==> *final(timer) == *old(timer),
        old(timer).interrupted is Some || old(timer).window is Some || old(timer).delivered is Some
            ==> result == Err::<ModeledInterruption, Errno>(Errno::EBUSY),
        old(timer).interrupted is None && old(timer).window is None && old(timer).delivered is None
            && (next matches Ok(wanted) && wanted != ticket) ==> result == Err::<
            ModeledInterruption,
            Errno,
        >(Errno::EINVAL),
{
}

/// A callback inside an interruption only says what is to follow: its last schedule is
/// kept, counted from the clock of the interruption's window; one that cannot be kept
/// fails the interruption.
pub proof fn interrupted_schedules_are_kept_for_later(
    timer: &mut OwnedTimer,
    rcbs: u64,
    suffix: u64,
    precise: bool,
    reply: StageReply,
    result: Result<(), Errno>,
)
    requires
        old(timer).interrupted matches Some(open) && !open.failed,
        call_ensures(
            OwnedTimer::stage,
            (timer, TimerSchedule::RcbsAndInstructions(rcbs, suffix), precise, reply),
            result,
        ),
    ensures
        result is Ok <==> (old(timer).window matches Some((_, clock)) && precise && clock + rcbs
            <= u64::MAX),
        final(timer).interrupted is Some,
        ({
            let before = old(timer).interrupted->0;
            let after = final(timer).interrupted->0;
            &&& after.identity == before.identity
            &&& after.pc == before.pc
            &&& after.clock == before.clock
            &&& after.failed <==> result is Err
            &&& result is Err ==> after.replacement == before.replacement
            &&& result is Ok ==> {
                let kept = after.replacement->0;
                &&& after.replacement is Some
                &&& kept.clock == (old(timer).window->0).1
                &&& kept.target == kept.clock + rcbs
                &&& kept.rcbs == rcbs
                &&& kept.suffix == suffix
            }
        }),
        *final(timer) == (OwnedTimer { interrupted: final(timer).interrupted, ..*old(timer) }),
{
}

/// Only the name of an open interruption fails it, and failing it changes nothing else.
pub proof fn only_the_name_fails_an_interruption(
    timer: &mut OwnedTimer,
    identity: ModeledInterruption,
    result: Result<(), Errno>,
)
    requires
        call_ensures(OwnedTimer::fail_interruption, (timer, &identity), result),
    ensures
        result is Ok <==> (old(timer).interrupted matches Some(open) && open.identity == identity),
        result is Err ==> result == Err::<(), Errno>(Errno::EINVAL) && *final(timer) == *old(timer),
        result is Ok ==> {
            let before = old(timer).interrupted->0;
            &&& final(timer).interrupted matches Some(after)
            &&& after.failed
            &&& after.identity == before.identity
            &&& after.pc == before.pc
            &&& after.clock == before.clock
            &&& after.replacement == before.replacement
        },
        *final(timer) == (OwnedTimer { interrupted: final(timer).interrupted, ..*old(timer) }),
{
}

/// The completed observation is the one that the interrupted step was to make: under its
/// generation, one step on, at the clock of the interruption.
pub open spec fn is_the_interrupted_step(
    timer: OwnedTimer,
    completed: Option<Observation>,
) -> bool {
    match (timer.request, completed) {
        (None, None) => true,
        (Some(request), Some(observation)) => {
            &&& observation.generation.number == request.ticket.generation.number
            &&& observation.sequence - 1 == request.ticket.sequence
            &&& timer.interrupted matches Some(open) && open.clock == observation.clock
        },
        _ => false,
    }
}

/// An interruption that was left alone ends as if it had not been: its observation is
/// taken as `advance` takes it, and the delivery is reported where it was observed.
pub proof fn preserved_interruptions_leave_no_trace(
    timer: &mut OwnedTimer,
    twin: &mut OwnedTimer,
    identity: ModeledInterruption,
    observation: Observation,
    decision: Decision,
    result: Result<InterruptionResolution, Errno>,
    twin_result: Result<Option<OwnedTimerPosition>, Errno>,
)
    requires
        old(timer).interrupted matches Some(open) && open.identity == identity && !open.failed
            && open.replacement is None,
        old(timer).window is None,
        is_the_interrupted_step(*old(timer), Some(observation)),
        *old(twin) == (OwnedTimer { interrupted: None, ..*old(timer) }),
        call_ensures(
            OwnedTimer::resolve_interruption,
            (timer, &identity, Some(observation), ResolutionReply::Decided(decision)),
            result,
        ),
        call_ensures(OwnedTimer::advance, (twin, observation, Some(decision)), twin_result),
    ensures
        twin_result is Ok,
        result == Ok::<InterruptionResolution, Errno>(
            InterruptionResolution::Preserved(twin_result->Ok_0),
        ),
        *final(timer) == *final(twin),
        decision == Decision::Deliver ==> (twin_result matches Ok(Some(position)) && position.rip
            == observation.rip && position.clock == observation.clock),
{
}

/// A schedule that was kept during an interruption replaces the request when the
/// interruption ends, as it was asked for.
pub proof fn replacements_take_the_place_of_the_request(
    timer: &mut OwnedTimer,
    identity: ModeledInterruption,
    completed: Option<Observation>,
    generation: Generation,
    decision: Decision,
    result: Result<InterruptionResolution, Errno>,
)
    requires
        old(timer).interrupted matches Some(open) && open.identity == identity && !open.failed
            && open.replacement is Some,
        old(timer).window is None,
        is_the_interrupted_step(*old(timer), completed),
        call_ensures(
            OwnedTimer::resolve_interruption,
            (timer, &identity, completed, ResolutionReply::Armed(generation, decision)),
            result,
        ),
    ensures
        result == Ok::<InterruptionResolution, Errno>(InterruptionResolution::Replaced),
        final(timer).interrupted is None,
        final(timer).request matches Some(request) && {
            let kept = (old(timer).interrupted->0).replacement->0;
            &&& request.target == kept.target
            &&& request.suffix == kept.suffix
            &&& request.clock == kept.clock
            &&& request.ticket.generation == generation
            &&& request.ticket.sequence == 0
            &&& request.immediate <==> decision == Decision::Deliver
        },
        *final(timer) == (OwnedTimer {
            request: final(timer).request,
            interrupted: None,
            ..*old(timer)
        }),
{
}

/// An interruption is resolved exactly under its name, unfailed, outside windows, with the
/// observation of the interrupted step and the reply that was asked for. Whoever does not
/// know the name changes nothing; any other failure is recorded.
pub proof fn resolutions_need_name_step_and_reply(
    timer: &mut OwnedTimer,
    identity: ModeledInterruption,
    completed: Option<Observation>,
    reply: ResolutionReply,
    result: Result<InterruptionResolution, Errno>,
)
    requires
        call_ensures(
            OwnedTimer::resolve_interruption,
            (timer, &identity, completed, reply),
            result,
        ),
    ensures
        ({
            let known = old(timer).interrupted matches Some(open) && open.identity == identity;
            let open = old(timer).interrupted->0;
            let answered = if open.replacement is Some {
                reply is Armed
            } else {
                completed is Some ==> reply is Decided
            };
            &&& result is Ok <==> known && !open.failed && old(timer).window is None
                && is_the_interrupted_step(*old(timer), completed) && answered
            &&& !known ==> result == Err::<InterruptionResolution, Errno>(Errno::EINVAL)
                && *final(timer) == *old(timer)
            &&& known && open.failed ==> result == Err::<InterruptionResolution, Errno>(
                Errno::ECANCELED,
            ) && *final(timer) == *old(timer)
            &&& known && result is Err ==> (final(timer).interrupted->0).failed
            &&& known && !open.failed && old(timer).window is Some ==> result == Err::<
                InterruptionResolution,
                Errno,
            >(Errno::EBUSY)
            &&& known && !open.failed && old(timer).window is None && !is_the_interrupted_step(
                *old(timer),
                completed,
            ) ==> result == Err::<InterruptionResolution, Errno>(Errno::EINVAL)
            &&& result is Err ==> final(timer).request == old(timer).request
            &&& known && !open.failed && completed is None && open.replacement is None && result
                is Ok ==> result == Ok::<InterruptionResolution, Errno>(
                InterruptionResolution::Preserved(None),
            ) && *final(timer) == (OwnedTimer { interrupted: None, ..*old(timer) })
        }),
{
}

/// What resolving asks of the controller is what decides the resolution: the kept schedule,
/// or else the observation, and nothing where no reply could help.
pub proof fn resolutions_ask_for_what_decides_them(
    timer: OwnedTimer,
    identity: ModeledInterruption,
    completed: Option<Observation>,
    question: ResolutionQuestion,
)
    requires
        call_ensures(
            OwnedTimer::resolution_question,
            (&timer, &identity, completed),
            question,
        ),
    ensures
        ({
            let open = timer.interrupted->0;
            let resolvable = (timer.interrupted matches Some(open) && open.identity == identity
                && !open.failed) && timer.window is None && is_the_interrupted_step(
                timer,
                completed,
            );
            &&& question matches ResolutionQuestion::Replace(kept) ==> resolvable
                && open.replacement == Some(kept)
            &&& question matches ResolutionQuestion::Observe(observation) ==> resolvable
                && open.replacement is None && completed == Some(observation)
            &&& resolvable && open.replacement is Some ==> question is Replace
            &&& resolvable && open.replacement is None && completed is Some ==> question is Observe
        }),
{
}

// ---------------------------------------------------------------------------
// Installation and access
// ---------------------------------------------------------------------------

/// A timer is touched only by its own thread, while nobody else uses it and the clock
/// stands still.
pub proof fn access_is_the_owners_alone(
    borrowed: bool,
    owner: Option<i64>,
    tid: i64,
    paused: bool,
    result: Result<(), Errno>,
)
    requires
        call_ensures(check_access, (borrowed, owner, tid, paused), result),
    ensures
        result is Ok <==> !borrowed && owner == Some(tid) && paused,
        borrowed ==> result == Err::<(), Errno>(Errno::EBUSY),
        !borrowed && owner is None ==> result == Err::<(), Errno>(Errno::EOPNOTSUPP),
        !borrowed && owner is Some && owner != Some(tid) ==> result == Err::<(), Errno>(
            Errno::EXDEV,
        ),
        !borrowed && owner == Some(tid) && !paused ==> result == Err::<(), Errno>(Errno::EBUSY),
{
}

/// A timer is installed once, over an active, paused counter without notifications, and
/// starts empty.
pub proof fn owned_timers_need_an_owned_clock(
    active: bool,
    paused: bool,
    notification_free: bool,
    installed: bool,
    owner: i64,
    result: Result<OwnedTimer, InstallError>,
)
    requires
        call_ensures(
            initialize_owned,
            (active, paused, notification_free, installed, owner),
            result,
        ),
    ensures
        result is Ok <==> active && paused && notification_free && !installed,
        result matches Ok(timer) ==> timer.owner == owner && timer.request is None && timer.window
            is None && timer.delivered is None && timer.interrupted is None
            && timer.interruption_sequence == 0,
        result matches Err(error) ==> (error == InstallError::AlreadyInstalled <==> active
            && paused && notification_free),
{
}

/// A notification timer is made exactly over an active clock, once, for a real thread.
pub proof fn notification_timers_need_a_thread(
    active: bool,
    installed: bool,
    owner: i64,
    result: Result<bool, NotificationError>,
)
    requires
        call_ensures(initialize, (active, installed, owner), result),
    ensures
        result == Ok::<bool, NotificationError>(true) <==> active && !installed && owner > 0,
        result == Ok::<bool, NotificationError>(false) <==> !active,
        result == Err::<bool, NotificationError>(NotificationError::AlreadyInstalled) <==> active
            && installed,
        result == Err::<bool, NotificationError>(NotificationError::ThreadUnavailable) <==> active
            && !installed && owner <= 0,
{
}

/// Every borrow is counted, and only its own thread borrows while the clock stands still.
pub proof fn borrows_are_counted(
    tid: i64,
    owner: i64,
    paused: bool,
    borrowed: bool,
    revision: u64,
    result: Result<u64, Errno>,
)
    requires
        call_ensures(check_borrow, (tid, owner, paused, borrowed, revision), result),
    ensures
        result is Ok <==> tid == owner && paused && !borrowed && revision < u64::MAX,
        result matches Ok(next) ==> next == revision + 1,
        tid != owner ==> result == Err::<u64, Errno>(Errno::EXDEV),
        tid == owner && (!paused || borrowed) ==> result == Err::<u64, Errno>(Errno::EBUSY),
        tid == owner && paused && !borrowed && revision == u64::MAX ==> result == Err::<
            u64,
            Errno,
        >(Errno::EOVERFLOW),
{
}

/// The errors are told apart by their numbers, which are those of the kernel.
pub proof fn errors_have_the_kernels_numbers(
    error: Errno,
    other: Errno,
    code: i32,
    other_code: i32,
)
    requires
        call_ensures(Errno::code, (error,), code),
        call_ensures(Errno::code, (other,), other_code),
    ensures
        code == other_code <==> error == other,
        code == 16 <==> error == Errno::EBUSY,
        code == 18 <==> error == Errno::EXDEV,
        code == 22 <==> error == Errno::EINVAL,
        code == 75 <==> error == Errno::EOVERFLOW,
        code == 95 <==> error == Errno::EOPNOTSUPP,
        code == 125 <==> error == Errno::ECANCELED,
{
}

} // verus!

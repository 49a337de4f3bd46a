//! What the operations of a stepper promise.

use vstd::prelude::*;

use crate::instruction_event::InstructionEvent;
use crate::owned_step::frame_agrees;
use crate::owned_step::Completion;
use crate::owned_step::CompletionModel;
use crate::owned_step::Fault;
use crate::owned_step::ReadFaultCapture;
use crate::owned_step::ReadIdentity;
use crate::owned_step::Stepper;
use crate::owned_step::StepperModel;
use crate::owned_step::instruction::Instruction;
use crate::owned_step::instruction::Plan;
use crate::owned_step::native::is_trace_control;
use crate::owned_step::native::CpuStepRequest;
use crate::registers::captured_general;
use crate::registers::general_of;
use crate::registers::HookContext;
use crate::syscall_event::is_observable;
use crate::timer::Decision;
use crate::timer::Generation;
use crate::timer::Observation;
use crate::timer::Ticket;

verus! {

/// Nothing of a stepper changed but what is named: its counts and its last completion.
pub open spec fn same_counts(before: StepperModel, after: StepperModel) -> bool {
    &&& after.completed == before.completed
    &&& after.modeled_completed == before.modeled_completed
    &&& after.last == before.last
}

/// A frame shows a single-step trap, inside the guest.
pub open spec fn shows_a_step(registers: Seq<i64>) -> bool {
    &&& 0 < registers[16] as u64
    &&& (registers[16] as u64) < 0x8000_0000_0000
    &&& registers[17] as u64 & 0x10100 == 0x100
    &&& registers[20] == 1
    &&& registers[19] == 0
}

/// A frame holds exactly what was predicted, with this trap and this error.
pub open spec fn shows_what_was_predicted(
    expected: CompletionModel,
    owner: i64,
    frame: u64,
    registers: Seq<i64>,
    trap: i64,
    error: i64,
) -> bool {
    &&& owner == expected.owner
    &&& frame == expected.frame_generation
    &&& registers[16] as u64 == expected.pc
    &&& registers[17] as u64 == expected.flags
    &&& registers[20] == trap
    &&& registers[19] == error
    &&& expected.general matches Some(words) ==> words.len() == 16 && forall|i: int|
        0 <= i < 16 ==> #[trigger] words[i] == registers[i] as u64
}

/// The words of a prediction are sixteen, where it has any.
pub open spec fn has_sixteen_words(expected: CompletionModel) -> bool {
    expected.general matches Some(words) ==> words.len() == 16
}

proof fn predictions_agree(
    expected: CompletionModel,
    owner: i64,
    frame: u64,
    registers: Seq<i64>,
    trap: i64,
    error: i64,
)
    requires
        has_sixteen_words(expected),
    ensures
        frame_agrees(expected, owner, frame, registers, trap, error) <==> shows_what_was_predicted(
            expected,
            owner,
            frame,
            registers,
            trap,
            error,
        ),
{
    if expected.general is Some {
        let words = expected.general->0;
        if forall|i: int| 0 <= i < 16 ==> #[trigger] words[i] == registers[i] as u64 {
            assert(words =~= captured_general(registers));
        }
    }
}

proof fn steps_are_trace_control(registers: Seq<i64>)
    ensures
        is_trace_control(registers) <==> shows_a_step(registers),
{
    assert(0x10000u64 | 0x100u64 == 0x10100u64) by (bit_vector);
}

// ---------------------------------------------------------------------------
// Staging
// ---------------------------------------------------------------------------

/// A stepper is pending exactly while one of its places is taken.
pub proof fn steppers_are_pending_while_a_place_is_taken(stepper: Stepper, pending: bool)
    requires
        call_ensures(Stepper::pending, (&stepper,), pending),
    ensures
        pending <==> stepper.expected is Some || stepper.native is Some || stepper.captured is Some
            || stepper.modeled is Some || stepper.fault is Some || stepper.syscall is Some
            || stepper.call is Some,
{
}

/// A CPU step is staged exactly by a thread with a frame, from the context that its request
/// was bound to, while nothing is pending. It says who staged it, where, from what and when,
/// under the ticket, and it is the next of its stepper.
pub proof fn cpu_steps_are_staged_from_their_context(
    stepper: &mut Stepper,
    frame: (i64, u64),
    ticket: Option<Ticket>,
    request: CpuStepRequest,
    context: HookContext,
    clock: u64,
    pending: bool,
    result: Option<()>,
)
    requires
        call_ensures(Stepper::pending, (&*old(stepper),), pending),
        call_ensures(Stepper::stage_cpu, (stepper, frame, ticket, request, &context, clock), result),
    ensures
        result is Some <==> {
            &&& !pending
            &&& frame.0 > 0
            &&& frame.1 != 0
            &&& request.pc == context.instruction_pointer
            &&& request.flags == context.rflags
            &&& request.general@ == general_of(context)
            &&& old(stepper).cpu_sequence < u64::MAX
        },
        result is None ==> final(stepper)@ == old(stepper)@,
        result is Some ==> {
            &&& final(stepper)@.native matches Some((staged, kept))
            &&& kept == request@
            &&& staged.owner == frame.0
            &&& staged.frame_generation == frame.1
            &&& staged.pc == context.instruction_pointer
            &&& staged.flags == context.rflags
            &&& staged.general == Some(general_of(context))
            &&& staged.clock == clock
            &&& staged.cpu_sequence == Some(final(stepper).cpu_sequence)
            &&& final(stepper).cpu_sequence == old(stepper).cpu_sequence + 1
            &&& ticket matches Some(ticket) ==> staged.generation == Some(ticket.generation)
                && staged.sequence == ticket.sequence
            &&& ticket is None ==> staged.generation is None && staged.sequence == 0
            &&& final(stepper)@ == (StepperModel {
                native: final(stepper)@.native,
                cpu_sequence: final(stepper).cpu_sequence,
                ..old(stepper)@
            })
        },
{
}

/// A NOP is staged exactly where it may be and where the controller armed a step: it is
/// expected one byte on, at the same clock, traced and without fault-resume.
pub proof fn nops_are_expected_one_byte_on(
    stepper: &mut Stepper,
    owner: i64,
    frame: u64,
    pc: u64,
    flags: u64,
    clock: u64,
    armed: Option<(Generation, Decision)>,
    may: bool,
    pending: bool,
    result: Option<()>,
)
    requires
        call_ensures(Stepper::pending, (&*old(stepper),), pending),
        call_ensures(Stepper::may_stage_nop, (&*old(stepper), owner, frame, pc, flags), may),
        call_ensures(
            Stepper::stage_nop,
            (stepper, owner, frame, pc, flags, clock, armed),
            result,
        ),
    ensures
        may <==> !pending && owner > 0 && frame != 0 && flags & 0x100 == 0 && 0 < pc && pc + 1
            < 0x8000_0000_0000,
        result is Some <==> may && (armed matches Some((_, decision)) && decision
            == Decision::Step),
        result is None ==> final(stepper)@ == old(stepper)@,
        result is Some ==> {
            &&& final(stepper)@.expected matches Some(expected)
            &&& expected.generation == Some((armed->0).0)
            &&& expected.sequence == 1
            &&& expected.cpu_sequence is None
            &&& expected.owner == owner
            &&& expected.frame_generation == frame
            &&& expected.pc == pc + 1
            &&& expected.clock == clock
            &&& expected.general is None
            &&& expected.flags & 0x10100 == 0x100
            &&& expected.flags & !0x10100 == flags & !0x10100
            &&& final(stepper)@ == (StepperModel {
                expected: final(stepper)@.expected,
                ..old(stepper)@
            })
        },
{
    assert(((flags | 0x100) & !0x10000u64) & 0x10100 == 0x100 && ((flags | 0x100) & !0x10000u64)
        & !0x10100u64 == flags & !0x10100u64) by (bit_vector);
}

/// An instruction of the vocabulary is staged where its plan leads: the step that is expected,
/// or the fault, is at the planned address, with the planned flags and registers, and as many
/// branches later as it counts.
pub proof fn planned_steps_are_expected(
    stepper: &mut Stepper,
    frame: (i64, u64),
    ticket: Ticket,
    instruction: Instruction,
    context: HookContext,
    clock: u64,
    plan: Option<Plan>,
    pending: bool,
    result: Option<()>,
)
    requires
        !(instruction is Native) && !(instruction is Syscall),
        call_ensures(Stepper::pending, (&*old(stepper),), pending),
        call_ensures(
            Instruction::plan,
            (&instruction, context.instruction_pointer, &context),
            plan,
        ),
        call_ensures(
            Stepper::stage_precise,
            (stepper, frame, ticket, instruction, &context, clock),
            result,
        ),
    ensures
        result is Some <==> !pending && frame.0 > 0 && frame.1 != 0 && context.rflags & 0x100 == 0
            && (plan matches Some(plan) && clock + plan.rcbs <= u64::MAX),
        result is None ==> final(stepper)@ == old(stepper)@,
        result is Some ==> {
            let planned = plan->0;
            let staged = if planned.fault is Some {
                (final(stepper)@.fault->0).1
            } else {
                final(stepper)@.expected->0
            };
            &&& planned.fault is None ==> final(stepper)@ == (StepperModel {
                expected: Some(staged),
                ..old(stepper)@
            })
            &&& planned.fault matches Some(event) ==> final(stepper)@ == (StepperModel {
                fault: Some((event, staged)),
                ..old(stepper)@
            })
            &&& staged.pc == planned.pc
            &&& staged.flags == planned.flags
            &&& staged.general == Some(planned.general@)
            &&& staged.clock == clock + planned.rcbs
            &&& staged.owner == frame.0
            &&& staged.frame_generation == frame.1
            &&& staged.generation == Some(ticket.generation)
            &&& staged.sequence == ticket.sequence
            &&& staged.cpu_sequence is None
        },
{
}

/// A system call is staged with its number: it is to go on two bytes behind, with that address
/// and the traced flags in the registers that it overwrites, and every other register as it
/// was.
pub proof fn system_calls_are_staged_with_their_number(
    stepper: &mut Stepper,
    frame: (i64, u64),
    ticket: Ticket,
    context: HookContext,
    clock: u64,
    pending: bool,
    result: Option<()>,
    index: int,
)
    requires
        call_ensures(Stepper::pending, (&*old(stepper),), pending),
        call_ensures(
            Stepper::stage_precise,
            (stepper, frame, ticket, Instruction::Syscall, &context, clock),
            result,
        ),
    ensures
        result is Some <==> !pending && frame.0 > 0 && frame.1 != 0 && context.rflags & 0x100 == 0
            && context.instruction_pointer + 2 < 0x8000_0000_0000 && is_observable(
            context.rax as i64,
        ),
        result is None ==> final(stepper)@ == old(stepper)@,
        result is Some ==> {
            let (number, staged) = final(stepper)@.syscall->0;
            let words = staged.general->0;
            &&& final(stepper)@ == (StepperModel {
                syscall: Some((number, staged)),
                ..old(stepper)@
            })
            &&& number == context.rax as i64
            &&& staged.pc == context.instruction_pointer + 2
            &&& staged.clock == clock
            &&& staged.owner == frame.0
            &&& staged.frame_generation == frame.1
            &&& staged.generation == Some(ticket.generation)
            &&& staged.sequence == ticket.sequence
            &&& staged.flags & 0x10100 == 0x100
            &&& staged.general is Some
            &&& words.len() == 16
            &&& words[14] == context.instruction_pointer + 2
            &&& words[3] == context.rflags | 0x100
            &&& 0 <= index < 16 && index != 3 && index != 14 ==> words[index] == general_of(
                context,
            )[index]
        },
{
    let flags = context.rflags;
    assert(((flags | 0x100) & !0x10000u64) & 0x10100 == 0x100) by (bit_vector);
}

/// A call into the vDSO is staged in place, with fault-resume set: the fault that it is to
/// take leaves everything as it was.
pub proof fn vdso_calls_are_staged_in_place(
    stepper: &mut Stepper,
    frame: (i64, u64),
    ticket: Ticket,
    context: HookContext,
    clock: u64,
    pending: bool,
    result: Option<()>,
)
    requires
        call_ensures(Stepper::pending, (&*old(stepper),), pending),
        call_ensures(Stepper::stage_call, (stepper, frame, ticket, &context, clock), result),
    ensures
        result is Some <==> !pending && frame.0 > 0 && frame.1 != 0 && context.rflags & 0x100 == 0
            && 0 < context.instruction_pointer && context.instruction_pointer + 1
            < 0x8000_0000_0000,
        result is None ==> final(stepper)@ == old(stepper)@,
        result is Some ==> {
            let staged = final(stepper)@.call->0;
            &&& final(stepper)@ == (StepperModel { call: Some(staged), ..old(stepper)@ })
            &&& staged.pc == context.instruction_pointer
            &&& staged.clock == clock
            &&& staged.owner == frame.0
            &&& staged.frame_generation == frame.1
            &&& staged.generation == Some(ticket.generation)
            &&& staged.sequence == ticket.sequence
            &&& staged.general == Some(general_of(context))
            &&& staged.flags & 0x10100 == 0x10100
            &&& staged.flags & !0x10100 == context.rflags & !0x10100
        },
{
    let flags = context.rflags;
    assert((((flags | 0x100) & !0x10000u64) | 0x10000) & 0x10100 == 0x10100 && (((flags | 0x100)
        & !0x10000u64) | 0x10000) & !0x10100u64 == flags & !0x10100u64) by (bit_vector);
}

// ---------------------------------------------------------------------------
// Capturing
// ---------------------------------------------------------------------------

/// A staged CPU step is captured exactly from a single-step trap of its own thread and frame,
/// at no earlier clock; what is captured is what the frame shows.
pub proof fn cpu_steps_are_captured_as_they_ended(
    stepper: &mut Stepper,
    owner: i64,
    frame: u64,
    registers: [i64; 23],
    clock: u64,
    result: Option<Completion>,
    index: int,
)
    requires
        old(stepper)@.native is Some,
        call_ensures(Stepper::capture, (stepper, owner, frame, &registers, clock), result),
    ensures
        ({
            let staged = (old(stepper)@.native->0).0;
            &&& result is Some <==> old(stepper)@.captured is None && owner == staged.owner && frame
                == staged.frame_generation && staged.clock <= clock && shows_a_step(registers@)
            &&& result is None ==> final(stepper)@ == old(stepper)@
            &&& result matches Some(completion) ==> {
                &&& completion.pc == registers@[16] as u64
                &&& completion.flags == registers@[17] as u64
                &&& completion.clock == clock
                &&& completion.owner == owner
                &&& completion.frame_generation == frame
                &&& completion.generation == staged.generation
                &&& completion.sequence == staged.sequence
                &&& completion.cpu_sequence == staged.cpu_sequence
                &&& completion@.general is Some
                &&& 0 <= index < 16 ==> (completion@.general->0)[index] == registers@[index] as u64
                &&& final(stepper)@ == (StepperModel {
                    native: None,
                    captured: Some(completion@),
                    ..old(stepper)@
                })
            }
        }),
{
    steps_are_trace_control(registers@);
}

/// A predicted step is captured exactly from the frame that was predicted, and stays staged;
/// validating says the same without capturing.
pub proof fn predicted_steps_are_captured_as_predicted(
    stepper: &mut Stepper,
    owner: i64,
    frame: u64,
    registers: [i64; 23],
    clock: u64,
    valid: Option<Completion>,
    result: Option<Completion>,
)
    requires
        old(stepper)@.native is None,
        old(stepper)@.captured is None,
        old(stepper)@.expected matches Some(expected) ==> has_sixteen_words(expected),
        call_ensures(Stepper::validate, (&*old(stepper), owner, frame, &registers), valid),
        call_ensures(Stepper::capture, (stepper, owner, frame, &registers, clock), result),
    ensures
        result is Some <==> (old(stepper)@.expected matches Some(expected)
            && shows_what_was_predicted(expected, owner, frame, registers@, 1, 0)),
        valid is Some <==> result is Some,
        result matches Some(completion) ==> old(stepper)@.expected == Some(completion@),
        valid matches Some(completion) ==> old(stepper)@.expected == Some(completion@),
        final(stepper)@ == old(stepper)@,
{
    if old(stepper)@.expected is Some {
        predictions_agree(old(stepper)@.expected->0, owner, frame, registers@, 1, 0);
    }
}

/// A fault, a system call and a call are validated exactly by the frame that was predicted,
/// with their own trap; of a system call the accumulator is free and the number counts.
pub proof fn traps_are_validated_as_predicted(
    stepper: Stepper,
    owner: i64,
    frame: u64,
    number: i64,
    registers: [i64; 23],
    fault: Option<InstructionEvent>,
    syscall: Option<()>,
    call: Option<()>,
)
    requires
        stepper@.fault matches Some((_, expected)) ==> has_sixteen_words(expected),
        stepper@.call matches Some(expected) ==> has_sixteen_words(expected),
        call_ensures(Stepper::validate_fault, (&stepper, owner, frame, &registers), fault),
        call_ensures(
            Stepper::validate_syscall,
            (&stepper, owner, frame, number, &registers),
            syscall,
        ),
        call_ensures(Stepper::validate_call, (&stepper, owner, frame, &registers), call),
    ensures
        fault is Some <==> (stepper@.fault matches Some((_, expected)) && shows_what_was_predicted(
            expected,
            owner,
            frame,
            registers@,
            13,
            0,
        )),
        fault matches Some(event) ==> (stepper@.fault->0).0 == event,
        call is Some <==> (stepper@.call matches Some(expected) && shows_what_was_predicted(
            expected,
            owner,
            frame,
            registers@,
            14,
            0x15,
        )),
        syscall is Some ==> (stepper@.syscall matches Some((expected_number, expected)) && number
            == expected_number && owner == expected.owner && frame == expected.frame_generation
            && registers@[16] as u64 == expected.pc && registers@[17] as u64 == expected.flags),
        syscall is Some ==> (forall|i: int|
            0 <= i < 16 && i != 13 ==> #[trigger] ((stepper@.syscall->0).1.general->0)[i]
                == registers@[i] as u64),
        (stepper@.syscall matches Some((expected_number, expected)) && number == expected_number
            && owner == expected.owner && frame == expected.frame_generation && registers@[16]
            as u64 == expected.pc && registers@[17] as u64 == expected.flags
            && expected.general is Some && (forall|i: int|
            0 <= i < 16 && i != 13 ==> #[trigger] (expected.general->0)[i] == registers@[i] as u64))
            ==> syscall is Some,
{
    if stepper@.fault is Some {
        predictions_agree((stepper@.fault->0).1, owner, frame, registers@, 13, 0);
    }
    if stepper@.call is Some {
        predictions_agree(stepper@.call->0, owner, frame, registers@, 14, 0x15);
    }
}

/// A fault of a staged CPU step is its own exactly where it is at its instruction, traced, in
/// its thread and frame and at no earlier clock.
pub proof fn cpu_faults_are_those_of_the_staged_step(
    stepper: Stepper,
    owner: i64,
    frame: u64,
    registers: [i64; 23],
    clock: u64,
    result: Option<()>,
)
    requires
        call_ensures(
            Stepper::validate_cpu_fault,
            (&stepper, owner, frame, &registers, clock),
            result,
        ),
    ensures
        result is Some <==> (stepper@.native matches Some((staged, request)) && owner == staged.owner
            && frame == staged.frame_generation && staged.cpu_sequence == Some(stepper.cpu_sequence)
            && registers@[16] as u64 == request.pc && registers@[17] as u64 & 0x100 != 0
            && staged.clock <= clock),
{
}

// ---------------------------------------------------------------------------
// Completing
// ---------------------------------------------------------------------------

/// A captured CPU step is completed by what was captured, at its clock; it is counted once and
/// observed under its ticket where it ended.
pub proof fn captured_steps_are_completed_once(
    stepper: &mut Stepper,
    again: &mut Stepper,
    completion: Completion,
    clock: u64,
    result: Option<Option<Observation>>,
    second: Option<Option<Observation>>,
)
    requires
        call_ensures(Stepper::complete_cpu, (stepper, completion, clock), result),
        *old(again) == *final(stepper),
        call_ensures(Stepper::complete_cpu, (again, completion, clock), second),
    ensures
        result is Some <==> old(stepper)@.captured == Some(completion@)
            && completion.cpu_sequence == Some(old(stepper).cpu_sequence) && clock
            == completion.clock && old(stepper).completed < u64::MAX,
        result is None ==> final(stepper)@ == old(stepper)@,
        result is Some ==> {
            &&& final(stepper).completed == old(stepper).completed + 1
            &&& final(stepper)@.last == Some(completion@)
            &&& final(stepper)@.captured is None
            &&& final(stepper)@ == (StepperModel {
                captured: None,
                completed: final(stepper).completed,
                last: final(stepper)@.last,
                ..old(stepper)@
            })
        },
        result matches Some(Some(observation)) ==> completion.generation == Some(
            observation.generation,
        ) && observation.sequence == completion.sequence && observation.clock == clock
            && observation.rip == completion.pc,
        result matches Some(None) ==> completion.generation is None,
        second is None,
{
}

/// A precise step is completed by what was captured or expected, under its ticket and at its
/// clock; it is counted once, observed where it ended, and nothing of it is left.
pub proof fn precise_steps_are_completed_once(
    stepper: &mut Stepper,
    again: &mut Stepper,
    completion: Completion,
    clock: u64,
    result: Option<Observation>,
    second: Option<Observation>,
)
    requires
        call_ensures(Stepper::complete_precise, (stepper, completion, clock), result),
        *old(again) == *final(stepper),
        call_ensures(Stepper::complete_precise, (again, completion, clock), second),
    ensures
        result is Some <==> completion.generation is Some && (old(stepper)@.captured == Some(
            completion@,
        ) || old(stepper)@.expected == Some(completion@)) && clock == completion.clock
            && old(stepper).completed < u64::MAX,
        result is None ==> final(stepper)@ == old(stepper)@,
        result matches Some(observation) ==> {
            &&& completion.generation == Some(observation.generation)
            &&& observation.sequence == completion.sequence
            &&& observation.clock == clock
            &&& observation.rip == completion.pc
            &&& final(stepper).completed == old(stepper).completed + 1
            &&& final(stepper)@.last == Some(completion@)
            &&& final(stepper)@.expected is None
            &&& final(stepper)@.native is None
            &&& final(stepper)@.captured is None
            &&& second is None
        },
{
}

/// The controller is asked about an expected step exactly before it can be completed, at the
/// step's own place and clock; only where it delivers is the step completed.
pub proof fn expected_steps_are_completed_on_delivery(
    stepper: &mut Stepper,
    completion: Completion,
    clock: u64,
    reply: Option<Decision>,
    question: Option<Observation>,
    result: Option<()>,
)
    requires
        call_ensures(
            Stepper::completion_request,
            (&*old(stepper), &completion, clock),
            question,
        ),
        call_ensures(Stepper::complete, (stepper, completion, clock, reply), result),
    ensures
        question is Some <==> old(stepper)@.expected == Some(completion@) && clock
            == completion.clock && old(stepper).completed < u64::MAX && completion.generation
            is Some,
        question matches Some(observation) ==> completion.generation == Some(
            observation.generation,
        ) && observation.sequence == 1 && observation.clock == clock && observation.rip
            == completion.pc,
        result is Some <==> question is Some && reply == Some(Decision::Deliver),
        result is None ==> final(stepper)@ == old(stepper)@,
        result is Some ==> final(stepper)@ == (StepperModel {
            expected: None,
            completed: final(stepper).completed,
            last: Some(completion@),
            ..old(stepper)@
        }) && final(stepper).completed == old(stepper).completed + 1,
{
}

/// Cancelling takes everything that is staged or captured, counts nothing, and names the
/// generation of the expected step.
pub proof fn cancelling_takes_everything(
    stepper: &mut Stepper,
    generation: Option<Generation>,
    pending: bool,
)
    requires
        call_ensures(Stepper::cancel, (stepper,), generation),
        call_ensures(Stepper::pending, (&*final(stepper),), pending),
    ensures
        !pending,
        same_counts(old(stepper)@, final(stepper)@),
        final(stepper).cpu_sequence == old(stepper).cpu_sequence,
        generation == match old(stepper)@.expected {
            Some(expected) => expected.generation,
            None => None,
        },
{
}

/// A staged fault, system call or call is cancelled exactly at its own clock, and nothing else
/// with it.
pub proof fn staged_traps_are_cancelled_at_their_clock(
    faulted: &mut Stepper,
    called: &mut Stepper,
    jumped: &mut Stepper,
    clock: u64,
    fault: Option<()>,
    syscall: Option<()>,
    call: Option<()>,
)
    requires
        *old(called) == *old(faulted),
        *old(jumped) == *old(faulted),
        call_ensures(Stepper::cancel_fault, (faulted, clock), fault),
        call_ensures(Stepper::cancel_syscall, (called, clock), syscall),
        call_ensures(Stepper::cancel_call, (jumped, clock), call),
    ensures
        fault is Some <==> (old(faulted)@.fault matches Some((_, staged)) && staged.clock == clock),
        syscall is Some <==> (old(faulted)@.syscall matches Some((_, staged)) && staged.clock
            == clock),
        call is Some <==> (old(faulted)@.call matches Some(staged) && staged.clock == clock),
        fault is Some ==> final(faulted)@.fault is None,
        syscall is Some ==> final(called)@.syscall is None,
        call is Some ==> final(jumped)@.call is None,
        final(faulted)@ == (StepperModel { fault: final(faulted)@.fault, ..old(faulted)@ }),
        final(called)@ == (StepperModel { syscall: final(called)@.syscall, ..old(faulted)@ }),
        final(jumped)@ == (StepperModel { call: final(jumped)@.call, ..old(faulted)@ }),
        fault is None ==> final(faulted)@ == old(faulted)@,
        syscall is None ==> final(called)@ == old(faulted)@,
        call is None ==> final(jumped)@ == old(faulted)@,
{
}

// ---------------------------------------------------------------------------
// Modeled reads
// ---------------------------------------------------------------------------

/// A read fault is captured exactly where the staged instruction itself could not read: in its
/// thread and frame, at its address, traced, with its registers and its flags untouched. It
/// keeps the step, its request and the address that could not be read.
pub proof fn read_faults_are_those_of_the_staged_step(
    stepper: &mut Stepper,
    owner: i64,
    frame: u64,
    fault: Fault<'_>,
    clock: u64,
    result: Option<ReadFaultCapture>,
)
    requires
        call_ensures(Stepper::capture_read_fault, (stepper, owner, frame, fault, clock), result),
    ensures
        result is Some <==> (old(stepper)@.native matches Some((staged, request)) && {
            let flags = fault.registers@[17] as u64;
            &&& old(stepper)@.modeled is None
            &&& old(stepper)@.captured is None
            &&& owner == staged.owner
            &&& frame == staged.frame_generation
            &&& staged.cpu_sequence == Some(old(stepper).cpu_sequence)
            &&& fault.signal == 11
            &&& fault.code == 2
            &&& fault.registers@[20] == 14
            &&& (fault.registers@[19] == 4 || fault.registers@[19] == 5)
            &&& fault.registers@[16] as u64 == request.pc
            &&& flags & 0x100 != 0
            &&& (flags ^ request.flags) & !0x10100 == 0
            &&& request.flags & 0x10000 != 0 ==> flags & 0x10000 != 0
            &&& request.general == captured_general(fault.registers@)
            &&& frame < u64::MAX
            &&& staged.clock <= clock
        }),
        result matches Some(captured) ==> {
            &&& old(stepper)@.native == Some((captured@.staged, captured@.request))
            &&& captured.address == fault.address
            &&& captured.flags == fault.registers@[17] as u64
            &&& captured.clock == clock
            &&& final(stepper)@ == (StepperModel {
                native: None,
                modeled: Some(captured@),
                ..old(stepper)@
            })
        },
        result is None ==> final(stepper)@ == old(stepper)@,
{
    assert(0x10000u64 | 0x100u64 == 0x10100u64) by (bit_vector);
}

/// A modeled read is valid in the frame after its own, for its own thread and step, and is
/// completed exactly there, behind its instruction; it is counted apart and observed where it
/// goes on.
pub proof fn modeled_reads_are_completed_behind_their_instruction(
    stepper: &mut Stepper,
    captured: ReadFaultCapture,
    owner: i64,
    frame: u64,
    successor: u64,
    valid: Option<()>,
    result: Option<Option<Observation>>,
)
    requires
        call_ensures(Stepper::validate_modeled, (&*old(stepper), captured, owner, frame), valid),
        call_ensures(
            Stepper::complete_modeled,
            (stepper, captured, owner, frame, successor),
            result,
        ),
    ensures
        valid is Some <==> old(stepper)@.modeled == Some(captured@) && captured@.staged.owner
            == owner && frame == captured@.staged.frame_generation + 1
            && captured@.staged.cpu_sequence == Some(old(stepper).cpu_sequence),
        result is Some <==> valid is Some && successor == captured.request.pc
            + captured.request.length && old(stepper).modeled_completed < u64::MAX,
        result is None ==> final(stepper)@ == old(stepper)@,
        result is Some ==> final(stepper)@ == (StepperModel {
            modeled: None,
            modeled_completed: final(stepper).modeled_completed,
            ..old(stepper)@
        }) && final(stepper).modeled_completed == old(stepper).modeled_completed + 1,
        result matches Some(Some(observation)) ==> captured@.staged.generation == Some(
            observation.generation,
        ) && observation.sequence == captured@.staged.sequence && observation.clock
            == captured.clock && observation.rip == successor,
        result matches Some(None) ==> captured@.staged.generation is None,
{
}

/// A captured read says who made it, under which ticket, from what and at which address.
pub proof fn captured_reads_say_what_they_are(
    captured: ReadFaultCapture,
    context: HookContext,
    identity: ReadIdentity,
    ticket: Option<Ticket>,
    address: u64,
    flags: u64,
    clock: u64,
    same: bool,
)
    requires
        captured.staged.cpu_sequence is Some,
        call_ensures(ReadFaultCapture::identity, (&captured,), identity),
        call_ensures(ReadFaultCapture::ticket, (&captured,), ticket),
        call_ensures(ReadFaultCapture::address, (&captured,), address),
        call_ensures(ReadFaultCapture::flags, (&captured,), flags),
        call_ensures(ReadFaultCapture::clock, (&captured,), clock),
        call_ensures(ReadFaultCapture::matches_context, (&captured, &context), same),
    ensures
        identity.owner == captured.staged.owner,
        identity.frame_generation == captured.staged.frame_generation,
        captured.staged.cpu_sequence == Some(identity.cpu_sequence),
        ticket is Some <==> captured.staged.generation is Some,
        ticket matches Some(ticket) ==> captured.staged.generation == Some(ticket.generation)
            && ticket.sequence == captured.staged.sequence,
        address == captured.address,
        flags == captured.flags,
        clock == captured.clock,
        same <==> context.instruction_pointer == captured.request.pc && context.rflags
            == captured.flags && general_of(context) == captured.request.general@,
{
}

} // verus!

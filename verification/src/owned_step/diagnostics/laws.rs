//! What the report on a refused capture promises.

use vstd::prelude::*;

use crate::owned_step::Completion;
use crate::owned_step::CompletionModel;
use crate::owned_step::Stepper;
use crate::owned_step::StepperModel;
use crate::owned_step::diagnostics::every_refusal_has_a_reason;
use crate::owned_step::diagnostics::first_difference;
use crate::owned_step::diagnostics::observed_records;
use crate::owned_step::diagnostics::refusal_of;
use crate::owned_step::diagnostics::refusal_text;
use crate::owned_step::diagnostics::reported_step;
use crate::owned_step::diagnostics::request_records;
use crate::owned_step::diagnostics::staged_records;
use crate::owned_step::diagnostics::word_records;
use crate::owned_step::diagnostics::CaptureRefusal;
use crate::owned_step::diagnostics::Record;

verus! {

/// The reason that is named holds, and every earlier test passed: a step that was captured
/// already, the owner, the frame, the clock and the trap of a staged step, or each part of a
/// predicted frame.
pub proof fn named_reasons_hold(
    stepper: Stepper,
    owner: i64,
    frame: u64,
    registers: [i64; 23],
    clock: u64,
    refusal: CaptureRefusal,
)
    requires
        call_ensures(
            Stepper::capture_refusal_reason,
            (&stepper, owner, frame, &registers, clock),
            refusal,
        ),
    ensures
        refusal == CaptureRefusal::AlreadyCaptured <==> stepper@.captured is Some,
        refusal == CaptureRefusal::NoNativeOrExpected <==> stepper@.captured is None
            && stepper@.native is None && stepper@.expected is None,
        stepper@.captured is None ==> (stepper@.native matches Some((staged, _)) ==> {
            let pc = registers@[16] as u64;
            let mine = owner == staged.owner && frame == staged.frame_generation && staged.clock
                <= clock;
            &&& refusal == CaptureRefusal::NativeOwner <==> owner != staged.owner
            &&& refusal == CaptureRefusal::NativeFrame <==> owner == staged.owner && frame
                != staged.frame_generation
            &&& refusal == CaptureRefusal::NativeClockRegression <==> owner == staged.owner && frame
                == staged.frame_generation && clock < staged.clock
            &&& refusal == CaptureRefusal::NativePcZero <==> mine && pc == 0
            &&& refusal == CaptureRefusal::NativePcRange <==> mine && pc >= 0x8000_0000_0000
            &&& refusal == CaptureRefusal::NativeTraceFlags ==> registers@[17] as u64 & 0x10100
                != 0x100
            &&& refusal == CaptureRefusal::NativeTrap ==> registers@[20] != 1
            &&& refusal == CaptureRefusal::NativeError ==> registers@[19] != 0
        }),
        stepper@.captured is None && stepper@.native is None ==> (stepper@.expected matches Some(
            expected,
        ) ==> {
            &&& refusal == CaptureRefusal::ExpectedOwner <==> owner != expected.owner
            &&& refusal == CaptureRefusal::ExpectedFrame ==> frame != expected.frame_generation
            &&& refusal == CaptureRefusal::ExpectedPc ==> registers@[16] as u64 != expected.pc
            &&& refusal == CaptureRefusal::ExpectedFlags ==> registers@[17] as u64
                != expected.flags
            &&& refusal == CaptureRefusal::ExpectedTrap ==> registers@[20] != 1
            &&& refusal == CaptureRefusal::ExpectedError ==> registers@[19] != 0
            &&& refusal == CaptureRefusal::ExpectedGeneral ==> expected.general is Some
        }),
{
    assert(0x10000u64 | 0x100u64 == 0x10100u64) by (bit_vector);
}

/// A refusal is unclassified exactly where the capture succeeds.
pub proof fn only_captures_are_unclassified(
    stepper: &mut Stepper,
    owner: i64,
    frame: u64,
    registers: [i64; 23],
    clock: u64,
    refusal: CaptureRefusal,
    result: Option<Completion>,
)
    requires
        call_ensures(
            Stepper::capture_refusal_reason,
            (&*old(stepper), owner, frame, &registers, clock),
            refusal,
        ),
        call_ensures(Stepper::capture, (stepper, owner, frame, &registers, clock), result),
    ensures
        refusal == CaptureRefusal::Unclassified <==> result is Some,
{
    every_refusal_has_a_reason(old(stepper)@, owner, frame, registers@, clock);
}

/// A word is reported in two halves, from which it can be put together again.
pub proof fn words_are_reported_in_halves(
    reason: &'static str,
    high: &'static str,
    low: &'static str,
    value: u64,
)
    ensures
        ({
            let records = word_records(reason, high, low, value);
            &&& records.len() == 2
            &&& records[0].field == high
            &&& records[1].field == low
            &&& records[0].value is Some
            &&& records[1].value is Some
            &&& (records[0].value->0) * 0x1_0000_0000 + (records[1].value->0) == value
            &&& 0 <= (records[1].value->0) < 0x1_0000_0000
        }),
{
}

/// A report starts with its reason, says of each kind of step whether one is pending, and what
/// was observed: the owner, the trap and the error, then frame, clock, address and flags.
pub proof fn reports_say_what_was_observed(
    stepper: Stepper,
    owner: i64,
    frame: u64,
    registers: [i64; 23],
    clock: u64,
    records: Vec<Record>,
)
    requires
        call_ensures(
            Stepper::report_capture_refusal,
            (&stepper, owner, frame, &registers, clock),
            records,
        ),
    ensures
        records@.len() >= 18,
        records@[0].value is None,
        records@[1].value == Some(if stepper@.captured is Some {
            1i64
        } else {
            0
        }),
        records@[2].value == Some(if stepper@.native is Some {
            1i64
        } else {
            0
        }),
        records@[3].value == Some(if stepper@.expected is Some {
            1i64
        } else {
            0
        }),
        records@[4].value == Some(if stepper@.fault is Some {
            1i64
        } else {
            0
        }),
        records@[5].value == Some(if stepper@.syscall is Some {
            1i64
        } else {
            0
        }),
        records@[6].value == Some(if stepper@.call is Some {
            1i64
        } else {
            0
        }),
        records@[7].value == Some(owner),
        records@[8].value == Some(registers@[20]),
        records@[9].value == Some(registers@[19]),
        (records@[10].value->0) * 0x1_0000_0000 + (records@[11].value->0) == frame,
        (records@[12].value->0) * 0x1_0000_0000 + (records@[13].value->0) == clock,
        (records@[14].value->0) * 0x1_0000_0000 + (records@[15].value->0) == registers@[16] as u64,
        (records@[16].value->0) * 0x1_0000_0000 + (records@[17].value->0) == registers@[17] as u64,
{
    let refusal = refusal_of(stepper@, owner, frame, registers@, clock);
    let reason = refusal_text(refusal);
    let observed = observed_records(stepper@, reason, owner, frame, registers@, clock);
    assert(observed.len() == 18);
    assert(forall|i: int| 0 <= i < 18 ==> records@[i] == observed[i]);
}

/// The register that is reported as different is the first that is.
pub proof fn the_first_different_register_is_found(
    words: Seq<u64>,
    registers: Seq<i64>,
    count: int,
    index: int,
)
    requires
        0 <= index < count,
    ensures
        first_difference(words, registers, count) matches Some(found) ==> 0 <= found < count
            && words[found] != registers[found] as u64 && (index < found ==> words[index]
            == registers[index] as u64),
        first_difference(words, registers, count) is None ==> words[index] == registers[index]
            as u64,
    decreases count,
{
    if index < count - 1 {
        the_first_different_register_is_found(words, registers, count - 1, index);
    } else if count > 1 {
        the_first_different_register_is_found(words, registers, count - 1, count - 2);
    }
}

/// The step is the one of the first pending kind: captured, staged natively, predicted, at a
/// fault, in a system call, or in a call.
pub open spec fn is_first_pending(stepper: StepperModel, step: CompletionModel) -> bool {
    match (stepper.captured, stepper.native, stepper.expected, stepper.fault, stepper.syscall) {
        (Some(captured), _, _, _, _) => step == captured,
        (None, Some(native), _, _, _) => step == native.0,
        (None, None, Some(expected), _, _) => step == expected,
        (None, None, None, Some(fault), _) => step == fault.1,
        (None, None, None, None, Some(syscall)) => step == syscall.1,
        (None, None, None, None, None) => stepper.call == Some(step),
    }
}

/// The halves of a word stand at an index.
pub open spec fn halves_at(records: Seq<Record>, index: int, value: u64) -> bool {
    (records[index].value->0) * 0x1_0000_0000 + (records[index + 1].value->0) == value
}

proof fn staged_steps_are_written(reason: &'static str, step: CompletionModel)
    ensures
        ({
            let records = staged_records(reason, step);
            let at = if step.generation is Some {
                4int
            } else {
                2
            };
            &&& records.len() == at + 10
            &&& records[0].value == Some(step.owner)
            &&& records[1].value == Some(if step.generation is Some {
                1i64
            } else {
                0
            })
            &&& step.generation matches Some(generation) ==> halves_at(
                records,
                2,
                generation.number,
            )
            &&& halves_at(records, at, step.frame_generation)
            &&& halves_at(records, at + 2, step.sequence)
            &&& halves_at(records, at + 4, step.clock)
            &&& halves_at(records, at + 6, step.pc)
            &&& halves_at(records, at + 8, step.flags)
        }),
{
}

/// A report goes on with the pending step: its owner and its ticket, then frame, sequence,
/// clock, address and flags. A native one is followed by the address, the length and the bytes
/// of its instruction.
pub proof fn reports_describe_the_pending_step(
    stepper: Stepper,
    owner: i64,
    frame: u64,
    registers: [i64; 23],
    clock: u64,
    records: Vec<Record>,
    step: CompletionModel,
    index: int,
)
    requires
        is_first_pending(stepper@, step),
        call_ensures(
            Stepper::report_capture_refusal,
            (&stepper, owner, frame, &registers, clock),
            records,
        ),
    ensures
        ({
            let at = if step.generation is Some {
                22int
            } else {
                20
            };
            &&& records@.len() >= at + 10
            &&& records@[18].value == Some(step.owner)
            &&& records@[19].value == Some(if step.generation is Some {
                1i64
            } else {
                0
            })
            &&& step.generation matches Some(generation) ==> halves_at(
                records@,
                20,
                generation.number,
            )
            &&& halves_at(records@, at, step.frame_generation)
            &&& halves_at(records@, at + 2, step.sequence)
            &&& halves_at(records@, at + 4, step.clock)
            &&& halves_at(records@, at + 6, step.pc)
            &&& halves_at(records@, at + 8, step.flags)
            &&& stepper@.native matches Some((_, request)) ==> {
                &&& halves_at(records@, at + 10, request.pc)
                &&& records@[at + 12].value == Some(request.length as i64)
                &&& 0 <= index < 15 && index < request.length ==> records@[at + 13 + index].value
                    == Some(request.bytes[index] as i64)
            }
        }),
{
    let refusal = refusal_of(stepper@, owner, frame, registers@, clock);
    let reason = refusal_text(refusal);
    let observed = observed_records(stepper@, reason, owner, frame, registers@, clock);
    let staged = staged_records(reason, step);
    staged_steps_are_written(reason, step);
    assert(observed.len() == 18);
    assert(reported_step(stepper@) == Some(step));
    assert(forall|i: int| 0 <= i < staged.len() ==> records@[18 + i] == staged[i]);
    if let Some((_, request)) = stepper@.native {
        let requested = request_records(reason, request);
        let from = 18 + staged.len();
        assert(requested.len() >= 3);
        assert(forall|i: int| 0 <= i < requested.len() ==> records@[from + i] == requested[i]);
        assert(halves_at(requested, 0, request.pc));
        assert(requested[2].value == Some(request.length as i64));
        if 0 <= index < 15 && index < request.length {
            assert(requested[3 + index].value == Some(request.bytes[index] as i64));
        }
    }
}

/// Without a pending step a report has nothing to add to what was observed.
pub proof fn nothing_is_added_without_a_step(
    stepper: Stepper,
    owner: i64,
    frame: u64,
    registers: [i64; 23],
    clock: u64,
    records: Vec<Record>,
)
    requires
        stepper@.captured is None,
        stepper@.native is None,
        stepper@.expected is None,
        stepper@.fault is None,
        stepper@.syscall is None,
        stepper@.call is None,
        call_ensures(
            Stepper::report_capture_refusal,
            (&stepper, owner, frame, &registers, clock),
            records,
        ),
    ensures
        records@.len() == 18,
{
}

} // verus!

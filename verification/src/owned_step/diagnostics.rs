//! Why a capture was refused, as records of plain words.

use vstd::prelude::*;

pub mod laws;

use crate::owned_step::captures;
use crate::owned_step::general_agrees;
use crate::owned_step::general_matches;
use crate::owned_step::native::is_trace_control;
use crate::owned_step::native::CpuStepRequest;
use crate::owned_step::native::RequestModel;
use crate::owned_step::Completion;
use crate::owned_step::CompletionModel;
use crate::owned_step::Stepper;
use crate::owned_step::StepperModel;
use crate::registers::REG_EFL;
use crate::registers::REG_ERR;
use crate::registers::REG_RIP;
use crate::registers::REG_TRAPNO;
use crate::registers::RESUME_FLAG;
use crate::registers::TRAP_FLAG;
use crate::startup::USER_END;

verus! {

#[derive(Clone, Copy, Debug, PartialEq, Eq, Structural)]
pub enum CaptureRefusal {
    AlreadyCaptured,
    NativeOwner,
    NativeFrame,
    NativeClockRegression,
    NativePcZero,
    NativePcRange,
    NativeTraceFlags,
    NativeTrap,
    NativeError,
    ExpectedOwner,
    ExpectedFrame,
    ExpectedPc,
    ExpectedFlags,
    ExpectedTrap,
    ExpectedError,
    ExpectedGeneral,
    NoNativeOrExpected,
    Unclassified,
}

/// The words that name a refusal.
pub open spec fn refusal_text(refusal: CaptureRefusal) -> &'static str {
    match refusal {
        CaptureRefusal::AlreadyCaptured => "capture/already-captured",
        CaptureRefusal::NativeOwner => "capture/native-owner",
        CaptureRefusal::NativeFrame => "capture/native-frame",
        CaptureRefusal::NativeClockRegression => "capture/native-clock-regression",
        CaptureRefusal::NativePcZero => "capture/native-pc-zero",
        CaptureRefusal::NativePcRange => "capture/native-pc-range",
        CaptureRefusal::NativeTraceFlags => "capture/native-trace-flags",
        CaptureRefusal::NativeTrap => "capture/native-trap",
        CaptureRefusal::NativeError => "capture/native-error",
        CaptureRefusal::ExpectedOwner => "capture/expected-owner",
        CaptureRefusal::ExpectedFrame => "capture/expected-frame",
        CaptureRefusal::ExpectedPc => "capture/expected-pc",
        CaptureRefusal::ExpectedFlags => "capture/expected-flags",
        CaptureRefusal::ExpectedTrap => "capture/expected-trap",
        CaptureRefusal::ExpectedError => "capture/expected-error",
        CaptureRefusal::ExpectedGeneral => "capture/expected-general",
        CaptureRefusal::NoNativeOrExpected => "capture/no-native-or-expected",
        CaptureRefusal::Unclassified => "capture/unclassified",
    }
}

impl CaptureRefusal {
    pub fn text(self) -> (text: &'static str)
        ensures
            text == refusal_text(self),
    {
        match self {
            CaptureRefusal::AlreadyCaptured => "capture/already-captured",
            CaptureRefusal::NativeOwner => "capture/native-owner",
            CaptureRefusal::NativeFrame => "capture/native-frame",
            CaptureRefusal::NativeClockRegression => "capture/native-clock-regression",
            CaptureRefusal::NativePcZero => "capture/native-pc-zero",
            CaptureRefusal::NativePcRange => "capture/native-pc-range",
            CaptureRefusal::NativeTraceFlags => "capture/native-trace-flags",
            CaptureRefusal::NativeTrap => "capture/native-trap",
            CaptureRefusal::NativeError => "capture/native-error",
            CaptureRefusal::ExpectedOwner => "capture/expected-owner",
            CaptureRefusal::ExpectedFrame => "capture/expected-frame",
            CaptureRefusal::ExpectedPc => "capture/expected-pc",
            CaptureRefusal::ExpectedFlags => "capture/expected-flags",
            CaptureRefusal::ExpectedTrap => "capture/expected-trap",
            CaptureRefusal::ExpectedError => "capture/expected-error",
            CaptureRefusal::ExpectedGeneral => "capture/expected-general",
            CaptureRefusal::NoNativeOrExpected => "capture/no-native-or-expected",
            CaptureRefusal::Unclassified => "capture/unclassified",
        }
    }
}

/// One line of a report.
#[derive(Clone, Copy, Debug, PartialEq, Eq)]
pub struct Record {
    pub reason: &'static str,
    pub field: &'static str,
    pub value: Option<i64>,
}

pub open spec fn native_refusal(
    staged: CompletionModel,
    owner: i64,
    frame: u64,
    registers: Seq<i64>,
    clock: u64,
) -> CaptureRefusal {
    let pc = registers[REG_RIP as int] as u64;
    let flags = registers[REG_EFL as int] as u64;
    if owner != staged.owner {
        CaptureRefusal::NativeOwner
    } else if frame != staged.frame_generation {
        CaptureRefusal::NativeFrame
    } else if clock < staged.clock {
        CaptureRefusal::NativeClockRegression
    } else if is_trace_control(registers) {
        CaptureRefusal::Unclassified
    } else if pc == 0 {
        CaptureRefusal::NativePcZero
    } else if pc >= USER_END {
        CaptureRefusal::NativePcRange
    } else if flags & (RESUME_FLAG | TRAP_FLAG) != TRAP_FLAG {
        CaptureRefusal::NativeTraceFlags
    } else if registers[REG_TRAPNO as int] != 1 {
        CaptureRefusal::NativeTrap
    } else {
        CaptureRefusal::NativeError
    }
}

pub open spec fn expected_refusal(
    expected: CompletionModel,
    owner: i64,
    frame: u64,
    registers: Seq<i64>,
) -> CaptureRefusal {
    if owner != expected.owner {
        CaptureRefusal::ExpectedOwner
    } else if frame != expected.frame_generation {
        CaptureRefusal::ExpectedFrame
    } else if registers[REG_RIP as int] as u64 != expected.pc {
        CaptureRefusal::ExpectedPc
    } else if registers[REG_EFL as int] as u64 != expected.flags {
        CaptureRefusal::ExpectedFlags
    } else if registers[REG_TRAPNO as int] != 1 {
        CaptureRefusal::ExpectedTrap
    } else if registers[REG_ERR as int] != 0 {
        CaptureRefusal::ExpectedError
    } else if !general_agrees(expected, registers) {
        CaptureRefusal::ExpectedGeneral
    } else {
        CaptureRefusal::Unclassified
    }
}

/// The first reason why a capture is refused.
pub open spec fn refusal_of(
    stepper: StepperModel,
    owner: i64,
    frame: u64,
    registers: Seq<i64>,
    clock: u64,
) -> CaptureRefusal {
    if stepper.captured is Some {
        CaptureRefusal::AlreadyCaptured
    } else {
        match stepper.native {
            Some((staged, _)) => native_refusal(staged, owner, frame, registers, clock),
            None => match stepper.expected {
                Some(expected) => expected_refusal(expected, owner, frame, registers),
                None => CaptureRefusal::NoNativeOrExpected,
            },
        }
    }
}

pub open spec fn record(reason: &'static str, field: &'static str, value: i64) -> Seq<Record> {
    seq![Record { reason, field, value: Some(value) }]
}

/// A word in two halves, the high one first.
pub open spec fn word_records(
    reason: &'static str,
    high: &'static str,
    low: &'static str,
    value: u64,
) -> Seq<Record> {
    seq![
        Record { reason, field: high, value: Some((value / 0x1_0000_0000) as i64) },
        Record { reason, field: low, value: Some((value % 0x1_0000_0000) as i64) },
    ]
}

pub open spec fn flag_value(present: bool) -> i64 {
    if present {
        1
    } else {
        0
    }
}

/// Which kinds of step are pending, and what was observed.
pub open spec fn observed_records(
    stepper: StepperModel,
    reason: &'static str,
    owner: i64,
    frame: u64,
    registers: Seq<i64>,
    clock: u64,
) -> Seq<Record> {
    seq![Record { reason, field: "reason", value: None }] + record(
        reason,
        "pending-captured",
        flag_value(stepper.captured is Some),
    ) + record(reason, "pending-native", flag_value(stepper.native is Some)) + record(
        reason,
        "pending-expected",
        flag_value(stepper.expected is Some),
    ) + record(reason, "pending-fault", flag_value(stepper.fault is Some)) + record(
        reason,
        "pending-syscall",
        flag_value(stepper.syscall is Some),
    ) + record(reason, "pending-call", flag_value(stepper.call is Some)) + record(
        reason,
        "observed-owner",
        owner,
    ) + record(reason, "observed-trap", registers[REG_TRAPNO as int]) + record(
        reason,
        "observed-error",
        registers[REG_ERR as int],
    ) + word_records(reason, "observed-frame-high32", "observed-frame-low32", frame)
        + word_records(reason, "observed-clock-high32", "observed-clock-low32", clock)
        + word_records(
        reason,
        "observed-pc-high32",
        "observed-pc-low32",
        registers[REG_RIP as int] as u64,
    ) + word_records(
        reason,
        "observed-flags-high32",
        "observed-flags-low32",
        registers[REG_EFL as int] as u64,
    )
}

/// The step that a report describes: the captured one, else the staged one.
pub open spec fn reported_step(stepper: StepperModel) -> Option<CompletionModel> {
    if stepper.captured is Some {
        stepper.captured
    } else if stepper.native is Some {
        Some((stepper.native->0).0)
    } else if stepper.expected is Some {
        stepper.expected
    } else if stepper.fault is Some {
        Some((stepper.fault->0).1)
    } else if stepper.syscall is Some {
        Some((stepper.syscall->0).1)
    } else {
        stepper.call
    }
}

pub open spec fn ticket_records(reason: &'static str, staged: CompletionModel) -> Seq<Record> {
    match staged.generation {
        Some(generation) => word_records(
            reason,
            "ticket-generation-high32",
            "ticket-generation-low32",
            generation.number,
        ),
        None => Seq::empty(),
    }
}

pub open spec fn staged_records(reason: &'static str, staged: CompletionModel) -> Seq<Record> {
    record(reason, "staged-owner", staged.owner) + record(
        reason,
        "ticket-present",
        flag_value(staged.generation is Some),
    ) + ticket_records(reason, staged) + word_records(
        reason,
        "staged-frame-high32",
        "staged-frame-low32",
        staged.frame_generation,
    ) + word_records(reason, "ticket-sequence-high32", "ticket-sequence-low32", staged.sequence)
        + word_records(reason, "staged-clock-high32", "staged-clock-low32", staged.clock)
        + word_records(reason, "staged-pc-high32", "staged-pc-low32", staged.pc) + word_records(
        reason,
        "staged-flags-high32",
        "staged-flags-low32",
        staged.flags,
    )
}

/// The name of a byte of the retained instruction.
pub open spec fn byte_field(index: int) -> &'static str {
    if index == 0 {
        "request-byte-0"
    } else if index == 1 {
        "request-byte-1"
    } else if index == 2 {
        "request-byte-2"
    } else if index == 3 {
        "request-byte-3"
    } else if index == 4 {
        "request-byte-4"
    } else if index == 5 {
        "request-byte-5"
    } else if index == 6 {
        "request-byte-6"
    } else if index == 7 {
        "request-byte-7"
    } else if index == 8 {
        "request-byte-8"
    } else if index == 9 {
        "request-byte-9"
    } else if index == 10 {
        "request-byte-10"
    } else if index == 11 {
        "request-byte-11"
    } else if index == 12 {
        "request-byte-12"
    } else if index == 13 {
        "request-byte-13"
    } else {
        "request-byte-14"
    }
}

pub open spec fn byte_records(reason: &'static str, bytes: Seq<u8>, count: int) -> Seq<Record> {
    Seq::new(
        count as nat,
        |i: int| Record { reason, field: byte_field(i), value: Some(bytes[i] as i64) },
    )
}

pub open spec fn request_records(reason: &'static str, request: RequestModel) -> Seq<Record> {
    word_records(reason, "request-pc-high32", "request-pc-low32", request.pc) + record(
        reason,
        "request-length",
        request.length as i64,
    ) + byte_records(
        reason,
        request.bytes,
        if request.length < 15 {
            request.length as int
        } else {
            15
        },
    )
}

/// The first of the `count` leading registers that is not as expected.
pub open spec fn first_difference(words: Seq<u64>, registers: Seq<i64>, count: int) -> Option<int>
    decreases count,
{
    if count <= 0 {
        None
    } else {
        match first_difference(words, registers, count - 1) {
            Some(index) => Some(index),
            None => if words[count - 1] != registers[count - 1] as u64 {
                Some(count - 1)
            } else {
                None
            },
        }
    }
}

pub open spec fn general_records(
    stepper: StepperModel,
    refusal: CaptureRefusal,
    registers: Seq<i64>,
) -> Seq<Record> {
    let reason = refusal_text(refusal);
    if refusal == CaptureRefusal::ExpectedGeneral && stepper.expected is Some && (
    stepper.expected->0).general is Some {
        let words = (stepper.expected->0).general->0;
        match first_difference(words, registers, 16) {
            Some(index) => record(reason, "general-index", index as i64) + word_records(
                reason,
                "general-expected-high32",
                "general-expected-low32",
                words[index],
            ) + word_records(
                reason,
                "general-observed-high32",
                "general-observed-low32",
                registers[index] as u64,
            ),
            None => Seq::empty(),
        }
    } else {
        Seq::empty()
    }
}

/// The whole report on a refused capture.
pub open spec fn refusal_records(
    stepper: StepperModel,
    owner: i64,
    frame: u64,
    registers: Seq<i64>,
    clock: u64,
) -> Seq<Record> {
    let refusal = refusal_of(stepper, owner, frame, registers, clock);
    let reason = refusal_text(refusal);
    observed_records(stepper, reason, owner, frame, registers, clock) + match reported_step(
        stepper,
    ) {
        Some(staged) => staged_records(reason, staged),
        None => Seq::empty(),
    } + match stepper.native {
        Some((_, request)) => request_records(reason, request),
        None => Seq::empty(),
    } + general_records(stepper, refusal, registers)
}

fn push(records: &mut Vec<Record>, reason: &'static str, field: &'static str, value: i64)
    ensures
        final(records)@ == old(records)@ + record(reason, field, value),
{
    records.push(Record { reason, field, value: Some(value) });
    assert(records@ =~= old(records)@ + record(reason, field, value));
}

fn push_flag(records: &mut Vec<Record>, reason: &'static str, field: &'static str, present: bool)
    ensures
        final(records)@ == old(records)@ + record(reason, field, flag_value(present)),
{
    push(
        records,
        reason,
        field,
        if present {
            1
        } else {
            0
        },
    );
}

fn push_word(
    records: &mut Vec<Record>,
    reason: &'static str,
    high: &'static str,
    low: &'static str,
    value: u64,
)
    ensures
        final(records)@ == old(records)@ + word_records(reason, high, low, value),
{
    records.push(Record { reason, field: high, value: Some((value / 0x1_0000_0000) as i64) });
    records.push(Record { reason, field: low, value: Some((value % 0x1_0000_0000) as i64) });
    assert(records@ =~= old(records)@ + word_records(reason, high, low, value));
}

fn byte_name(index: usize) -> (field: &'static str)
    ensures
        field == byte_field(index as int),
{
    match index {
        0 => "request-byte-0",
        1 => "request-byte-1",
        2 => "request-byte-2",
        3 => "request-byte-3",
        4 => "request-byte-4",
        5 => "request-byte-5",
        6 => "request-byte-6",
        7 => "request-byte-7",
        8 => "request-byte-8",
        9 => "request-byte-9",
        10 => "request-byte-10",
        11 => "request-byte-11",
        12 => "request-byte-12",
        13 => "request-byte-13",
        _ => "request-byte-14",
    }
}

fn push_staged(records: &mut Vec<Record>, reason: &'static str, staged: &Completion)
    ensures
        final(records)@ == old(records)@ + staged_records(reason, staged@),
{
    let mut own: Vec<Record> = Vec::new();
    push(&mut own, reason, "staged-owner", staged.owner);
    push_flag(&mut own, reason, "ticket-present", staged.generation.is_some());
    match staged.generation {
        Some(generation) => {
            push_word(
                &mut own,
                reason,
                "ticket-generation-high32",
                "ticket-generation-low32",
                generation.value(),
            );
        },
        None => {},
    }
    proof {
        let start = record(reason, "staged-owner", staged@.owner) + record(
            reason,
            "ticket-present",
            flag_value(staged@.generation is Some),
        );
        assert(own@ =~= start + ticket_records(reason, staged@));
    }
    push_word(
        &mut own,
        reason,
        "staged-frame-high32",
        "staged-frame-low32",
        staged.frame_generation,
    );
    push_word(
        &mut own,
        reason,
        "ticket-sequence-high32",
        "ticket-sequence-low32",
        staged.sequence,
    );
    push_word(&mut own, reason, "staged-clock-high32", "staged-clock-low32", staged.clock);
    push_word(&mut own, reason, "staged-pc-high32", "staged-pc-low32", staged.pc);
    push_word(&mut own, reason, "staged-flags-high32", "staged-flags-low32", staged.flags);
    assert(own@ == staged_records(reason, staged@));
    records.append(&mut own);
}

fn push_request(records: &mut Vec<Record>, reason: &'static str, request: &CpuStepRequest)
    ensures
        final(records)@ == old(records)@ + request_records(reason, request@),
{
    let mut own: Vec<Record> = Vec::new();
    push_word(&mut own, reason, "request-pc-high32", "request-pc-low32", request.pc);
    push(&mut own, reason, "request-length", request.length as i64);
    let ghost start = own@;
    assert(start =~= word_records(reason, "request-pc-high32", "request-pc-low32", request.pc)
        + record(reason, "request-length", request.length as i64));
    let count: usize = if request.length < 15 {
        request.length
    } else {
        15
    };
    let mut index: usize = 0;
    assert(own@ =~= start + byte_records(reason, request.bytes@, 0));
    while index < count
        invariant
            index <= count,
            count <= 15,
            own@ == start + byte_records(reason, request.bytes@, index as int),
        decreases count - index,
    {
        push(&mut own, reason, byte_name(index), request.bytes[index] as i64);
        index = index + 1;
        assert(own@ =~= start + byte_records(reason, request.bytes@, index as int));
    }
    records.append(&mut own);
}

fn difference(words: &[u64; 16], registers: &[i64; 23]) -> (result: Option<usize>)
    ensures
        match first_difference(words@, registers@, 16) {
            Some(index) => result matches Some(found) && found == index && found < 16,
            None => result is None,
        },
{
    let mut index: usize = 0;
    while index < 16
        invariant
            index <= 16,
            first_difference(words@, registers@, index as int) is None,
        decreases 16 - index,
    {
        if words[index] != registers[index] as u64 {
            proof {
                first_difference_is_final(words@, registers@, index + 1, 16);
            }
            return Some(index);
        }
        index = index + 1;
    }
    None
}

proof fn first_difference_is_final(words: Seq<u64>, registers: Seq<i64>, low: int, high: int)
    requires
        low <= high,
        first_difference(words, registers, low) is Some,
    ensures
        first_difference(words, registers, high) == first_difference(words, registers, low),
    decreases high - low,
{
    if low < high {
        first_difference_is_final(words, registers, low, high - 1);
    }
}

impl Stepper {
    pub fn capture_refusal_reason(
        &self,
        owner: i64,
        frame_generation: u64,
        registers: &[i64; 23],
        clock: u64,
    ) -> (refusal: CaptureRefusal)
        ensures
            refusal == refusal_of(self@, owner, frame_generation, registers@, clock),
    {
        if self.captured.is_some() {
            return CaptureRefusal::AlreadyCaptured;
        }
        let pc: u64 = registers[REG_RIP] as u64;
        let flags: u64 = registers[REG_EFL] as u64;
        if let Some(pair) = &self.native {
            let staged = pair.0;
            return if owner != staged.owner {
                CaptureRefusal::NativeOwner
            } else if frame_generation != staged.frame_generation {
                CaptureRefusal::NativeFrame
            } else if clock < staged.clock {
                CaptureRefusal::NativeClockRegression
            } else if CpuStepRequest::trace_control(registers) {
                CaptureRefusal::Unclassified
            } else if pc == 0 {
                CaptureRefusal::NativePcZero
            } else if pc >= USER_END {
                CaptureRefusal::NativePcRange
            } else if flags & (RESUME_FLAG | TRAP_FLAG) != TRAP_FLAG {
                CaptureRefusal::NativeTraceFlags
            } else if registers[REG_TRAPNO] != 1 {
                CaptureRefusal::NativeTrap
            } else {
                CaptureRefusal::NativeError
            };
        }
        if let Some(expected) = &self.expected {
            return if owner != expected.owner {
                CaptureRefusal::ExpectedOwner
            } else if frame_generation != expected.frame_generation {
                CaptureRefusal::ExpectedFrame
            } else if pc != expected.pc {
                CaptureRefusal::ExpectedPc
            } else if flags != expected.flags {
                CaptureRefusal::ExpectedFlags
            } else if registers[REG_TRAPNO] != 1 {
                CaptureRefusal::ExpectedTrap
            } else if registers[REG_ERR] != 0 {
                CaptureRefusal::ExpectedError
            } else if !general_matches(expected, registers) {
                CaptureRefusal::ExpectedGeneral
            } else {
                CaptureRefusal::Unclassified
            };
        }
        CaptureRefusal::NoNativeOrExpected
    }

    /// Describes a refused capture. Describing changes nothing and accepts nothing.
    pub fn report_capture_refusal(
        &self,
        owner: i64,
        frame_generation: u64,
        registers: &[i64; 23],
        clock: u64,
    ) -> (records: Vec<Record>)
        ensures
            records@ == refusal_records(self@, owner, frame_generation, registers@, clock),
    {
        let refusal = self.capture_refusal_reason(owner, frame_generation, registers, clock);
        let reason = refusal.text();
        let mut records: Vec<Record> = Vec::new();
        records.push(Record { reason, field: "reason", value: None });
        assert(records@ =~= seq![Record { reason, field: "reason", value: None }]);
        push_flag(&mut records, reason, "pending-captured", self.captured.is_some());
        push_flag(&mut records, reason, "pending-native", self.native.is_some());
        push_flag(&mut records, reason, "pending-expected", self.expected.is_some());
        push_flag(&mut records, reason, "pending-fault", self.fault.is_some());
        push_flag(&mut records, reason, "pending-syscall", self.syscall.is_some());
        push_flag(&mut records, reason, "pending-call", self.call.is_some());
        push(&mut records, reason, "observed-owner", owner);
        push(&mut records, reason, "observed-trap", registers[REG_TRAPNO]);
        push(&mut records, reason, "observed-error", registers[REG_ERR]);
        push_word(
            &mut records,
            reason,
            "observed-frame-high32",
            "observed-frame-low32",
            frame_generation,
        );
        push_word(&mut records, reason, "observed-clock-high32", "observed-clock-low32", clock);
        push_word(
            &mut records,
            reason,
            "observed-pc-high32",
            "observed-pc-low32",
            registers[REG_RIP] as u64,
        );
        push_word(
            &mut records,
            reason,
            "observed-flags-high32",
            "observed-flags-low32",
            registers[REG_EFL] as u64,
        );
        let ghost observed = records@;
        assert(observed == observed_records(
            self@,
            reason,
            owner,
            frame_generation,
            registers@,
            clock,
        ));
        let staged: Option<Completion> = if self.captured.is_some() {
            self.captured
        } else if let Some(pair) = &self.native {
            Some(pair.0)
        } else if self.expected.is_some() {
            self.expected
        } else if let Some(pair) = &self.fault {
            Some(pair.1)
        } else if let Some(pair) = &self.syscall {
            Some(pair.1)
        } else {
            self.call
        };
        match &staged {
            Some(staged) => push_staged(&mut records, reason, staged),
            None => {
                assert(records@ =~= observed + Seq::<Record>::empty());
            },
        }
        let ghost described = records@;
        match &self.native {
            Some(pair) => push_request(&mut records, reason, &pair.1),
            None => {
                assert(records@ =~= described + Seq::<Record>::empty());
            },
        }
        let ghost requested = records@;
        let mut tail: Vec<Record> = Vec::new();
        if refusal == CaptureRefusal::ExpectedGeneral {
            if let Some(expected) = &self.expected {
                if let Some(words) = &expected.general {
                    if let Some(index) = difference(words, registers) {
                        push(&mut tail, reason, "general-index", index as i64);
                        push_word(
                            &mut tail,
                            reason,
                            "general-expected-high32",
                            "general-expected-low32",
                            words[index],
                        );
                        push_word(
                            &mut tail,
                            reason,
                            "general-observed-high32",
                            "general-observed-low32",
                            registers[index] as u64,
                        );
                    }
                }
            }
        }
        assert(tail@ =~= general_records(self@, refusal, registers@));
        records.append(&mut tail);
        records
    }
}

/// The reason is `Unclassified` exactly when the capture is not refused at all.
pub proof fn every_refusal_has_a_reason(
    stepper: StepperModel,
    owner: i64,
    frame: u64,
    registers: Seq<i64>,
    clock: u64,
)
    ensures
        (refusal_of(stepper, owner, frame, registers, clock) == CaptureRefusal::Unclassified)
            <==> captures(stepper, owner, frame, registers, clock),
{
}

/// Every record of a report carries the same reason, and the first one names it.
pub proof fn report_carries_one_reason(
    stepper: StepperModel,
    owner: i64,
    frame: u64,
    registers: Seq<i64>,
    clock: u64,
    index: int,
)
    requires
        0 <= index < refusal_records(stepper, owner, frame, registers, clock).len(),
    ensures
        ({
            let records = refusal_records(stepper, owner, frame, registers, clock);
            let reason = refusal_text(refusal_of(stepper, owner, frame, registers, clock));
            &&& records[index].reason == reason
            &&& records[0] == (Record { reason, field: "reason", value: None })
        }),
{
    let refusal = refusal_of(stepper, owner, frame, registers, clock);
    let reason = refusal_text(refusal);
    let a = observed_records(stepper, reason, owner, frame, registers, clock);
    let b = match reported_step(stepper) {
        Some(staged) => staged_records(reason, staged),
        None => Seq::empty(),
    };
    let c = match stepper.native {
        Some((_, request)) => request_records(reason, request),
        None => Seq::empty(),
    };
    let d = general_records(stepper, refusal, registers);
    assert(forall|i: int| 0 <= i < a.len() ==> (#[trigger] a[i]).reason == reason);
    assert(forall|i: int| 0 <= i < b.len() ==> (#[trigger] b[i]).reason == reason);
    assert(forall|i: int| 0 <= i < c.len() ==> (#[trigger] c[i]).reason == reason);
    assert(forall|i: int| 0 <= i < d.len() ==> (#[trigger] d[i]).reason == reason);
}

} // verus!

//! One-use owned CPU-step capture plus retained finite transitions.
//!
//! A stepper holds at most one step. Whatever is staged is completed or cancelled
//! once; nothing that was consumed can complete again. The decisions of the timer
//! controller are arguments: a function says what to ask of the controller, and
//! another takes its reply.

pub mod diagnostics;
pub mod instruction;
pub mod native;

use vstd::prelude::*;

pub mod laws;

use crate::instruction_event::InstructionEvent;
use crate::owned_step::instruction::plan_of;
use crate::owned_step::instruction::Instruction;
use crate::owned_step::native::is_trace_control;
use crate::owned_step::native::request_starts_at;
use crate::owned_step::native::CpuStepRequest;
use crate::owned_step::native::RequestModel;
use crate::registers::capture_general;
use crate::registers::captured_general;
use crate::registers::general;
use crate::registers::general_of;
use crate::registers::same_words;
use crate::registers::HookContext;
use crate::registers::REG_EFL;
use crate::registers::REG_ERR;
use crate::registers::REG_R11;
use crate::registers::REG_RAX;
use crate::registers::REG_RCX;
use crate::registers::REG_RIP;
use crate::registers::REG_TRAPNO;
use crate::registers::RESUME_FLAG;
use crate::registers::TRAP_FLAG;
use crate::startup::USER_END;
use crate::sys::SIGSEGV;
use crate::syscall_event::is_observable;
use crate::syscall_event::observable;
use crate::timer::Decision;
use crate::timer::Generation;
use crate::timer::Observation;
use crate::timer::Ticket;

verus! {

// ---------------------------------------------------------------------------
// What a step records
// ---------------------------------------------------------------------------

#[derive(Clone, Copy, Debug, PartialEq, Eq)]
pub struct Completion {
    pub generation: Option<Generation>,
    pub sequence: u64,
    pub cpu_sequence: Option<u64>,
    pub frame_generation: u64,
    pub owner: i64,
    pub pc: u64,
    pub clock: u64,
    pub flags: u64,
    pub general: Option<[u64; 16]>,
}

/// A completion with its registers as a sequence.
pub struct CompletionModel {
    pub generation: Option<Generation>,
    pub sequence: u64,
    pub cpu_sequence: Option<u64>,
    pub frame_generation: u64,
    pub owner: i64,
    pub pc: u64,
    pub clock: u64,
    pub flags: u64,
    pub general: Option<Seq<u64>>,
}

pub open spec fn words_of(general: Option<[u64; 16]>) -> Option<Seq<u64>> {
    match general {
        Some(words) => Some(words@),
        None => None,
    }
}

impl View for Completion {
    type V = CompletionModel;

    open spec fn view(&self) -> CompletionModel {
        CompletionModel {
            generation: self.generation,
            sequence: self.sequence,
            cpu_sequence: self.cpu_sequence,
            frame_generation: self.frame_generation,
            owner: self.owner,
            pc: self.pc,
            clock: self.clock,
            flags: self.flags,
            general: words_of(self.general),
        }
    }
}

impl Completion {
    pub fn is_cpu(self) -> (result: bool)
        ensures
            result == (self.cpu_sequence is Some),
    {
        self.cpu_sequence.is_some()
    }
}

fn same_generation(left: Option<Generation>, right: Option<Generation>) -> (same: bool)
    ensures
        same == (left == right),
{
    match (left, right) {
        (Some(a), Some(b)) => a == b,
        (None, None) => true,
        (Some(_), None) => false,
        (None, Some(_)) => false,
    }
}

fn same_number(left: Option<u64>, right: Option<u64>) -> (same: bool)
    ensures
        same == (left == right),
{
    match (left, right) {
        (Some(a), Some(b)) => a == b,
        (None, None) => true,
        (Some(_), None) => false,
        (None, Some(_)) => false,
    }
}

fn same_general(left: &Option<[u64; 16]>, right: &Option<[u64; 16]>) -> (same: bool)
    ensures
        same == (words_of(*left) == words_of(*right)),
{
    match (left, right) {
        (Some(a), Some(b)) => same_words(a, b),
        (None, None) => true,
        (Some(_), None) => false,
        (None, Some(_)) => false,
    }
}

fn same_completion(left: &Completion, right: &Completion) -> (same: bool)
    ensures
        same == (left@ == right@),
{
    same_generation(left.generation, right.generation) && left.sequence == right.sequence
        && same_number(left.cpu_sequence, right.cpu_sequence) && left.frame_generation
        == right.frame_generation && left.owner == right.owner && left.pc == right.pc && left.clock
        == right.clock && left.flags == right.flags && same_general(&left.general, &right.general)
}

pub open spec fn completion_of(slot: Option<Completion>) -> Option<CompletionModel> {
    match slot {
        Some(completion) => Some(completion@),
        None => None,
    }
}

fn holds(slot: &Option<Completion>, completion: &Completion) -> (result: bool)
    ensures
        result == (completion_of(*slot) == Some(completion@)),
{
    match slot {
        Some(held) => same_completion(held, completion),
        None => false,
    }
}

/// A memory fault that the kernel reported.
#[derive(Clone, Copy, Debug)]
pub struct Fault<'a> {
    pub signal: i32,
    pub code: i32,
    pub address: u64,
    pub registers: &'a [i64; 23],
}

/// What names one modeled read.
#[derive(Clone, Copy, Debug, PartialEq, Eq, Structural)]
pub struct ReadIdentity {
    pub owner: i64,
    pub frame_generation: u64,
    pub cpu_sequence: u64,
}

/// A read fault that was taken from a staged CPU step.
#[derive(Clone, Copy, Debug, PartialEq, Eq)]
pub struct ReadFaultCapture {
    pub staged: Completion,
    pub request: CpuStepRequest,
    pub address: u64,
    pub flags: u64,
    pub clock: u64,
}

pub struct ReadFaultModel {
    pub staged: CompletionModel,
    pub request: RequestModel,
    pub address: u64,
    pub flags: u64,
    pub clock: u64,
}

impl View for ReadFaultCapture {
    type V = ReadFaultModel;

    open spec fn view(&self) -> ReadFaultModel {
        ReadFaultModel {
            staged: self.staged@,
            request: self.request@,
            address: self.address,
            flags: self.flags,
            clock: self.clock,
        }
    }
}

fn same_bytes(left: &[u8; 15], right: &[u8; 15]) -> (same: bool)
    ensures
        same == (left@ == right@),
{
    let mut index: usize = 0;
    while index < 15
        invariant
            index <= 15,
            forall|i: int| 0 <= i < index ==> left@[i] == right@[i],
        decreases 15 - index,
    {
        if left[index] != right[index] {
            return false;
        }
        index = index + 1;
    }
    assert(left@ =~= right@);
    true
}

fn same_request(left: &CpuStepRequest, right: &CpuStepRequest) -> (same: bool)
    ensures
        same == (left@ == right@),
{
    left.pc == right.pc && same_bytes(&left.bytes, &right.bytes) && left.length == right.length
        && same_words(&left.general, &right.general) && left.flags == right.flags
}

fn same_read_fault(left: &ReadFaultCapture, right: &ReadFaultCapture) -> (same: bool)
    ensures
        same == (left@ == right@),
{
    same_completion(&left.staged, &right.staged) && same_request(&left.request, &right.request)
        && left.address == right.address && left.flags == right.flags && left.clock == right.clock
}

impl ReadFaultCapture {
    pub fn identity(&self) -> (identity: ReadIdentity)
        requires
            self@.staged.cpu_sequence is Some,
        ensures
            identity == (ReadIdentity {
                owner: self@.staged.owner,
                frame_generation: self@.staged.frame_generation,
                cpu_sequence: self@.staged.cpu_sequence->0,
            }),
    {
        ReadIdentity {
            owner: self.staged.owner,
            frame_generation: self.staged.frame_generation,
            cpu_sequence: self.staged.cpu_sequence.unwrap(),
        }
    }

    pub fn request(&self) -> (request: CpuStepRequest)
        ensures
            request == self.request,
    {
        self.request
    }

    pub fn address(&self) -> (address: u64)
        ensures
            address == self@.address,
    {
        self.address
    }

    pub fn flags(&self) -> (flags: u64)
        ensures
            flags == self@.flags,
    {
        self.flags
    }

    pub fn clock(&self) -> (clock: u64)
        ensures
            clock == self@.clock,
    {
        self.clock
    }

    pub fn ticket(&self) -> (ticket: Option<Ticket>)
        ensures
            ticket == match self@.staged.generation {
                Some(generation) => Some(
                    Ticket { generation, sequence: self@.staged.sequence },
                ),
                None => None,
            },
    {
        match self.staged.generation {
            Some(generation) => Some(Ticket { generation, sequence: self.staged.sequence }),
            None => None,
        }
    }

    pub fn matches_context(&self, context: &HookContext) -> (result: bool)
        ensures
            result == (context.instruction_pointer == self@.request.pc && context.rflags
                == self@.flags && general_of(*context) == self@.request.general),
    {
        context.instruction_pointer == self.request.pc && context.rflags == self.flags
            && same_words(&general(context), self.request.input_registers())
    }
}

// ---------------------------------------------------------------------------
// The stepper
// ---------------------------------------------------------------------------

#[derive(Debug)]
pub struct Stepper {
    pub cpu_sequence: u64,
    pub expected: Option<Completion>,
    pub native: Option<(Completion, CpuStepRequest)>,
    pub captured: Option<Completion>,
    pub modeled: Option<ReadFaultCapture>,
    pub fault: Option<(InstructionEvent, Completion)>,
    pub syscall: Option<(i64, Completion)>,
    pub call: Option<Completion>,
    pub completed: u64,
    pub modeled_completed: u64,
    pub last: Option<Completion>,
}

pub struct StepperModel {
    pub cpu_sequence: u64,
    pub expected: Option<CompletionModel>,
    pub native: Option<(CompletionModel, RequestModel)>,
    pub captured: Option<CompletionModel>,
    pub modeled: Option<ReadFaultModel>,
    pub fault: Option<(InstructionEvent, CompletionModel)>,
    pub syscall: Option<(i64, CompletionModel)>,
    pub call: Option<CompletionModel>,
    pub completed: u64,
    pub modeled_completed: u64,
    pub last: Option<CompletionModel>,
}

impl View for Stepper {
    type V = StepperModel;

    open spec fn view(&self) -> StepperModel {
        StepperModel {
            cpu_sequence: self.cpu_sequence,
            expected: completion_of(self.expected),
            native: match self.native {
                Some((staged, request)) => Some((staged@, request@)),
                None => None,
            },
            captured: completion_of(self.captured),
            modeled: match self.modeled {
                Some(captured) => Some(captured@),
                None => None,
            },
            fault: match self.fault {
                Some((event, staged)) => Some((event, staged@)),
                None => None,
            },
            syscall: match self.syscall {
                Some((number, staged)) => Some((number, staged@)),
                None => None,
            },
            call: completion_of(self.call),
            completed: self.completed,
            modeled_completed: self.modeled_completed,
            last: completion_of(self.last),
        }
    }
}

/// A stepper with nothing staged, captured or counted.
pub open spec fn idle_stepper() -> StepperModel {
    StepperModel {
        cpu_sequence: 0,
        expected: None,
        native: None,
        captured: None,
        modeled: None,
        fault: None,
        syscall: None,
        call: None,
        completed: 0,
        modeled_completed: 0,
        last: None,
    }
}

/// Something is staged or captured.
pub open spec fn is_pending(stepper: StepperModel) -> bool {
    ||| stepper.expected is Some
    ||| stepper.native is Some
    ||| stepper.captured is Some
    ||| stepper.modeled is Some
    ||| stepper.fault is Some
    ||| stepper.syscall is Some
    ||| stepper.call is Some
}

pub open spec fn one_if(present: bool) -> int {
    if present {
        1
    } else {
        0
    }
}

/// At most one step is staged or captured.
pub open spec fn one_step(stepper: StepperModel) -> bool {
    one_if(stepper.expected is Some) + one_if(stepper.native is Some) + one_if(
        stepper.captured is Some,
    ) + one_if(stepper.modeled is Some) + one_if(stepper.fault is Some) + one_if(
        stepper.syscall is Some,
    ) + one_if(stepper.call is Some) <= 1
}

pub open spec fn general_agrees(expected: CompletionModel, registers: Seq<i64>) -> bool {
    match expected.general {
        Some(words) => words == captured_general(registers),
        None => true,
    }
}

/// The captured frame is exactly the one that was predicted.
pub open spec fn frame_agrees(
    expected: CompletionModel,
    owner: i64,
    frame: u64,
    registers: Seq<i64>,
    trap: i64,
    error: i64,
) -> bool {
    &&& owner == expected.owner
    &&& frame == expected.frame_generation
    &&& registers[REG_RIP as int] as u64 == expected.pc
    &&& registers[REG_EFL as int] as u64 == expected.flags
    &&& registers[REG_TRAPNO as int] == trap
    &&& registers[REG_ERR as int] == error
    &&& general_agrees(expected, registers)
}

pub open spec fn observation_of(
    staged: CompletionModel,
    clock: u64,
    rip: u64,
) -> Option<Observation> {
    match staged.generation {
        Some(generation) => Some(
            Observation { generation, sequence: staged.sequence, clock, rip },
        ),
        None => None,
    }
}

fn general_matches(expected: &Completion, registers: &[i64; 23]) -> (result: bool)
    ensures
        result == general_agrees(expected@, registers@),
{
    match &expected.general {
        Some(words) => same_words(words, &capture_general(registers)),
        None => true,
    }
}

fn frame_matches(
    expected: &Completion,
    owner: i64,
    frame: u64,
    registers: &[i64; 23],
    trap: i64,
    error: i64,
) -> (result: bool)
    ensures
        result == frame_agrees(expected@, owner, frame, registers@, trap, error),
{
    owner == expected.owner && frame == expected.frame_generation && registers[REG_RIP] as u64
        == expected.pc && registers[REG_EFL] as u64 == expected.flags && registers[REG_TRAPNO]
        == trap && registers[REG_ERR] == error && general_matches(expected, registers)
}

fn observation(staged: &Completion, clock: u64, rip: u64) -> (observation: Option<Observation>)
    ensures
        observation == observation_of(staged@, clock, rip),
{
    match staged.generation {
        Some(generation) => Some(
            Observation { generation, sequence: staged.sequence, clock, rip },
        ),
        None => None,
    }
}

// ---------------------------------------------------------------------------
// Transitions
// ---------------------------------------------------------------------------

/// A read fault of the staged instruction itself, with its inputs untouched.
pub open spec fn is_read_fault(
    stepper: StepperModel,
    owner: i64,
    frame: u64,
    signal: i32,
    code: i32,
    registers: Seq<i64>,
    clock: u64,
) -> bool {
    stepper.native matches Some((staged, request)) && {
        let flags = registers[REG_EFL as int] as u64;
        &&& stepper.modeled is None
        &&& stepper.captured is None
        &&& owner == staged.owner
        &&& frame == staged.frame_generation
        &&& frame < u64::MAX
        &&& staged.cpu_sequence == Some(stepper.cpu_sequence)
        &&& signal == SIGSEGV
        &&& code == 2
        &&& registers[REG_TRAPNO as int] == 14
        &&& (registers[REG_ERR as int] == 4 || registers[REG_ERR as int] == 5)
        &&& registers[REG_RIP as int] as u64 == request.pc
        &&& flags & TRAP_FLAG != 0
        &&& (flags ^ request.flags) & !(RESUME_FLAG | TRAP_FLAG) == 0
        &&& (request.flags & RESUME_FLAG != 0 ==> flags & RESUME_FLAG != 0)
        &&& captured_general(registers) == request.general
        &&& staged.clock <= clock
    }
}

pub open spec fn read_fault_model(
    stepper: StepperModel,
    address: u64,
    registers: Seq<i64>,
    clock: u64,
) -> ReadFaultModel {
    ReadFaultModel {
        staged: (stepper.native->0).0,
        request: (stepper.native->0).1,
        address,
        flags: registers[REG_EFL as int] as u64,
        clock,
    }
}

/// The modeled read that was captured last and is not completed.
pub open spec fn modeled_valid(
    stepper: StepperModel,
    captured: ReadFaultModel,
    owner: i64,
    frame: u64,
) -> bool {
    &&& stepper.modeled == Some(captured)
    &&& captured.staged.owner == owner
    &&& captured.staged.frame_generation + 1 == frame
    &&& captured.staged.cpu_sequence == Some(stepper.cpu_sequence)
}

pub open spec fn modeled_completes(
    stepper: StepperModel,
    captured: ReadFaultModel,
    owner: i64,
    frame: u64,
    successor: u64,
) -> bool {
    &&& modeled_valid(stepper, captured, owner, frame)
    &&& captured.request.pc + captured.request.length == successor
    &&& stepper.modeled_completed < u64::MAX
}

pub open spec fn cpu_stageable(
    stepper: StepperModel,
    frame: (i64, u64),
    request: RequestModel,
    context: HookContext,
) -> bool {
    &&& !is_pending(stepper)
    &&& frame.0 > 0
    &&& frame.1 != 0
    &&& request_starts_at(request, context)
    &&& stepper.cpu_sequence < u64::MAX
}

pub open spec fn cpu_staged(
    stepper: StepperModel,
    frame: (i64, u64),
    ticket: Option<Ticket>,
    request: RequestModel,
    context: HookContext,
    clock: u64,
) -> StepperModel {
    let sequence = (stepper.cpu_sequence + 1) as u64;
    let staged = CompletionModel {
        generation: match ticket {
            Some(ticket) => Some(ticket.generation),
            None => None,
        },
        sequence: match ticket {
            Some(ticket) => ticket.sequence,
            None => 0,
        },
        cpu_sequence: Some(sequence),
        frame_generation: frame.1,
        owner: frame.0,
        pc: request.pc,
        clock,
        flags: context.rflags,
        general: Some(general_of(context)),
    };
    StepperModel { native: Some((staged, request)), cpu_sequence: sequence, ..stepper }
}

pub open spec fn cpu_fault_valid(
    stepper: StepperModel,
    owner: i64,
    frame: u64,
    registers: Seq<i64>,
    clock: u64,
) -> bool {
    stepper.native matches Some((expected, request)) && {
        &&& owner == expected.owner
        &&& frame == expected.frame_generation
        &&& expected.cpu_sequence == Some(stepper.cpu_sequence)
        &&& registers[REG_RIP as int] as u64 == request.pc
        &&& registers[REG_EFL as int] as u64 & TRAP_FLAG != 0
        &&& expected.clock <= clock
    }
}

pub open spec fn cpu_completes(
    stepper: StepperModel,
    completion: CompletionModel,
    clock: u64,
) -> bool {
    &&& completion.cpu_sequence == Some(stepper.cpu_sequence)
    &&& stepper.captured == Some(completion)
    &&& clock == completion.clock
    &&& stepper.completed < u64::MAX
}

pub open spec fn cpu_completed(
    stepper: StepperModel,
    completion: CompletionModel,
) -> StepperModel {
    StepperModel {
        captured: None,
        completed: (stepper.completed + 1) as u64,
        last: Some(completion),
        ..stepper
    }
}

/// A NOP of a thread that is not traced, inside the user range.
pub open spec fn nop_stageable(
    stepper: StepperModel,
    owner: i64,
    frame: u64,
    pc: u64,
    flags: u64,
) -> bool {
    &&& !is_pending(stepper)
    &&& owner > 0
    &&& frame != 0
    &&& flags & TRAP_FLAG == 0
    &&& pc != 0
    &&& pc + 1 < USER_END
}

pub open spec fn nop_completion(
    generation: Generation,
    owner: i64,
    frame: u64,
    pc: u64,
    flags: u64,
    clock: u64,
) -> CompletionModel {
    CompletionModel {
        generation: Some(generation),
        sequence: 1,
        cpu_sequence: None,
        frame_generation: frame,
        owner,
        pc: (pc + 1) as u64,
        clock,
        flags: (flags | TRAP_FLAG) & !RESUME_FLAG,
        general: None,
    }
}

pub open spec fn is_valid_trace(
    stepper: StepperModel,
    owner: i64,
    frame: u64,
    registers: Seq<i64>,
) -> bool {
    stepper.expected matches Some(expected) && frame_agrees(
        expected,
        owner,
        frame,
        registers,
        1,
        0,
    )
}

/// The trap of the staged CPU step.
pub open spec fn native_captures(
    stepper: StepperModel,
    owner: i64,
    frame: u64,
    registers: Seq<i64>,
    clock: u64,
) -> bool {
    stepper.native matches Some((staged, request)) && {
        &&& owner == staged.owner
        &&& frame == staged.frame_generation
        &&& staged.clock <= clock
        &&& is_trace_control(registers)
    }
}

/// A step ends here, natively or as predicted.
pub open spec fn captures(
    stepper: StepperModel,
    owner: i64,
    frame: u64,
    registers: Seq<i64>,
    clock: u64,
) -> bool {
    stepper.captured is None && if stepper.native is Some {
        native_captures(stepper, owner, frame, registers, clock)
    } else {
        is_valid_trace(stepper, owner, frame, registers)
    }
}

pub open spec fn capture_result(
    stepper: StepperModel,
    registers: Seq<i64>,
    clock: u64,
) -> CompletionModel {
    match stepper.native {
        Some((staged, request)) => CompletionModel {
            pc: registers[REG_RIP as int] as u64,
            clock,
            flags: registers[REG_EFL as int] as u64,
            general: Some(captured_general(registers)),
            ..staged
        },
        None => stepper.expected->0,
    }
}

pub open spec fn capture_next(
    stepper: StepperModel,
    registers: Seq<i64>,
    clock: u64,
) -> StepperModel {
    if stepper.native is Some {
        StepperModel {
            native: None,
            captured: Some(capture_result(stepper, registers, clock)),
            ..stepper
        }
    } else {
        stepper
    }
}

/// What completing the expected step asks of the controller.
pub open spec fn completion_question(
    stepper: StepperModel,
    completion: CompletionModel,
    clock: u64,
) -> Option<Observation> {
    if stepper.expected == Some(completion) && clock == completion.clock && stepper.completed
        < u64::MAX && completion.generation is Some {
        Some(
            Observation {
                generation: completion.generation->0,
                sequence: 1,
                clock,
                rip: completion.pc,
            },
        )
    } else {
        None
    }
}

pub open spec fn expected_completed(
    stepper: StepperModel,
    completion: CompletionModel,
) -> StepperModel {
    StepperModel {
        expected: None,
        completed: (stepper.completed + 1) as u64,
        last: Some(completion),
        ..stepper
    }
}

pub open spec fn modeled_done(stepper: StepperModel) -> StepperModel {
    StepperModel {
        modeled: None,
        modeled_completed: (stepper.modeled_completed + 1) as u64,
        ..stepper
    }
}

/// Everything staged or captured is gone; nothing is counted.
pub open spec fn cancelled(stepper: StepperModel) -> StepperModel {
    StepperModel {
        expected: None,
        native: None,
        captured: None,
        modeled: None,
        fault: None,
        syscall: None,
        call: None,
        ..stepper
    }
}

pub open spec fn precise_completion(
    frame: (i64, u64),
    ticket: Ticket,
    pc: u64,
    clock: u64,
    flags: u64,
    general: Seq<u64>,
) -> CompletionModel {
    CompletionModel {
        generation: Some(ticket.generation),
        sequence: ticket.sequence,
        cpu_sequence: None,
        frame_generation: frame.1,
        owner: frame.0,
        pc,
        clock,
        flags,
        general: Some(general),
    }
}

/// The stepper with the instruction staged, or `None` where it is refused.
pub open spec fn precise_staged(
    stepper: StepperModel,
    frame: (i64, u64),
    ticket: Ticket,
    instruction: Instruction,
    context: HookContext,
    clock: u64,
) -> Option<StepperModel> {
    if is_pending(stepper) || frame.0 <= 0 || frame.1 == 0 || context.rflags & TRAP_FLAG != 0 {
        None
    } else {
        match instruction {
            Instruction::Native(request) => if cpu_stageable(stepper, frame, (*request)@, context) {
                Some(cpu_staged(stepper, frame, Some(ticket), (*request)@, context, clock))
            } else {
                None
            },
            Instruction::Syscall => {
                let pc = context.instruction_pointer + 2;
                match plan_of(Instruction::Nop, context.instruction_pointer, context) {
                    Some(plan) => if is_observable(context.rax as i64) && pc < USER_END {
                        Some(
                            StepperModel {
                                syscall: Some(
                                    (
                                        context.rax as i64,
                                        precise_completion(
                                            frame,
                                            ticket,
                                            pc as u64,
                                            clock,
                                            plan.flags,
                                            plan.general.update(
                                                REG_R11 as int,
                                                context.rflags | TRAP_FLAG,
                                            ).update(REG_RCX as int, pc as u64),
                                        ),
                                    ),
                                ),
                                ..stepper
                            },
                        )
                    } else {
                        None
                    },
                    None => None,
                }
            },
            _ => match plan_of(instruction, context.instruction_pointer, context) {
                Some(plan) => if clock + plan.rcbs <= u64::MAX {
                    let completion = precise_completion(
                        frame,
                        ticket,
                        plan.pc,
                        (clock + plan.rcbs) as u64,
                        plan.flags,
                        plan.general,
                    );
                    match plan.fault {
                        Some(event) => Some(
                            StepperModel { fault: Some((event, completion)), ..stepper },
                        ),
                        None => Some(StepperModel { expected: Some(completion), ..stepper }),
                    }
                } else {
                    None
                },
                None => None,
            },
        }
    }
}

/// The stepper with a call into the vDSO staged, or `None` where it is refused.
pub open spec fn call_staged(
    stepper: StepperModel,
    frame: (i64, u64),
    ticket: Ticket,
    context: HookContext,
    clock: u64,
) -> Option<StepperModel> {
    match plan_of(Instruction::Nop, context.instruction_pointer, context) {
        Some(plan) => if !is_pending(stepper) && frame.0 > 0 && frame.1 != 0 && context.rflags
            & TRAP_FLAG == 0 && context.instruction_pointer != 0 {
            Some(
                StepperModel {
                    call: Some(
                        precise_completion(
                            frame,
                            ticket,
                            context.instruction_pointer,
                            clock,
                            plan.flags | RESUME_FLAG,
                            plan.general,
                        ),
                    ),
                    ..stepper
                },
            )
        } else {
            None
        },
        None => None,
    }
}

pub open spec fn precise_completes(
    stepper: StepperModel,
    completion: CompletionModel,
    clock: u64,
) -> bool {
    &&& completion.generation is Some
    &&& (stepper.captured == Some(completion) || stepper.expected == Some(completion))
    &&& clock == completion.clock
    &&& stepper.completed < u64::MAX
}

pub open spec fn precise_completed(
    stepper: StepperModel,
    completion: CompletionModel,
) -> StepperModel {
    StepperModel {
        expected: None,
        native: None,
        captured: None,
        completed: (stepper.completed + 1) as u64,
        last: Some(completion),
        ..stepper
    }
}

/// The frame of a staged system call, whatever the accumulator holds.
pub open spec fn syscall_agrees(
    stepper: StepperModel,
    owner: i64,
    frame: u64,
    number: i64,
    registers: Seq<i64>,
) -> bool {
    stepper.syscall matches Some((expected_number, expected)) && expected.general matches Some(
        words,
    ) && {
        &&& owner == expected.owner
        &&& frame == expected.frame_generation
        &&& number == expected_number
        &&& registers[REG_RIP as int] as u64 == expected.pc
        &&& registers[REG_EFL as int] as u64 == expected.flags
        &&& agrees_but_accumulator(words, registers)
    }
}

/// The general registers hold `words`, the accumulator excepted.
pub open spec fn agrees_but_accumulator(words: Seq<u64>, registers: Seq<i64>) -> bool {
    forall|i: int| 0 <= i < 16 && i != REG_RAX ==> #[trigger] words[i] == registers[i] as u64
}

fn same_but_accumulator(words: &[u64; 16], registers: &[i64; 23]) -> (same: bool)
    ensures
        same == agrees_but_accumulator(words@, registers@),
{
    let mut index: usize = 0;
    while index < 16
        invariant
            index <= 16,
            forall|i: int|
                0 <= i < index && i != REG_RAX ==> #[trigger] words@[i] == registers@[i] as u64,
        decreases 16 - index,
    {
        if index != REG_RAX && words[index] != registers[index] as u64 {
            assert(words@[index as int] != registers@[index as int] as u64);
            return false;
        }
        index = index + 1;
    }
    true
}

impl Default for Stepper {
    fn default() -> (stepper: Self)
        ensures
            stepper@ == idle_stepper(),
    {
        Stepper {
            cpu_sequence: 0,
            expected: None,
            native: None,
            captured: None,
            modeled: None,
            fault: None,
            syscall: None,
            call: None,
            completed: 0,
            modeled_completed: 0,
            last: None,
        }
    }
}

impl Stepper {
    pub fn pending(&self) -> (result: bool)
        ensures
            result == is_pending(self@),
    {
        self.expected.is_some() || self.native.is_some() || self.captured.is_some()
            || self.modeled.is_some() || self.fault.is_some() || self.syscall.is_some()
            || self.call.is_some()
    }

    pub fn capture_read_fault(
        &mut self,
        owner: i64,
        frame: u64,
        fault: Fault<'_>,
        clock: u64,
    ) -> (result: Option<ReadFaultCapture>)
        ensures
            is_read_fault(
                old(self)@,
                owner,
                frame,
                fault.signal,
                fault.code,
                fault.registers@,
                clock,
            ) ==> result is Some && (result->0)@ == read_fault_model(
                old(self)@,
                fault.address,
                fault.registers@,
                clock,
            ) && final(self)@ == (StepperModel {
                native: None,
                modeled: Some((result->0)@),
                ..old(self)@
            }),
            !is_read_fault(
                old(self)@,
                owner,
                frame,
                fault.signal,
                fault.code,
                fault.registers@,
                clock,
            ) ==> result is None && final(self)@ == old(self)@,
            one_step(old(self)@) ==> one_step(final(self)@),
    {
        let (staged, request) = match self.native {
            Some(pair) => pair,
            None => return None,
        };
        let registers = fault.registers;
        let flags: u64 = registers[REG_EFL] as u64;
        let original: u64 = request.input_flags();
        if self.modeled.is_some() || self.captured.is_some() || owner != staged.owner || frame
            != staged.frame_generation || frame == u64::MAX || !same_number(
            staged.cpu_sequence,
            Some(self.cpu_sequence),
        ) || fault.signal != SIGSEGV || fault.code != 2 || registers[REG_TRAPNO] != 14 || (
        registers[REG_ERR] != 4 && registers[REG_ERR] != 5) || registers[REG_RIP] as u64
            != request.pc || flags & TRAP_FLAG == 0 || (flags ^ original) & !(RESUME_FLAG
            | TRAP_FLAG) != 0 || (original & RESUME_FLAG != 0 && flags & RESUME_FLAG == 0)
            || !same_words(&capture_general(registers), request.input_registers()) || clock
            < staged.clock {
            return None;
        }
        let captured = ReadFaultCapture {
            staged,
            request,
            address: fault.address,
            flags,
            clock,
        };
        self.native = None;
        self.modeled = Some(captured);
        Some(captured)
    }

    pub fn validate_modeled(
        &self,
        captured: ReadFaultCapture,
        owner: i64,
        frame: u64,
    ) -> (result: Option<()>)
        ensures
            result == if modeled_valid(self@, captured@, owner, frame) {
                Some(())
            } else {
                None
            },
    {
        let held: bool = match &self.modeled {
            Some(modeled) => same_read_fault(modeled, &captured),
            None => false,
        };
        if held && captured.staged.owner == owner && same_number(
            captured.staged.frame_generation.checked_add(1),
            Some(frame),
        ) && same_number(captured.staged.cpu_sequence, Some(self.cpu_sequence)) {
            Some(())
        } else {
            None
        }
    }

    pub fn complete_modeled(
        &mut self,
        captured: ReadFaultCapture,
        owner: i64,
        frame: u64,
        successor: u64,
    ) -> (result: Option<Option<Observation>>)
        ensures
            modeled_completes(old(self)@, captured@, owner, frame, successor) ==> result == Some(
                observation_of(captured@.staged, captured@.clock, successor),
            ) && final(self)@ == modeled_done(old(self)@),
            !modeled_completes(old(self)@, captured@, owner, frame, successor) ==> result is None
                && final(self)@ == old(self)@,
            one_step(old(self)@) ==> one_step(final(self)@),
    {
        if self.validate_modeled(captured, owner, frame).is_none() {
            return None;
        }
        if !same_number(
            captured.request.pc.checked_add(captured.request.length as u64),
            Some(successor),
        ) {
            return None;
        }
        let completed: u64 = match self.modeled_completed.checked_add(1) {
            Some(completed) => completed,
            None => return None,
        };
        self.modeled = None;
        self.modeled_completed = completed;
        Some(observation(&captured.staged, captured.clock, successor))
    }

    pub fn stage_cpu(
        &mut self,
        frame: (i64, u64),
        ticket: Option<Ticket>,
        request: CpuStepRequest,
        context: &HookContext,
        clock: u64,
    ) -> (result: Option<()>)
        ensures
            cpu_stageable(old(self)@, frame, request@, *context) ==> result is Some
                && final(self)@ == cpu_staged(
                old(self)@,
                frame,
                ticket,
                request@,
                *context,
                clock,
            ),
            !cpu_stageable(old(self)@, frame, request@, *context) ==> result is None
                && final(self)@ == old(self)@,
            one_step(old(self)@) ==> one_step(final(self)@),
    {
        if self.pending() || frame.0 <= 0 || frame.1 == 0 || !request.starts_at(context) {
            return None;
        }
        let sequence: u64 = match self.cpu_sequence.checked_add(1) {
            Some(sequence) => sequence,
            None => return None,
        };
        let staged = Completion {
            generation: match ticket {
                Some(ticket) => Some(ticket.generation),
                None => None,
            },
            sequence: match ticket {
                Some(ticket) => ticket.sequence,
                None => 0,
            },
            cpu_sequence: Some(sequence),
            frame_generation: frame.1,
            owner: frame.0,
            pc: request.pc,
            clock,
            flags: context.rflags,
            general: Some(general(context)),
        };
        self.native = Some((staged, request));
        self.cpu_sequence = sequence;
        Some(())
    }

    pub fn validate_cpu_fault(
        &self,
        owner: i64,
        frame: u64,
        registers: &[i64; 23],
        clock: u64,
    ) -> (result: Option<()>)
        ensures
            result == if cpu_fault_valid(self@, owner, frame, registers@, clock) {
                Some(())
            } else {
                None
            },
    {
        let (expected, request) = match &self.native {
            Some(pair) => (pair.0, pair.1),
            None => return None,
        };
        if owner == expected.owner && frame == expected.frame_generation && same_number(
            expected.cpu_sequence,
            Some(self.cpu_sequence),
        ) && registers[REG_RIP] as u64 == request.pc && registers[REG_EFL] as u64 & TRAP_FLAG != 0
            && clock >= expected.clock {
            Some(())
        } else {
            None
        }
    }

    pub fn complete_cpu(&mut self, completion: Completion, clock: u64) -> (result: Option<
        Option<Observation>,
    >)
        ensures
            cpu_completes(old(self)@, completion@, clock) ==> result == Some(
                observation_of(completion@, clock, completion@.pc),
            ) && final(self)@ == cpu_completed(old(self)@, completion@),
            !cpu_completes(old(self)@, completion@, clock) ==> result is None && final(self)@
                == old(self)@,
            one_step(old(self)@) ==> one_step(final(self)@),
    {
        if !same_number(completion.cpu_sequence, Some(self.cpu_sequence)) || !holds(
            &self.captured,
            &completion,
        ) || clock != completion.clock {
            return None;
        }
        let completed: u64 = match self.completed.checked_add(1) {
            Some(completed) => completed,
            None => return None,
        };
        self.captured = None;
        self.completed = completed;
        self.last = Some(completion);
        Some(observation(&completion, clock, completion.pc))
    }

    /// Whether a NOP may be staged; the controller is asked only then, to arm one
    /// instruction past `clock`.
    pub fn may_stage_nop(
        &self,
        owner: i64,
        frame_generation: u64,
        pc: u64,
        flags: u64,
    ) -> (result: bool)
        ensures
            result == nop_stageable(self@, owner, frame_generation, pc, flags),
    {
        if self.pending() || owner <= 0 || frame_generation == 0 || flags & TRAP_FLAG != 0 || pc
            == 0 {
            return false;
        }
        match pc.checked_add(1) {
            Some(next) => next < USER_END,
            None => false,
        }
    }

    /// Stages a NOP with the controller's reply: the generation that it armed and
    /// whether to step, or `None` where it refused.
    pub fn stage_nop(
        &mut self,
        owner: i64,
        frame_generation: u64,
        pc: u64,
        flags: u64,
        clock: u64,
        armed: Option<(Generation, Decision)>,
    ) -> (result: Option<()>)
        ensures
            nop_stageable(old(self)@, owner, frame_generation, pc, flags) && armed is Some && (
            armed->0).1 == Decision::Step ==> result is Some && final(self)@ == (StepperModel {
                expected: Some(
                    nop_completion((armed->0).0, owner, frame_generation, pc, flags, clock),
                ),
                ..old(self)@
            }),
            !(nop_stageable(old(self)@, owner, frame_generation, pc, flags) && armed is Some
                && (armed->0).1 == Decision::Step) ==> result is None && final(self)@ == old(self)@,
            one_step(old(self)@) ==> one_step(final(self)@),
    {
        if !self.may_stage_nop(owner, frame_generation, pc, flags) {
            return None;
        }
        let (generation, decision) = match armed {
            Some(reply) => reply,
            None => return None,
        };
        if decision != Decision::Step {
            return None;
        }
        self.expected = Some(
            Completion {
                generation: Some(generation),
                sequence: 1,
                cpu_sequence: None,
                frame_generation,
                owner,
                pc: pc + 1,
                clock,
                flags: (flags | TRAP_FLAG) & !RESUME_FLAG,
                general: None,
            },
        );
        Some(())
    }

    /// A NOP preserves arithmetic flags; the fault-resume flag clears after
    /// execution. The full resulting flags are compared.
    pub fn validate(
        &self,
        owner: i64,
        frame_generation: u64,
        registers: &[i64; 23],
    ) -> (result: Option<Completion>)
        ensures
            is_valid_trace(self@, owner, frame_generation, registers@) ==> result == self.expected,
            !is_valid_trace(self@, owner, frame_generation, registers@) ==> result is None,
    {
        match self.expected {
            Some(expected) => if frame_matches(
                &expected,
                owner,
                frame_generation,
                registers,
                1,
                0,
            ) {
                Some(expected)
            } else {
                None
            },
            None => None,
        }
    }

    pub fn capture(
        &mut self,
        owner: i64,
        frame_generation: u64,
        registers: &[i64; 23],
        clock: u64,
    ) -> (result: Option<Completion>)
        ensures
            captures(old(self)@, owner, frame_generation, registers@, clock) ==> result is Some
                && (result->0)@ == capture_result(old(self)@, registers@, clock) && final(self)@
                == capture_next(old(self)@, registers@, clock),
            !captures(old(self)@, owner, frame_generation, registers@, clock) ==> result is None
                && final(self)@ == old(self)@,
            one_step(old(self)@) ==> one_step(final(self)@),
    {
        if self.captured.is_some() {
            return None;
        }
        let staged = match self.native {
            Some(pair) => pair.0,
            None => return self.validate(owner, frame_generation, registers),
        };
        if owner != staged.owner || frame_generation != staged.frame_generation || clock
            < staged.clock || !CpuStepRequest::trace_control(registers) {
            return None;
        }
        let completion = Completion {
            generation: staged.generation,
            sequence: staged.sequence,
            cpu_sequence: staged.cpu_sequence,
            frame_generation: staged.frame_generation,
            owner: staged.owner,
            pc: registers[REG_RIP] as u64,
            clock,
            flags: registers[REG_EFL] as u64,
            general: Some(capture_general(registers)),
        };
        self.native = None;
        self.captured = Some(completion);
        Some(completion)
    }

    /// What completing the expected step asks of the controller, unless it is
    /// refused before the controller is asked.
    pub fn completion_request(&self, completion: &Completion, clock: u64) -> (result: Option<
        Observation,
    >)
        ensures
            result == completion_question(self@, completion@, clock),
    {
        if !holds(&self.expected, completion) || clock != completion.clock || self.completed
            == u64::MAX {
            return None;
        }
        match completion.generation {
            Some(generation) => Some(
                Observation { generation, sequence: 1, clock, rip: completion.pc },
            ),
            None => None,
        }
    }

    /// Completes the expected step with the controller's reply to
    /// `completion_request`, `None` where it refused.
    pub fn complete(
        &mut self,
        completion: Completion,
        clock: u64,
        reply: Option<Decision>,
    ) -> (result: Option<()>)
        ensures
            completion_question(old(self)@, completion@, clock) is Some && reply == Some(
                Decision::Deliver,
            ) ==> result is Some && final(self)@ == expected_completed(old(self)@, completion@),
            !(completion_question(old(self)@, completion@, clock) is Some && reply == Some(
                Decision::Deliver,
            )) ==> result is None && final(self)@ == old(self)@,
            one_step(old(self)@) ==> one_step(final(self)@),
    {
        if self.completion_request(&completion, clock).is_none() {
            return None;
        }
        let delivered: bool = match reply {
            Some(decision) => decision == Decision::Deliver,
            None => false,
        };
        if !delivered {
            return None;
        }
        self.expected = None;
        self.completed = self.completed + 1;
        self.last = Some(completion);
        Some(())
    }

    /// Invalidates an interrupted step without counting it as an instruction, and
    /// names the generation that the controller is to cancel.
    pub fn cancel(&mut self) -> (generation: Option<Generation>)
        ensures
            final(self)@ == cancelled(old(self)@),
            generation == match old(self)@.expected {
                Some(expected) => expected.generation,
                None => None,
            },
            one_step(final(self)@),
            !is_pending(final(self)@),
    {
        let generation: Option<Generation> = match self.expected {
            Some(expected) => expected.generation,
            None => None,
        };
        self.native = None;
        self.captured = None;
        self.modeled = None;
        self.fault = None;
        self.syscall = None;
        self.call = None;
        self.expected = None;
        generation
    }

    pub fn stage_precise(
        &mut self,
        frame: (i64, u64),
        ticket: Ticket,
        instruction: Instruction,
        context: &HookContext,
        clock: u64,
    ) -> (result: Option<()>)
        ensures
            match precise_staged(old(self)@, frame, ticket, instruction, *context, clock) {
                Some(next) => result is Some && final(self)@ == next,
                None => result is None && final(self)@ == old(self)@,
            },
            one_step(old(self)@) ==> one_step(final(self)@),
    {
        if self.pending() || frame.0 <= 0 || frame.1 == 0 || context.rflags & TRAP_FLAG != 0 {
            return None;
        }
        if let Instruction::Native(request) = instruction {
            return self.stage_cpu(frame, Some(ticket), *request, context, clock);
        }
        let pc: u64 = context.instruction_pointer;
        if let Instruction::Syscall = instruction {
            if !observable(context.rax as i64) {
                return None;
            }
            let next: u64 = match pc.checked_add(2) {
                Some(next) => next,
                None => return None,
            };
            if next >= USER_END {
                return None;
            }
            let plan = match Instruction::Nop.plan(pc, context) {
                Some(plan) => plan,
                None => return None,
            };
            let mut words: [u64; 16] = plan.general;
            words[REG_R11] = context.rflags | TRAP_FLAG;
            words[REG_RCX] = next;
            self.syscall = Some(
                (
                    context.rax as i64,
                    Completion {
                        generation: Some(ticket.generation),
                        sequence: ticket.sequence,
                        cpu_sequence: None,
                        frame_generation: frame.1,
                        owner: frame.0,
                        pc: next,
                        clock,
                        flags: plan.flags,
                        general: Some(words),
                    },
                ),
            );
            return Some(());
        }
        let plan = match instruction.plan(pc, context) {
            Some(plan) => plan,
            None => return None,
        };
        let target: u64 = match clock.checked_add(plan.rcbs) {
            Some(target) => target,
            None => return None,
        };
        let completion = Completion {
            generation: Some(ticket.generation),
            sequence: ticket.sequence,
            cpu_sequence: None,
            frame_generation: frame.1,
            owner: frame.0,
            pc: plan.pc,
            clock: target,
            flags: plan.flags,
            general: Some(plan.general),
        };
        match plan.fault {
            Some(event) => {
                self.fault = Some((event, completion));
            },
            None => {
                self.expected = Some(completion);
            },
        }
        Some(())
    }

    pub fn stage_call(
        &mut self,
        frame: (i64, u64),
        ticket: Ticket,
        context: &HookContext,
        clock: u64,
    ) -> (result: Option<()>)
        ensures
            match call_staged(old(self)@, frame, ticket, *context, clock) {
                Some(next) => result is Some && final(self)@ == next,
                None => result is None && final(self)@ == old(self)@,
            },
            one_step(old(self)@) ==> one_step(final(self)@),
    {
        let pc: u64 = context.instruction_pointer;
        if self.pending() || frame.0 <= 0 || frame.1 == 0 || context.rflags & TRAP_FLAG != 0 || pc
            == 0 || pc >= USER_END {
            return None;
        }
        let plan = match Instruction::Nop.plan(pc, context) {
            Some(plan) => plan,
            None => return None,
        };
        self.call = Some(
            Completion {
                generation: Some(ticket.generation),
                sequence: ticket.sequence,
                cpu_sequence: None,
                frame_generation: frame.1,
                owner: frame.0,
                pc,
                clock,
                flags: plan.flags | RESUME_FLAG,
                general: Some(plan.general),
            },
        );
        Some(())
    }

    pub fn validate_call(&self, owner: i64, frame: u64, registers: &[i64; 23]) -> (result: Option<
        (),
    >)
        ensures
            result == match self@.call {
                Some(expected) => if frame_agrees(expected, owner, frame, registers@, 14, 0x15) {
                    Some(())
                } else {
                    None
                },
                None => None,
            },
    {
        match self.call {
            Some(expected) => if frame_matches(&expected, owner, frame, registers, 14, 0x15) {
                Some(())
            } else {
                None
            },
            None => None,
        }
    }

    pub fn cancel_call(&mut self, clock: u64) -> (result: Option<()>)
        ensures
            old(self)@.call is Some && (old(self)@.call->0).clock == clock ==> result is Some
                && final(self)@ == (StepperModel { call: None, ..old(self)@ }),
            !(old(self)@.call is Some && (old(self)@.call->0).clock == clock) ==> result is None
                && final(self)@ == old(self)@,
            one_step(old(self)@) ==> one_step(final(self)@),
    {
        match self.call {
            Some(expected) => if expected.clock != clock {
                return None;
            },
            None => return None,
        }
        self.call = None;
        Some(())
    }

    pub fn validate_fault(
        &self,
        owner: i64,
        frame_generation: u64,
        registers: &[i64; 23],
    ) -> (result: Option<InstructionEvent>)
        ensures
            result == match self@.fault {
                Some((event, expected)) => if frame_agrees(
                    expected,
                    owner,
                    frame_generation,
                    registers@,
                    13,
                    0,
                ) {
                    Some(event)
                } else {
                    None
                },
                None => None,
            },
    {
        match self.fault {
            Some(pair) => if frame_matches(&pair.1, owner, frame_generation, registers, 13, 0) {
                Some(pair.0)
            } else {
                None
            },
            None => None,
        }
    }

    pub fn complete_precise(&mut self, completion: Completion, clock: u64) -> (result: Option<
        Observation,
    >)
        ensures
            precise_completes(old(self)@, completion@, clock) ==> result == observation_of(
                completion@,
                clock,
                completion@.pc,
            ) && final(self)@ == precise_completed(old(self)@, completion@),
            !precise_completes(old(self)@, completion@, clock) ==> result is None && final(self)@
                == old(self)@,
            one_step(old(self)@) ==> one_step(final(self)@),
    {
        if completion.generation.is_none() || (!holds(&self.captured, &completion) && !holds(
            &self.expected,
            &completion,
        )) || clock != completion.clock {
            return None;
        }
        let completed: u64 = match self.completed.checked_add(1) {
            Some(completed) => completed,
            None => return None,
        };
        self.expected = None;
        self.native = None;
        self.captured = None;
        self.completed = completed;
        self.last = Some(completion);
        observation(&completion, clock, completion.pc)
    }

    pub fn cancel_fault(&mut self, clock: u64) -> (result: Option<()>)
        ensures
            old(self)@.fault is Some && (old(self)@.fault->0).1.clock == clock ==> result is Some
                && final(self)@ == (StepperModel { fault: None, ..old(self)@ }),
            !(old(self)@.fault is Some && (old(self)@.fault->0).1.clock == clock) ==> result is None
                && final(self)@ == old(self)@,
            one_step(old(self)@) ==> one_step(final(self)@),
    {
        match self.fault {
            Some(pair) => if pair.1.clock != clock {
                return None;
            },
            None => return None,
        }
        self.fault = None;
        Some(())
    }

    pub fn validate_syscall(
        &self,
        owner: i64,
        frame: u64,
        number: i64,
        registers: &[i64; 23],
    ) -> (result: Option<()>)
        ensures
            result == if syscall_agrees(self@, owner, frame, number, registers@) {
                Some(())
            } else {
                None
            },
    {
        let (expected_number, expected) = match self.syscall {
            Some(pair) => pair,
            None => return None,
        };
        let words: [u64; 16] = match expected.general {
            Some(words) => words,
            None => return None,
        };
        if owner == expected.owner && frame == expected.frame_generation && number
            == expected_number && registers[REG_RIP] as u64 == expected.pc && registers[REG_EFL]
            as u64 == expected.flags && same_but_accumulator(&words, registers) {
            Some(())
        } else {
            None
        }
    }

    pub fn cancel_syscall(&mut self, clock: u64) -> (result: Option<()>)
        ensures
            old(self)@.syscall is Some && (old(self)@.syscall->0).1.clock == clock
                ==> result is Some && final(self)@ == (StepperModel { syscall: None, ..old(self)@ }),
            !(old(self)@.syscall is Some && (old(self)@.syscall->0).1.clock == clock)
                ==> result is None && final(self)@ == old(self)@,
            one_step(old(self)@) ==> one_step(final(self)@),
    {
        match self.syscall {
            Some(pair) => if pair.1.clock != clock {
                return None;
            },
            None => return None,
        }
        self.syscall = None;
        Some(())
    }
}

// ---------------------------------------------------------------------------
// Laws
// ---------------------------------------------------------------------------

/// Nothing that completed can complete again: a CPU step, a precise step, an
/// expected step and a modeled read are each consumed by their completion.
pub proof fn completions_have_one_use(
    stepper: StepperModel,
    completion: CompletionModel,
    captured: ReadFaultModel,
    clock: u64,
    owner: i64,
    frame: u64,
    successor: u64,
)
    requires
        one_step(stepper),
    ensures
        cpu_completes(stepper, completion, clock) ==> {
            let next = cpu_completed(stepper, completion);
            &&& !cpu_completes(next, completion, clock)
            &&& !precise_completes(next, completion, clock)
            &&& completion_question(next, completion, clock) is None
        },
        precise_completes(stepper, completion, clock) ==> {
            let next = precise_completed(stepper, completion);
            &&& !precise_completes(next, completion, clock)
            &&& !cpu_completes(next, completion, clock)
            &&& completion_question(next, completion, clock) is None
        },
        completion_question(stepper, completion, clock) is Some ==> {
            let next = expected_completed(stepper, completion);
            &&& completion_question(next, completion, clock) is None
            &&& !precise_completes(next, completion, clock)
            &&& !cpu_completes(next, completion, clock)
        },
        modeled_completes(stepper, captured, owner, frame, successor) ==> !modeled_valid(
            modeled_done(stepper),
            captured,
            owner,
            frame,
        ),
{
}

/// A cancelled step is gone for good: whatever it was, it neither validates,
/// captures nor completes, and no count changed.
pub proof fn cancellation_revokes_everything(
    stepper: StepperModel,
    completion: CompletionModel,
    captured: ReadFaultModel,
    owner: i64,
    frame: u64,
    number: i64,
    registers: Seq<i64>,
    clock: u64,
)
    ensures
        ({
            let next = cancelled(stepper);
            &&& !is_pending(next)
            &&& !captures(next, owner, frame, registers, clock)
            &&& !cpu_fault_valid(next, owner, frame, registers, clock)
            &&& !syscall_agrees(next, owner, frame, number, registers)
            &&& !modeled_valid(next, captured, owner, frame)
            &&& !cpu_completes(next, completion, clock)
            &&& !precise_completes(next, completion, clock)
            &&& completion_question(next, completion, clock) is None
            &&& next.completed == stepper.completed
            &&& next.modeled_completed == stepper.modeled_completed
            &&& next.last == stepper.last
            &&& next.cpu_sequence == stepper.cpu_sequence
        }),
{
}

/// While a step is pending no other can be staged.
pub proof fn pending_steps_exclude_others(
    stepper: StepperModel,
    frame: (i64, u64),
    ticket: Ticket,
    instruction: Instruction,
    request: RequestModel,
    context: HookContext,
    clock: u64,
    owner: i64,
    generation: u64,
    pc: u64,
    flags: u64,
)
    requires
        is_pending(stepper),
    ensures
        !cpu_stageable(stepper, frame, request, context),
        !nop_stageable(stepper, owner, generation, pc, flags),
        precise_staged(stepper, frame, ticket, instruction, context, clock) is None,
        call_staged(stepper, frame, ticket, context, clock) is None,
{
}

/// A completion counts exactly one instruction and remembers it; a modeled read is
/// counted apart and not remembered.
pub proof fn completion_counts_one(
    stepper: StepperModel,
    completion: CompletionModel,
    captured: ReadFaultModel,
    clock: u64,
    owner: i64,
    frame: u64,
    successor: u64,
)
    ensures
        completion_question(stepper, completion, clock) is Some ==> expected_completed(
            stepper,
            completion,
        ).completed == stepper.completed + 1 && expected_completed(stepper, completion).last
            == Some(completion),
        modeled_completes(stepper, captured, owner, frame, successor) ==> {
            let next = modeled_done(stepper);
            &&& next.modeled_completed == stepper.modeled_completed + 1
            &&& next.completed == stepper.completed
            &&& next.last == stepper.last
        },
        cpu_completes(stepper, completion, clock) ==> cpu_completed(stepper, completion).completed
            == stepper.completed + 1 && cpu_completed(stepper, completion).last == Some(completion),
        precise_completes(stepper, completion, clock) ==> precise_completed(
            stepper,
            completion,
        ).completed == stepper.completed + 1 && precise_completed(stepper, completion).last == Some(
            completion,
        ),
{
}

/// A captured CPU step takes its program counter, flags and registers from the
/// frame and keeps who staged it: owner, frame, ticket and sequence.
pub proof fn capture_predicts_nothing(
    stepper: StepperModel,
    owner: i64,
    frame: u64,
    registers: Seq<i64>,
    clock: u64,
)
    requires
        captures(stepper, owner, frame, registers, clock),
        stepper.native is Some,
    ensures
        ({
            let staged = (stepper.native->0).0;
            let result = capture_result(stepper, registers, clock);
            &&& result.pc == registers[REG_RIP as int] as u64
            &&& result.flags == registers[REG_EFL as int] as u64
            &&& result.general == Some(captured_general(registers))
            &&& result.clock == clock
            &&& staged.clock <= result.clock
            &&& result.owner == owner == staged.owner
            &&& result.frame_generation == frame
            &&& result.generation == staged.generation
            &&& result.sequence == staged.sequence
            &&& result.cpu_sequence == staged.cpu_sequence
            &&& !captures(capture_next(stepper, registers, clock), owner, frame, registers, clock)
        }),
{
}

} // verus!

//! What binding an instruction to its starting state promises.

use vstd::prelude::*;

use crate::owned_step::native::form;
use crate::owned_step::native::inspect;
use crate::owned_step::native::is_debug_control;
use crate::owned_step::native::is_system_state;
use crate::owned_step::native::writes_segment;
use crate::owned_step::native::CpuStepRequest;
use crate::owned_step::native::Facts;
use crate::owned_step::native::Flow;
use crate::owned_step::native::Refusal;
use crate::registers::general_of;
use crate::registers::HookContext;

verus! {

/// An instruction is eligible only inside the guest, valid and unprivileged, with control
/// staying in near code, and touching neither debug flags nor segments nor the state of the
/// system.
pub proof fn eligible_instructions_stay_in_the_guest(
    pc: u64,
    facts: Facts,
    refusal: &mut Refusal,
    eligible: bool,
    index: int,
)
    requires
        call_ensures(form, (pc, &facts, refusal), eligible),
    ensures
        eligible ==> {
            &&& 0 < pc
            &&& pc + facts.length < 0x8000_0000_0000
            &&& !facts.invalid
            &&& !facts.privileged
            &&& !facts.jmp_far && !facts.jmp_far_indirect
            &&& !facts.xacquire && !facts.xrelease
            &&& facts.flow != Flow::Interrupt
            &&& facts.flow != Flow::Exception
            &&& facts.flow != Flow::XbeginXabortXend
            &&& facts.flow == Flow::Call ==> facts.call_near
            &&& facts.flow == Flow::IndirectCall ==> facts.call_near_indirect
            &&& facts.flow == Flow::Return ==> facts.mnemonic == 662
        },
        eligible && 0 <= index < facts.registers@.len() && facts.registers@[index].segment ==> !(3
            <= facts.registers@[index].access <= 6),
        final(refusal).operand is None,
{
    if eligible && 0 <= index < facts.registers@.len() && facts.registers@[index].segment {
        assert(!writes_segment(facts@.registers));
        assert(facts@.registers[index].segment);
    }
}

/// An ordinary instruction is eligible: one that goes on, branches, calls or returns near, is
/// valid, unprivileged and unprefixed, uses no segment register, and is none of the mnemonics
/// of debug flags or system state.
pub proof fn ordinary_instructions_are_eligible(
    pc: u64,
    facts: Facts,
    refusal: &mut Refusal,
    eligible: bool,
)
    requires
        0 < pc,
        pc + facts.length < 0x8000_0000_0000,
        !facts.invalid,
        !facts.privileged,
        !facts.jmp_far,
        !facts.jmp_far_indirect,
        !facts.xacquire,
        !facts.xrelease,
        facts.registers@.len() == 0,
        facts.flow == Flow::Next || facts.flow == Flow::UnconditionalBranch || facts.flow
            == Flow::IndirectBranch || facts.flow == Flow::ConditionalBranch || (facts.flow
            == Flow::Call && facts.call_near) || (facts.flow == Flow::IndirectCall
            && facts.call_near_indirect) || (facts.flow == Flow::Return && facts.mnemonic == 662),
        call_ensures(form, (pc, &facts, refusal), eligible),
    ensures
        eligible <==> !is_debug_control(facts.mnemonic) && !is_system_state(facts.mnemonic),
        facts.mnemonic == 662 ==> eligible,
{
}

/// Whatever asks the processor instead of the guest, or changes what the step itself needs, is
/// never eligible: among it the identification, the clocks, the random numbers, the flags on
/// the stack and the return from interrupts.
pub proof fn nondeterministic_instructions_are_refused(
    pc: u64,
    facts: Facts,
    refusal: &mut Refusal,
    eligible: bool,
)
    requires
        call_ensures(form, (pc, &facts, refusal), eligible),
        match facts.mnemonic {
            // pushf, popf, iret in their sizes, and lss
            642 | 1614 | 1615 | 593 | 1616 | 1617 | 296 | 1618 | 1619 | 394 => true,
            // cpuid, rdtsc, rdtscp, rdrand, rdseed, rdpmc, rdpid, rdpru
            106 | 659 | 660 | 655 | 656 | 653 | 651 | 654 => true,
            // the bases of segments, the protection keys, the extended control register
            648 | 649 | 1497 | 1498 | 652 | 1500 | 1516 | 1533 => true,
            // saving and restoring extended state
            1525 | 1526 | 1527 | 1528 | 1529 | 1530 | 1531 | 1532 => true,
            1521 | 1522 | 1523 | 1524 => true,
            // transactions and waiting
            1507 | 1515 | 1505 | 1537 | 411 | 412 | 462 | 463 | 760 | 762 | 752 => true,
            // descriptor tables and segments
            704 | 720 | 722 | 724 | 739 | 370 | 393 | 869 | 870 => true,
            // queued stores, the padlock, and the shadow stack
            153 | 154 | 1536 | 1835 | 674 | 680 | 702 | 72 | 280 | 281 => true,
            1501 | 1502 | 1503 | 1504 => true,
            _ => false,
        },
    ensures
        !eligible,
{
}

/// A request is bound exactly where its instruction is eligible, the guest does not trace
/// itself, has no fault-resume that is not its own, and stands at the instruction. It keeps
/// the address, the bytes of the instruction, and the registers and flags of the context.
pub proof fn requests_keep_their_starting_state(
    pc: u64,
    bytes: &[u8],
    facts: Facts,
    context: HookContext,
    fault_resume: bool,
    judged: &mut Refusal,
    refusal: &mut Refusal,
    eligible: bool,
    request: Option<CpuStepRequest>,
    index: int,
)
    requires
        facts.length <= 15,
        facts.length <= bytes@.len(),
        0 <= index < 15,
        call_ensures(form, (pc, &facts, judged), eligible),
        call_ensures(
            CpuStepRequest::from_facts,
            (pc, bytes, &facts, &context, fault_resume, refusal),
            request,
        ),
    ensures
        request is Some <==> eligible && context.rflags & 0x100 == 0 && (context.rflags & 0x10000
            != 0 ==> fault_resume) && context.instruction_pointer == pc,
        request matches Some(made) ==> {
            &&& made.pc == pc
            &&& made.length == facts.length
            &&& made.flags == context.rflags
            &&& made.general@ == general_of(context)
            &&& index < facts.length ==> made.bytes@[index] == bytes@[index]
            &&& index >= facts.length ==> made.bytes@[index] == 0
        },
        final(refusal).operand is None,
{
}

/// A request starts at a context exactly where address, flags and every register agree.
pub proof fn requests_start_at_one_state(
    request: CpuStepRequest,
    context: HookContext,
    result: bool,
)
    requires
        call_ensures(CpuStepRequest::starts_at, (&request, &context), result),
    ensures
        result <==> request.pc == context.instruction_pointer && request.flags == context.rflags
            && request.general@ == general_of(context),
{
}

/// A single step shows itself by its trap, inside the guest, with the trap flag and without
/// fault-resume.
pub proof fn single_steps_show_their_trap(registers: [i64; 23], result: bool)
    requires
        call_ensures(CpuStepRequest::trace_control, (&registers,), result),
    ensures
        result <==> 0 < registers@[16] as u64 && (registers@[16] as u64) < 0x8000_0000_0000
            && registers@[17] as u64 & 0x10100 == 0x100 && registers@[20] == 1 && registers@[19]
            == 0,
{
    assert(0x10000u64 | 0x100u64 == 0x10100u64) by (bit_vector);
}

/// What a request keeps is handed out as it is.
pub proof fn requests_hand_out_what_they_keep(
    request: CpuStepRequest,
    instruction: (&[u8; 15], usize),
    words: &[u64; 16],
    flags: u64,
)
    requires
        call_ensures(CpuStepRequest::retained_instruction, (&request,), instruction),
        call_ensures(CpuStepRequest::input_registers, (&request,), words),
        call_ensures(CpuStepRequest::input_flags, (&request,), flags),
    ensures
        instruction.0@ == request.bytes@,
        instruction.1 == request.length,
        words@ == request.general@,
        flags == request.flags,
{
}

/// Bytes are judged as what they decode to: recorded or not, a request is made of them exactly
/// where one is made of their facts, and it is the same.
pub proof fn bytes_are_judged_as_they_decode(
    pc: u64,
    bytes: &[u8],
    facts: Facts,
    context: HookContext,
    fault_resume: bool,
    judged: &mut Refusal,
    direct: &mut Refusal,
    recorded: &mut Refusal,
    well_formed: bool,
    eligible: bool,
    request: Option<CpuStepRequest>,
    decoded: Option<CpuStepRequest>,
)
    requires
        call_ensures(inspect, (pc, bytes), facts),
        call_ensures(form, (pc, &facts, judged), well_formed),
        call_ensures(CpuStepRequest::eligible, (pc, bytes), eligible),
        call_ensures(
            CpuStepRequest::from_facts,
            (pc, bytes, &facts, &context, fault_resume, direct),
            request,
        ),
        call_ensures(
            CpuStepRequest::decode_recorded,
            (pc, bytes, &context, fault_resume, recorded),
            decoded,
        ),
    ensures
        eligible == well_formed,
        decoded is Some <==> request is Some,
        match (decoded, request) {
            (Some(made), Some(same)) => made@ == same@,
            _ => true,
        },
        *final(recorded) == *final(direct),
        facts.length <= bytes@.len(),
{
}

} // verus!

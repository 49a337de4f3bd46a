//! What decoding and planning promise of every instruction of the vocabulary.

use vstd::prelude::*;

use crate::bytes::u32_at;
use crate::instruction_event::kind_bytes;
use crate::instruction_event::Kind;
use crate::owned_step::instruction::decrement_changes_only_its_flags;
use crate::owned_step::instruction::decrement_flags;
use crate::owned_step::instruction::decremented;
use crate::owned_step::instruction::ones;
use crate::owned_step::instruction::traced_flags;
use crate::owned_step::instruction::Instruction;
use crate::owned_step::instruction::Plan;
use crate::registers::general_of;
use crate::registers::HookContext;

verus! {

/// A displacement is the signed number that is congruent to its encoding: to a byte in the
/// short forms, to a word in the near ones.
pub open spec fn displaces(displacement: int, encoding: int, width: nat) -> bool {
    if width == 1 {
        -0x80 <= displacement < 0x80 && (displacement - encoding) % 0x100 == 0
    } else {
        -0x8000_0000 <= displacement < 0x8000_0000 && (displacement - encoding) % 0x1_0000_0000 == 0
    }
}

proof fn words_are_bounded(bytes: Seq<u8>, offset: int)
    ensures
        0 <= u32_at(bytes, offset) <= u32::MAX,
{
}

/// Everything of a plan but its address is what a traced step keeps: the trap flag set,
/// fault-resume clear, every other flag and every register as it was, and no fault.
pub open spec fn keeps_the_rest(plan: Plan, context: HookContext) -> bool {
    &&& plan.general@ == general_of(context)
    &&& plan.fault is None
    &&& plan.flags & 0x100 == 0x100
    &&& plan.flags & 0x10000 == 0
    &&& plan.flags & !0x10100 == context.rflags & !0x10100
}

proof fn traced_flags_keep_the_rest(flags: u64)
    ensures
        traced_flags(flags) & 0x100 == 0x100,
        traced_flags(flags) & 0x10000 == 0,
        traced_flags(flags) & !0x10100 == flags & !0x10100,
        (traced_flags(flags) | 0x10000) & 0x10100 == 0x10100,
        (traced_flags(flags) | 0x10000) & !0x10100 == flags & !0x10100,
{
    assert(((flags | 0x100) & !0x10000u64) & 0x100 == 0x100 && ((flags | 0x100) & !0x10000u64)
        & 0x10000 == 0 && ((flags | 0x100) & !0x10000u64) & !0x10100u64 == flags & !0x10100u64
        && (((flags | 0x100) & !0x10000u64) | 0x10000) & 0x10100 == 0x10100 && (((flags | 0x100)
        & !0x10000u64) | 0x10000) & !0x10100u64 == flags & !0x10100u64) by (bit_vector);
}

/// A short conditional branch goes to its target exactly where its condition holds: `je`
/// with the zero flag set, `jne` with it clear. Otherwise it falls through. Either way one
/// branch is counted.
pub proof fn short_branches_are_taken_on_their_condition(
    pc: u64,
    bytes: &[u8],
    displacement: int,
    context: HookContext,
    instruction: Option<Instruction>,
    plan: Option<Plan>,
)
    requires
        bytes@.len() >= 2,
        bytes@[0] == 0x74 || bytes@[0] == 0x75,
        displaces(displacement, bytes@[1] as int, 1),
        call_ensures(Instruction::decode, (pc, bytes), instruction),
        instruction is Some ==> call_ensures(
            Instruction::plan,
            (&instruction->0, pc, &context),
            plan,
        ),
    ensures
        instruction is Some <==> pc + 2 <= u64::MAX && 0 < pc + 2 + displacement
            < 0x8000_0000_0000,
        instruction is Some ==> {
            let taken = (bytes@[0] == 0x74) == (context.rflags & 64 == 64);
            let next = pc + 2 + if taken {
                displacement
            } else {
                0
            };
            &&& plan is Some <==> 0 < next < 0x8000_0000_0000
            &&& plan matches Some(plan) ==> plan.pc == next && plan.rcbs == 1 && keeps_the_rest(
                plan,
                context,
            )
        },
{
    traced_flags_keep_the_rest(context.rflags);
    let flags = context.rflags;
    assert(flags & 64 == 64 || flags & 64 == 0) by (bit_vector);
}

/// The same for the near forms, whose displacement is a word.
pub proof fn near_branches_are_taken_on_their_condition(
    pc: u64,
    bytes: &[u8],
    displacement: int,
    context: HookContext,
    instruction: Option<Instruction>,
    plan: Option<Plan>,
)
    requires
        bytes@.len() >= 6,
        bytes@[0] == 0x0f,
        bytes@[1] == 0x84 || bytes@[1] == 0x85,
        displaces(displacement, u32_at(bytes@, 2), 4),
        call_ensures(Instruction::decode, (pc, bytes), instruction),
        instruction is Some ==> call_ensures(
            Instruction::plan,
            (&instruction->0, pc, &context),
            plan,
        ),
    ensures
        instruction is Some <==> pc + 6 <= u64::MAX && 0 < pc + 6 + displacement
            < 0x8000_0000_0000,
        instruction is Some ==> {
            let taken = (bytes@[1] == 0x84) == (context.rflags & 64 == 64);
            let next = pc + 6 + if taken {
                displacement
            } else {
                0
            };
            &&& plan is Some <==> 0 < next < 0x8000_0000_0000
            &&& plan matches Some(plan) ==> plan.pc == next && plan.rcbs == 1 && keeps_the_rest(
                plan,
                context,
            )
        },
{
    traced_flags_keep_the_rest(context.rflags);
    let flags = context.rflags;
    assert(flags & 64 == 64 || flags & 64 == 0) by (bit_vector);
    words_are_bounded(bytes@, 2);
}

/// `je` and `jne` with one displacement take opposite ways from one context: one of them
/// goes to the target and the other falls through.
pub proof fn opposite_branches_take_opposite_ways(
    pc: u64,
    equal: &[u8],
    unequal: &[u8],
    context: HookContext,
    first: Instruction,
    second: Instruction,
    first_plan: Plan,
    second_plan: Plan,
)
    requires
        equal@.len() >= 2,
        unequal@.len() >= 2,
        equal@[0] == 0x74,
        unequal@[0] == 0x75,
        equal@[1] == unequal@[1],
        call_ensures(Instruction::decode, (pc, equal), Some(first)),
        call_ensures(Instruction::decode, (pc, unequal), Some(second)),
        call_ensures(Instruction::plan, (&first, pc, &context), Some(first_plan)),
        call_ensures(Instruction::plan, (&second, pc, &context), Some(second_plan)),
    ensures
        first_plan.pc == pc + 2 || second_plan.pc == pc + 2,
        first_plan.pc == second_plan.pc <==> equal@[1] == 0,
        first_plan.flags == second_plan.flags,
        first_plan.general@ == second_plan.general@,
{
}

/// Flipping the zero flag turns every conditional branch over.
pub proof fn the_zero_flag_decides_branches(
    pc: u64,
    target: u64,
    fallthrough: u64,
    zero: bool,
    set: HookContext,
    clear: HookContext,
    set_plan: Option<Plan>,
    clear_plan: Option<Plan>,
)
    requires
        set.rflags & 64 == 64,
        clear.rflags & 64 == 0,
        0 < target < 0x8000_0000_0000,
        0 < fallthrough < 0x8000_0000_0000,
        call_ensures(
            Instruction::plan,
            (&Instruction::Zero { target, fallthrough, zero }, pc, &set),
            set_plan,
        ),
        call_ensures(
            Instruction::plan,
            (&Instruction::Zero { target, fallthrough, zero }, pc, &clear),
            clear_plan,
        ),
    ensures
        set_plan matches Some(plan) && plan.pc == (if zero {
            target
        } else {
            fallthrough
        }),
        clear_plan matches Some(plan) && plan.pc == (if zero {
            fallthrough
        } else {
            target
        }),
{
}

/// A jump goes to its target, whatever the flags, and is not counted.
pub proof fn jumps_go_to_their_target(
    pc: u64,
    bytes: &[u8],
    length: int,
    displacement: int,
    context: HookContext,
    instruction: Option<Instruction>,
    plan: Option<Plan>,
)
    requires
        (length == 2 && bytes@.len() >= 2 && bytes@[0] == 0xeb && displaces(
            displacement,
            bytes@[1] as int,
            1,
        )) || (length == 5 && bytes@.len() >= 5 && bytes@[0] == 0xe9 && displaces(
            displacement,
            u32_at(bytes@, 1),
            4,
        )),
        call_ensures(Instruction::decode, (pc, bytes), instruction),
        instruction is Some ==> call_ensures(
            Instruction::plan,
            (&instruction->0, pc, &context),
            plan,
        ),
    ensures
        instruction is Some <==> pc + length <= u64::MAX && 0 < pc + length + displacement
            < 0x8000_0000_0000,
        instruction is Some ==> (plan matches Some(plan) && plan.pc == pc + length + displacement
            && plan.rcbs == 0 && keeps_the_rest(plan, context)),
{
    traced_flags_keep_the_rest(context.rflags);
    words_are_bounded(bytes@, 1);
}

/// A nop only goes on by its one byte.
pub proof fn nops_change_nothing(
    pc: u64,
    bytes: &[u8],
    context: HookContext,
    instruction: Option<Instruction>,
    plan: Option<Plan>,
)
    requires
        bytes@.len() >= 1,
        bytes@[0] == 0x90,
        call_ensures(Instruction::decode, (pc, bytes), instruction),
        instruction is Some ==> call_ensures(
            Instruction::plan,
            (&instruction->0, pc, &context),
            plan,
        ),
    ensures
        instruction is Some,
        plan is Some <==> pc + 1 < 0x8000_0000_0000,
        plan matches Some(plan) ==> plan.pc == pc + 1 && plan.rcbs == 0 && keeps_the_rest(
            plan,
            context,
        ),
{
    traced_flags_keep_the_rest(context.rflags);
}

/// A move puts its word in the counter, with the upper half clear, and changes no other
/// register and no flag.
pub proof fn moves_set_the_counter(
    pc: u64,
    bytes: &[u8],
    context: HookContext,
    instruction: Option<Instruction>,
    plan: Option<Plan>,
)
    requires
        bytes@.len() >= 5,
        bytes@[0] == 0xb9,
        call_ensures(Instruction::decode, (pc, bytes), instruction),
        instruction is Some ==> call_ensures(
            Instruction::plan,
            (&instruction->0, pc, &context),
            plan,
        ),
    ensures
        instruction is Some,
        plan is Some <==> pc + 5 < 0x8000_0000_0000,
        plan matches Some(plan) ==> {
            let word = bytes@[1] + 0x100 * bytes@[2] + 0x1_0000 * bytes@[3] + 0x100_0000
                * bytes@[4];
            &&& plan.pc == pc + 5
            &&& plan.rcbs == 0
            &&& plan.general@.len() == 16
            &&& plan.general@[14] == word
            &&& forall|i: int|
                0 <= i < 16 && i != 14 ==> #[trigger] plan.general@[i] == general_of(context)[i]
            &&& plan.fault is None
            &&& plan.flags & !0x10100 == context.rflags & !0x10100
            &&& plan.flags & 0x10100 == 0x100
        },
{
    traced_flags_keep_the_rest(context.rflags);
    let flags = traced_flags(context.rflags);
    assert(flags & 0x100 == 0x100 && flags & 0x10000 == 0 ==> flags & 0x10100 == 0x100)
        by (bit_vector);
    words_are_bounded(bytes@, 1);
}

/// A decrement takes one from the low half of the counter, wraps there, clears the upper
/// half, and changes no other register.
pub proof fn decrements_take_one_from_the_counter(
    pc: u64,
    bytes: &[u8],
    context: HookContext,
    instruction: Option<Instruction>,
    plan: Option<Plan>,
)
    requires
        bytes@.len() >= 2,
        bytes@[0] == 0xff,
        bytes@[1] == 0xc9,
        call_ensures(Instruction::decode, (pc, bytes), instruction),
        instruction is Some ==> call_ensures(
            Instruction::plan,
            (&instruction->0, pc, &context),
            plan,
        ),
    ensures
        instruction is Some,
        plan is Some <==> pc + 2 < 0x8000_0000_0000,
        plan matches Some(plan) ==> {
            let before = context.rcx as int % 0x1_0000_0000;
            let after = plan.general@[14];
            &&& plan.pc == pc + 2
            &&& plan.rcbs == 0
            &&& plan.fault is None
            &&& plan.general@.len() == 16
            &&& after < 0x1_0000_0000
            &&& (after + 1) % 0x1_0000_0000 == before
            &&& forall|i: int|
                0 <= i < 16 && i != 14 ==> #[trigger] plan.general@[i] == general_of(context)[i]
            &&& plan.flags & 0x100 == 0x100
            &&& plan.flags & 0x10000 == 0
            &&& (plan.flags & 64 == 64) == (after == 0)
            &&& (plan.flags & 128 == 128) == (after >= 0x8000_0000)
            &&& (plan.flags & 2048 == 2048) == (before == 0x8000_0000)
            &&& (plan.flags & 16 == 16) == (before % 16 == 0)
            &&& (plan.flags & 4 == 4) == (ones((after % 0x100) as nat) % 2 == 0)
            &&& plan.flags & !0x109d4 == context.rflags & !0x109d4
        },
{
    let rcx = context.rcx;
    assert(rcx as u32 == rcx % 0x1_0000_0000) by (bit_vector);
    let before = rcx as u32;
    let flags = context.rflags;
    let start = traced_flags(flags);
    traced_flags_keep_the_rest(flags);
    decrement_changes_only_its_flags(flags, before);
    let result = decrement_flags(start, before, decremented(before));
    assert(result & !0x8d4u64 == start & !0x8d4u64 && start & 0x100 == 0x100 && start & 0x10000
        == 0 && start & !0x10100u64 == flags & !0x10100u64 ==> result & 0x100 == 0x100 && result
        & 0x10000 == 0 && result & !0x109d4u64 == flags & !0x109d4u64) by (bit_vector);
    assert((result & 64 != 0) == (result & 64 == 64) && (result & 128 != 0) == (result & 128
        == 128) && (result & 2048 != 0) == (result & 2048 == 2048) && (result & 16 != 0) == (result
        & 16 == 16) && (result & 4 != 0) == (result & 4 == 4)) by (bit_vector);
}

/// An instruction that faults stays where it is, with fault-resume set, and reports its
/// event at its own address, to be resumed behind it.
pub proof fn faults_stay_in_place(
    pc: u64,
    bytes: &[u8],
    kind: Kind,
    context: HookContext,
    instruction: Option<Instruction>,
    plan: Option<Plan>,
)
    requires
        kind_bytes(kind).is_prefix_of(bytes@),
        call_ensures(Instruction::decode, (pc, bytes), instruction),
        instruction is Some ==> call_ensures(
            Instruction::plan,
            (&instruction->0, pc, &context),
            plan,
        ),
    ensures
        instruction is Some <==> pc + kind_bytes(kind).len() <= u64::MAX,
        instruction is Some ==> (plan is Some <==> 0 < pc < 0x8000_0000_0000),
        instruction is Some ==> (plan matches Some(plan) ==> {
            &&& plan.pc == pc
            &&& plan.rcbs == 0
            &&& plan.general@ == general_of(context)
            &&& plan.flags & 0x10100 == 0x10100
            &&& plan.flags & !0x10100 == context.rflags & !0x10100
            &&& plan.fault matches Some(event) && event.kind == kind && event.pc == pc
                && event.resume_pc == pc + kind_bytes(kind).len()
        }),
{
    traced_flags_keep_the_rest(context.rflags);
    assert(bytes@[0] == kind_bytes(kind)[0] && bytes@[1] == kind_bytes(kind)[1]);
    if kind == Kind::Rdtscp {
        assert(bytes@[2] == kind_bytes(kind)[2]);
        assert(kind_bytes(Kind::Cpuid)[1] == 0xa2 && kind_bytes(Kind::Rdtsc)[1] == 0x31);
    } else if kind == Kind::Rdtsc {
        assert(kind_bytes(Kind::Cpuid)[1] == 0xa2);
    }
}

/// The first byte, and for some the second, tells the instruction; anything else, a system
/// call among it, is no instruction of the vocabulary.
pub proof fn the_opcode_tells_the_instruction(
    pc: u64,
    bytes: &[u8],
    instruction: Option<Instruction>,
)
    requires
        call_ensures(Instruction::decode, (pc, bytes), instruction),
    ensures
        instruction is Some ==> bytes@.len() >= 1,
        instruction matches Some(Instruction::Nop) ==> bytes@[0] == 0x90,
        instruction matches Some(Instruction::MovEcx(_)) ==> bytes@[0] == 0xb9 && bytes@.len() >= 5,
        instruction matches Some(Instruction::DecEcx) ==> bytes@[0] == 0xff && bytes@.len() >= 2
            && bytes@[1] == 0xc9,
        instruction matches Some(Instruction::Jump(_)) ==> (bytes@[0] == 0xeb && bytes@.len() >= 2)
            || (bytes@[0] == 0xe9 && bytes@.len() >= 5),
        instruction matches Some(Instruction::Zero { .. }) ==> ((bytes@[0] == 0x74 || bytes@[0]
            == 0x75) && bytes@.len() >= 2) || (bytes@[0] == 0x0f && bytes@.len() >= 6 && (bytes@[1]
            == 0x84 || bytes@[1] == 0x85)),
        instruction matches Some(Instruction::Fault(_)) ==> bytes@[0] == 0x0f && bytes@.len() >= 2
            && (bytes@[1] == 0xa2 || bytes@[1] == 0x31 || bytes@[1] == 0x01),
        !(instruction matches Some(Instruction::Syscall)),
        !(instruction matches Some(Instruction::Native(_))),
        bytes@.len() >= 2 && bytes@[0] == 0x0f && bytes@[1] == 0x05 ==> instruction is None,
{
    if bytes@.len() >= 1 {
        assert(kind_bytes(Kind::Cpuid)[0] == 0x0f && kind_bytes(Kind::Cpuid)[1] == 0xa2);
        assert(kind_bytes(Kind::Rdtsc)[0] == 0x0f && kind_bytes(Kind::Rdtsc)[1] == 0x31);
        assert(kind_bytes(Kind::Rdtscp)[0] == 0x0f && kind_bytes(Kind::Rdtscp)[1] == 0x01);
    }
}

/// Bytes behind an instruction do not change it.
pub proof fn bytes_behind_an_instruction_change_nothing(
    pc: u64,
    bytes: &[u8],
    longer: &[u8],
    instruction: Instruction,
    same: Option<Instruction>,
)
    requires
        bytes@.is_prefix_of(longer@),
        call_ensures(Instruction::decode, (pc, bytes), Some(instruction)),
        call_ensures(Instruction::decode, (pc, longer), same),
    ensures
        same == Some(instruction),
{
    assert(forall|i: int| 0 <= i < bytes@.len() ==> bytes@[i] == longer@[i]);
    assert forall|kind: Kind| kind_bytes(kind).is_prefix_of(bytes@) implies #[trigger] kind_bytes(
        kind,
    ).is_prefix_of(longer@) by {
        assert(longer@.take(kind_bytes(kind).len() as int) =~= bytes@.take(
            kind_bytes(kind).len() as int,
        ));
    }
    if kind_bytes(Kind::Rdtscp).is_prefix_of(bytes@) {
        assert(bytes@[1] == kind_bytes(Kind::Rdtscp)[1]);
        assert(kind_bytes(Kind::Cpuid)[1] == 0xa2 && kind_bytes(Kind::Rdtsc)[1] == 0x31);
        assert(!kind_bytes(Kind::Cpuid).is_prefix_of(longer@));
        assert(!kind_bytes(Kind::Rdtsc).is_prefix_of(longer@));
    }
    if kind_bytes(Kind::Rdtsc).is_prefix_of(bytes@) {
        assert(bytes@[1] == kind_bytes(Kind::Rdtsc)[1]);
        assert(kind_bytes(Kind::Cpuid)[1] == 0xa2);
        assert(!kind_bytes(Kind::Cpuid).is_prefix_of(longer@));
    }
}

/// A system call and a request of its own making are never predicted.
pub proof fn only_the_vocabulary_is_planned(
    instruction: Instruction,
    pc: u64,
    context: HookContext,
    plan: Option<Plan>,
)
    requires
        instruction is Syscall || instruction is Native,
        call_ensures(Instruction::plan, (&instruction, pc, &context), plan),
    ensures
        plan is None,
{
}

} // verus!

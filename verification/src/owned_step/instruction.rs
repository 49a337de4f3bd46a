//! Finite native stepping vocabulary: predictions, never instruction emulation.

use vstd::prelude::*;

pub mod laws;

use crate::bytes::read_u32;
use crate::bytes::u32_at;
use crate::instruction_event::event_at;
use crate::instruction_event::InstructionEvent;
use crate::owned_step::native::CpuStepRequest;
use crate::registers::general;
use crate::registers::general_of;
use crate::registers::HookContext;
use crate::registers::REG_RCX;
use crate::registers::RESUME_FLAG;
use crate::registers::TRAP_FLAG;
use crate::startup::USER_END;

verus! {

/// The arithmetic flags that a decrement changes.
pub const DECREMENT_FLAGS: u64 = 0x8d4;

pub const ZERO_FLAG: u64 = 64;

#[derive(Debug, PartialEq, Eq)]
pub enum Instruction {
    Native(Box<CpuStepRequest>),
    Nop,
    MovEcx(u32),
    DecEcx,
    Jump(u64),
    Zero { target: u64, fallthrough: u64, zero: bool },
    Fault(InstructionEvent),
    Syscall,
}

/// What one instruction leaves behind.
#[derive(Clone, Copy, Debug)]
pub struct Plan {
    pub pc: u64,
    pub flags: u64,
    pub general: [u64; 16],
    pub rcbs: u64,
    pub fault: Option<InstructionEvent>,
}

pub struct PlanView {
    pub pc: u64,
    pub flags: u64,
    pub general: Seq<u64>,
    pub rcbs: u64,
    pub fault: Option<InstructionEvent>,
}

impl View for Plan {
    type V = PlanView;

    open spec fn view(&self) -> PlanView {
        PlanView {
            pc: self.pc,
            flags: self.flags,
            general: self.general@,
            rcbs: self.rcbs,
            fault: self.fault,
        }
    }
}

/// A byte as a two's-complement displacement.
pub open spec fn signed_byte(byte: u8) -> int {
    if byte < 0x80 {
        byte as int
    } else {
        byte - 0x100
    }
}

/// A 32-bit word as a two's-complement displacement.
pub open spec fn signed_word(word: int) -> int {
    if word < 0x8000_0000 {
        word
    } else {
        word - 0x1_0000_0000
    }
}

/// The branch target `displacement` bytes past `pc + length`, where it is a nonnull
/// user address.
pub open spec fn branch_target(pc: u64, length: int, displacement: int) -> Option<u64> {
    let target = pc + length + displacement;
    if pc + length <= u64::MAX && 0 < target < USER_END {
        Some(target as u64)
    } else {
        None
    }
}

/// The conditional branch or jump of `length` bytes at `pc`.
pub open spec fn branch_at(
    pc: u64,
    length: int,
    displacement: int,
    conditional: bool,
    zero: bool,
) -> Option<Instruction> {
    match branch_target(pc, length, displacement) {
        Some(target) => if conditional {
            Some(Instruction::Zero { target, fallthrough: (pc + length) as u64, zero })
        } else {
            Some(Instruction::Jump(target))
        },
        None => None,
    }
}

/// The instruction of the vocabulary that starts `bytes`.
pub open spec fn instruction_at(pc: u64, bytes: Seq<u8>) -> Option<Instruction> {
    let len = bytes.len();
    if len >= 1 && bytes[0] == 0x90 {
        Some(Instruction::Nop)
    } else if len >= 5 && bytes[0] == 0xb9 {
        Some(Instruction::MovEcx(u32_at(bytes, 1) as u32))
    } else if len >= 2 && bytes[0] == 0xff && bytes[1] == 0xc9 {
        Some(Instruction::DecEcx)
    } else if len >= 2 && (bytes[0] == 0x74 || bytes[0] == 0x75 || bytes[0] == 0xeb) {
        branch_at(pc, 2, signed_byte(bytes[1]), bytes[0] != 0xeb, bytes[0] == 0x74)
    } else if len >= 6 && bytes[0] == 0x0f && (bytes[1] == 0x84 || bytes[1] == 0x85) {
        branch_at(pc, 6, signed_word(u32_at(bytes, 2)), true, bytes[1] == 0x84)
    } else if len >= 5 && bytes[0] == 0xe9 {
        branch_at(pc, 5, signed_word(u32_at(bytes, 1)), false, false)
    } else {
        match event_at(pc, bytes) {
            Some(event) => Some(Instruction::Fault(event)),
            None => None,
        }
    }
}

/// How many bits of a number are set.
pub open spec fn ones(value: nat) -> nat
    decreases value,
{
    if value == 0 {
        0
    } else {
        value % 2 + ones(value / 2)
    }
}

pub open spec fn flag_if(condition: bool, flag: u64) -> u64 {
    if condition {
        flag
    } else {
        0
    }
}

/// The flags after `before` was decremented: parity of the low byte, borrow out of
/// the low digit, zero, sign and overflow.
pub open spec fn decrement_flags(flags: u64, before: u32, after: u32) -> u64 {
    (flags & !DECREMENT_FLAGS) | flag_if(ones((after % 0x100) as nat) % 2 == 0, 4) | flag_if(
        before % 16 == 0,
        16,
    ) | flag_if(after == 0, 64) | flag_if(after >= 0x8000_0000, 128) | flag_if(
        before == 0x8000_0000,
        2048,
    )
}

/// The flags while the step is traced: the trap flag set, fault-resume cleared.
pub open spec fn traced_flags(flags: u64) -> u64 {
    (flags | TRAP_FLAG) & !RESUME_FLAG
}

pub open spec fn decremented(before: u32) -> u32 {
    if before == 0 {
        u32::MAX
    } else {
        (before - 1) as u32
    }
}

/// A plan that leaves the general registers alone, unless its address is no nonnull
/// user address.
pub open spec fn plan_at(
    pc: int,
    flags: u64,
    general: Seq<u64>,
    rcbs: u64,
    fault: Option<InstructionEvent>,
) -> Option<PlanView> {
    if 0 < pc < USER_END {
        Some(PlanView { pc: pc as u64, flags, general, rcbs, fault })
    } else {
        None
    }
}

/// What the instruction leaves behind when it starts from `context` at `pc`.
pub open spec fn plan_of(
    instruction: Instruction,
    pc: u64,
    context: HookContext,
) -> Option<PlanView> {
    let flags = traced_flags(context.rflags);
    let general = general_of(context);
    match instruction {
        Instruction::Nop => plan_at(pc + 1, flags, general, 0, None),
        Instruction::MovEcx(value) => plan_at(
            pc + 5,
            flags,
            general.update(REG_RCX as int, value as u64),
            0,
            None,
        ),
        Instruction::DecEcx => {
            let before = context.rcx as u32;
            let after = decremented(before);
            plan_at(
                pc + 2,
                decrement_flags(flags, before, after),
                general.update(REG_RCX as int, after as u64),
                0,
                None,
            )
        },
        Instruction::Jump(target) => plan_at(target as int, flags, general, 0, None),
        Instruction::Zero { target, fallthrough, zero } => plan_at(
            if (context.rflags & ZERO_FLAG != 0) == zero {
                target as int
            } else {
                fallthrough as int
            },
            flags,
            general,
            1,
            None,
        ),
        Instruction::Fault(event) => plan_at(
            pc as int,
            flags | RESUME_FLAG,
            general,
            0,
            Some(event),
        ),
        Instruction::Syscall => None,
        Instruction::Native(_) => None,
    }
}

fn target_of(pc: u64, length: u64, displacement: i64) -> (target: Option<u64>)
    requires
        length <= 15,
    ensures
        target == branch_target(pc, length as int, displacement as int),
{
    let fallthrough: u64 = match pc.checked_add(length) {
        Some(fallthrough) => fallthrough,
        None => return None,
    };
    let target: i128 = fallthrough as i128 + displacement as i128;
    if 0 < target && target < USER_END as i128 {
        Some(target as u64)
    } else {
        None
    }
}

fn sign_byte(byte: u8) -> (displacement: i64)
    ensures
        displacement == signed_byte(byte),
{
    if byte < 0x80 {
        byte as i64
    } else {
        byte as i64 - 0x100
    }
}

fn sign_word(word: u32) -> (displacement: i64)
    ensures
        displacement == signed_word(word as int),
{
    if word < 0x8000_0000 {
        word as i64
    } else {
        word as i64 - 0x1_0000_0000
    }
}

fn even_parity(byte: u32) -> (result: bool)
    ensures
        result == (ones(byte as nat) % 2 == 0),
{
    let mut rest: u32 = byte;
    let mut even: bool = true;
    while rest != 0
        invariant
            (ones(byte as nat) % 2 == 0) == (even == (ones(rest as nat) % 2 == 0)),
        decreases rest,
    {
        if rest % 2 == 1 {
            even = !even;
        }
        rest = rest / 2;
    }
    even
}

fn bit(condition: bool, flag: u64) -> (result: u64)
    ensures
        result == flag_if(condition, flag),
{
    if condition {
        flag
    } else {
        0
    }
}

impl Instruction {
    pub fn decode(pc: u64, bytes: &[u8]) -> (instruction: Option<Self>)
        ensures
            instruction == instruction_at(pc, bytes@),
    {
        let len: usize = bytes.len();
        if len >= 1 && bytes[0] == 0x90 {
            return Some(Instruction::Nop);
        }
        if len >= 5 && bytes[0] == 0xb9 {
            return Some(Instruction::MovEcx(read_u32(bytes, 1)));
        }
        if len >= 2 && bytes[0] == 0xff && bytes[1] == 0xc9 {
            return Some(Instruction::DecEcx);
        }
        if len >= 2 && (bytes[0] == 0x74 || bytes[0] == 0x75 || bytes[0] == 0xeb) {
            return match target_of(pc, 2, sign_byte(bytes[1])) {
                Some(target) => Some(
                    if bytes[0] == 0xeb {
                        Instruction::Jump(target)
                    } else {
                        Instruction::Zero { target, fallthrough: pc + 2, zero: bytes[0] == 0x74 }
                    },
                ),
                None => None,
            };
        }
        if len >= 6 && bytes[0] == 0x0f && (bytes[1] == 0x84 || bytes[1] == 0x85) {
            return match target_of(pc, 6, sign_word(read_u32(bytes, 2))) {
                Some(target) => Some(
                    Instruction::Zero { target, fallthrough: pc + 6, zero: bytes[1] == 0x84 },
                ),
                None => None,
            };
        }
        if len >= 5 && bytes[0] == 0xe9 {
            return match target_of(pc, 5, sign_word(read_u32(bytes, 1))) {
                Some(target) => Some(Instruction::Jump(target)),
                None => None,
            };
        }
        match InstructionEvent::decode(pc, bytes) {
            Some(event) => Some(Instruction::Fault(event)),
            None => None,
        }
    }

    pub fn plan(&self, pc: u64, context: &HookContext) -> (plan: Option<Plan>)
        ensures
            match plan_of(*self, pc, *context) {
                Some(expected) => plan matches Some(made) && made@ == expected,
                None => plan is None,
            },
    {
        let mut flags: u64 = (context.rflags | TRAP_FLAG) & !RESUME_FLAG;
        let mut words: [u64; 16] = general(context);
        let mut rcbs: u64 = 0;
        let mut fault: Option<InstructionEvent> = None;
        let next: u64;
        match self {
            Instruction::Nop => match pc.checked_add(1) {
                Some(end) => {
                    next = end;
                },
                None => return None,
            },
            Instruction::MovEcx(value) => match pc.checked_add(5) {
                Some(end) => {
                    next = end;
                    words[REG_RCX] = *value as u64;
                },
                None => return None,
            },
            Instruction::DecEcx => match pc.checked_add(2) {
                Some(end) => {
                    next = end;
                    let before: u32 = context.rcx as u32;
                    let after: u32 = if before == 0 {
                        u32::MAX
                    } else {
                        before - 1
                    };
                    words[REG_RCX] = after as u64;
                    flags = (flags & !DECREMENT_FLAGS) | bit(even_parity(after % 0x100), 4) | bit(
                        before % 16 == 0,
                        16,
                    ) | bit(after == 0, 64) | bit(after >= 0x8000_0000, 128) | bit(
                        before == 0x8000_0000,
                        2048,
                    );
                },
                None => return None,
            },
            Instruction::Jump(target) => {
                next = *target;
            },
            Instruction::Zero { target, fallthrough, zero } => {
                next = if (context.rflags & ZERO_FLAG != 0) == *zero {
                    *target
                } else {
                    *fallthrough
                };
                rcbs = 1;
            },
            Instruction::Fault(event) => {
                next = pc;
                fault = Some(*event);
                flags = flags | RESUME_FLAG;
            },
            Instruction::Syscall => return None,
            Instruction::Native(_) => return None,
        }
        if next != 0 && next < USER_END {
            Some(Plan { pc: next, flags, general: words, rcbs, fault })
        } else {
            None
        }
    }
}

/// A decrement predicts each arithmetic flag it changes and no other flag, and
/// leaves the step traced.
pub proof fn decrement_changes_only_its_flags(flags: u64, before: u32)
    ensures
        ({
            let after = decremented(before);
            let start = traced_flags(flags);
            let result = decrement_flags(start, before, after);
            &&& result & !DECREMENT_FLAGS == start & !DECREMENT_FLAGS
            &&& (result & 4 != 0) == (ones((after % 0x100) as nat) % 2 == 0)
            &&& (result & 16 != 0) == (before % 16 == 0)
            &&& (result & 64 != 0) == (before == 1)
            &&& (result & 128 != 0) == (after >= 0x8000_0000)
            &&& (result & 2048 != 0) == (before == 0x8000_0000)
            &&& result & TRAP_FLAG != 0
        }),
{
    let after = decremented(before);
    let start = traced_flags(flags);
    let p = flag_if(ones((after % 0x100) as nat) % 2 == 0, 4);
    let a = flag_if(before % 16 == 0, 16);
    let z = flag_if(after == 0, 64);
    let s = flag_if(after >= 0x8000_0000, 128);
    let o = flag_if(before == 0x8000_0000, 2048);
    let result = (start & !0x8d4u64) | p | a | z | s | o;
    assert((result & !0x8d4u64 == start & !0x8d4u64) && (result & 4 != 0) == (p == 4) && (result & 16
        != 0) == (a == 16) && (result & 64 != 0) == (z == 64) && (result & 128 != 0) == (s == 128)
        && (result & 2048 != 0) == (o == 2048) && (result & 0x100 != 0)) by (bit_vector)
        requires
            result == (start & !0x8d4u64) | p | a | z | s | o,
            start == (flags | 0x100) & !0x10000u64,
            p == 0 || p == 4,
            a == 0 || a == 16,
            z == 0 || z == 64,
            s == 0 || s == 128,
            o == 0 || o == 2048,
    ;
}

/// The vocabulary never decodes a system call or a request of its own making.
pub proof fn decoding_never_yields_syscalls(pc: u64, bytes: Seq<u8>)
    ensures
        instruction_at(pc, bytes) matches Some(instruction) ==> !(instruction is Syscall) && !(
        instruction is Native),
{
}

} // verus!

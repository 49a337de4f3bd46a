//! Saved guest registers.

use vstd::prelude::*;

pub mod laws;

verus! {

pub const REG_R11: usize = 3;

pub const REG_RDI: usize = 8;

pub const REG_RBX: usize = 11;

pub const REG_RDX: usize = 12;

pub const REG_RAX: usize = 13;

pub const REG_RCX: usize = 14;

pub const REG_RSP: usize = 15;

pub const REG_RIP: usize = 16;

pub const REG_EFL: usize = 17;

pub const REG_ERR: usize = 19;

pub const REG_TRAPNO: usize = 20;

/// Single-step trap flag.
pub const TRAP_FLAG: u64 = 0x100;

/// Fault-resume flag.
pub const RESUME_FLAG: u64 = 0x10000;

/// The registers that a runtime entry saves.
#[derive(Clone, Copy, Debug, PartialEq, Eq)]
pub struct HookContext {
    pub r8: u64,
    pub r9: u64,
    pub r10: u64,
    pub r11: u64,
    pub r12: u64,
    pub r13: u64,
    pub r14: u64,
    pub r15: u64,
    pub rdi: u64,
    pub rsi: u64,
    pub rbp: u64,
    pub rbx: u64,
    pub rdx: u64,
    pub rax: u64,
    pub rcx: u64,
    pub stack_pointer: u64,
    pub instruction_pointer: u64,
    pub rflags: u64,
}

impl Default for HookContext {
    fn default() -> (context: Self)
        ensures
            general_of(context) == Seq::new(16, |i: int| 0u64),
            context.instruction_pointer == 0,
            context.rflags == 0,
    {
        let context = HookContext {
            r8: 0,
            r9: 0,
            r10: 0,
            r11: 0,
            r12: 0,
            r13: 0,
            r14: 0,
            r15: 0,
            rdi: 0,
            rsi: 0,
            rbp: 0,
            rbx: 0,
            rdx: 0,
            rax: 0,
            rcx: 0,
            stack_pointer: 0,
            instruction_pointer: 0,
            rflags: 0,
        };
        assert(general_of(context) =~= Seq::new(16, |i: int| 0u64));
        context
    }
}

/// The sixteen general registers, in the order of a signal frame.
pub open spec fn general_of(context: HookContext) -> Seq<u64> {
    seq![
        context.r8,
        context.r9,
        context.r10,
        context.r11,
        context.r12,
        context.r13,
        context.r14,
        context.r15,
        context.rdi,
        context.rsi,
        context.rbp,
        context.rbx,
        context.rdx,
        context.rax,
        context.rcx,
        context.stack_pointer,
    ]
}

pub fn general(context: &HookContext) -> (words: [u64; 16])
    ensures
        words@ == general_of(*context),
{
    let words: [u64; 16] = [
        context.r8,
        context.r9,
        context.r10,
        context.r11,
        context.r12,
        context.r13,
        context.r14,
        context.r15,
        context.rdi,
        context.rsi,
        context.rbp,
        context.rbx,
        context.rdx,
        context.rax,
        context.rcx,
        context.stack_pointer,
    ];
    assert(words@ =~= general_of(*context));
    words
}

/// The general registers of a captured signal frame.
pub open spec fn captured_general(registers: Seq<i64>) -> Seq<u64> {
    Seq::new(16, |i: int| registers[i] as u64)
}

pub fn capture_general(registers: &[i64; 23]) -> (words: [u64; 16])
    ensures
        words@ == captured_general(registers@),
{
    let words: [u64; 16] = [
        registers[0] as u64,
        registers[1] as u64,
        registers[2] as u64,
        registers[3] as u64,
        registers[4] as u64,
        registers[5] as u64,
        registers[6] as u64,
        registers[7] as u64,
        registers[8] as u64,
        registers[9] as u64,
        registers[10] as u64,
        registers[11] as u64,
        registers[12] as u64,
        registers[13] as u64,
        registers[14] as u64,
        registers[15] as u64,
    ];
    assert(words@ =~= captured_general(registers@));
    words
}

pub fn same_words(left: &[u64; 16], right: &[u64; 16]) -> (same: bool)
    ensures
        same == (left@ == right@),
{
    let mut index: usize = 0;
    while index < 16
        invariant
            index <= 16,
            forall|i: int| 0 <= i < index ==> left@[i] == right@[i],
        decreases 16 - index,
    {
        if left[index] != right[index] {
            return false;
        }
        index = index + 1;
    }
    assert(left@ =~= right@);
    true
}

} // verus!

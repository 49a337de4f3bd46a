//! What saved registers promise.

use vstd::prelude::*;

use crate::registers::capture_general;
use crate::registers::general;
use crate::registers::same_words;
use crate::registers::HookContext;

verus! {

/// The general registers stand in the order of a signal frame.
pub proof fn general_registers_stand_in_frame_order(context: HookContext, words: [u64; 16])
    requires
        call_ensures(general, (&context,), words),
    ensures
        words@[0] == context.r8,
        words@[1] == context.r9,
        words@[2] == context.r10,
        words@[3] == context.r11,
        words@[4] == context.r12,
        words@[5] == context.r13,
        words@[6] == context.r14,
        words@[7] == context.r15,
        words@[8] == context.rdi,
        words@[9] == context.rsi,
        words@[10] == context.rbp,
        words@[11] == context.rbx,
        words@[12] == context.rdx,
        words@[13] == context.rax,
        words@[14] == context.rcx,
        words@[15] == context.stack_pointer,
{
}

/// A frame's first sixteen words are its general registers, bit for bit.
pub proof fn captured_registers_are_the_frames(
    registers: [i64; 23],
    words: [u64; 16],
    index: int,
)
    requires
        0 <= index < 16,
        call_ensures(capture_general, (&registers,), words),
    ensures
        words@[index] as i64 == registers@[index],
        registers@[index] >= 0 ==> words@[index] == registers@[index],
{
    let word = registers@[index];
    assert((word as u64) as i64 == word) by (bit_vector);
}

/// Words are the same exactly where each of them is.
pub proof fn words_are_compared_one_by_one(
    left: [u64; 16],
    right: [u64; 16],
    same: bool,
    index: int,
)
    requires
        0 <= index < 16,
        call_ensures(same_words, (&left, &right), same),
    ensures
        same ==> left@[index] == right@[index],
        (forall|i: int| 0 <= i < 16 ==> #[trigger] left@[i] == right@[i]) ==> same,
{
    if forall|i: int| 0 <= i < 16 ==> #[trigger] left@[i] == right@[i] {
        assert(left@ =~= right@);
    }
}

} // verus!

//! What the recognition of instructions promises.

use vstd::prelude::*;

use crate::instruction_event::kind_bytes;
use crate::instruction_event::InstructionEvent;
use crate::instruction_event::Kind;

verus! {

/// An instruction is recognized by its own bytes and is resumed behind them.
pub proof fn instructions_are_resumed_behind_their_bytes(
    pc: u64,
    bytes: &[u8],
    event: Option<InstructionEvent>,
)
    requires
        call_ensures(InstructionEvent::decode, (pc, bytes), event),
    ensures
        ({
            let two = bytes@.len() >= 2 && bytes@[0] == 0x0f && pc + 2 <= u64::MAX;
            let three = bytes@.len() >= 3 && bytes@[0] == 0x0f && pc + 3 <= u64::MAX;
            &&& event matches Some(found) ==> found.pc == pc && found.resume_pc == pc + (
            if found.kind == Kind::Rdtscp {
                3int
            } else {
                2
            })
            &&& (event matches Some(found) && found.kind == Kind::Cpuid) <==> two && bytes@[1]
                == 0xa2
            &&& (event matches Some(found) && found.kind == Kind::Rdtsc) <==> two && bytes@[1]
                == 0x31
            &&& (event matches Some(found) && found.kind == Kind::Rdtscp) <==> three && bytes@[1]
                == 0x01 && bytes@[2] == 0xf9
        }),
{
    let cpuid = kind_bytes(Kind::Cpuid);
    let rdtsc = kind_bytes(Kind::Rdtsc);
    let rdtscp = kind_bytes(Kind::Rdtscp);
    assert(cpuid.is_prefix_of(bytes@) <==> bytes@.len() >= 2 && bytes@[0] == 0x0f && bytes@[1]
        == 0xa2) by {
        if bytes@.len() >= 2 {
            let head = bytes@.subrange(0, 2);
            assert(head[0] == bytes@[0] && head[1] == bytes@[1]);
            if bytes@[0] == 0x0f && bytes@[1] == 0xa2 {
                assert(cpuid =~= head);
            }
            assert(cpuid[0] == 0x0f && cpuid[1] == 0xa2);
        }
    }
    assert(rdtsc.is_prefix_of(bytes@) <==> bytes@.len() >= 2 && bytes@[0] == 0x0f && bytes@[1]
        == 0x31) by {
        if bytes@.len() >= 2 {
            let head = bytes@.subrange(0, 2);
            assert(head[0] == bytes@[0] && head[1] == bytes@[1]);
            if bytes@[0] == 0x0f && bytes@[1] == 0x31 {
                assert(rdtsc =~= head);
            }
            assert(rdtsc[0] == 0x0f && rdtsc[1] == 0x31);
        }
    }
    assert(rdtscp.is_prefix_of(bytes@) <==> bytes@.len() >= 3 && bytes@[0] == 0x0f && bytes@[1]
        == 0x01 && bytes@[2] == 0xf9) by {
        if bytes@.len() >= 3 {
            let head = bytes@.subrange(0, 3);
            assert(head[0] == bytes@[0] && head[1] == bytes@[1] && head[2] == bytes@[2]);
            if bytes@[0] == 0x0f && bytes@[1] == 0x01 && bytes@[2] == 0xf9 {
                assert(rdtscp =~= head);
            }
            assert(rdtscp[0] == 0x0f && rdtscp[1] == 0x01 && rdtscp[2] == 0xf9);
        }
    }
}

/// The encoding of an instruction is recognized as that instruction.
pub proof fn encodings_are_recognized(
    kind: Kind,
    encoding: Vec<u8>,
    pc: u64,
    bytes: &[u8],
    event: Option<InstructionEvent>,
)
    requires
        pc + 3 <= u64::MAX,
        call_ensures(Kind::bytes, (kind,), encoding),
        bytes@ == encoding@,
        call_ensures(InstructionEvent::decode, (pc, bytes), event),
    ensures
        event matches Some(found) && found.kind == kind && found.resume_pc == pc
            + encoding@.len(),
{
    instructions_are_resumed_behind_their_bytes(pc, bytes, event);
}

} // verus!

//! Recognition of the instructions that a tool may subscribe to.

use vstd::prelude::*;

pub mod laws;

verus! {

#[derive(Clone, Copy, Debug, PartialEq, Eq, Structural)]
pub enum Kind {
    Cpuid,
    Rdtsc,
    Rdtscp,
}

/// The encoding of an instruction.
pub open spec fn kind_bytes(kind: Kind) -> Seq<u8> {
    match kind {
        Kind::Cpuid => seq![0x0f, 0xa2],
        Kind::Rdtsc => seq![0x0f, 0x31],
        Kind::Rdtscp => seq![0x0f, 0x01, 0xf9],
    }
}

impl Kind {
    pub fn bytes(self) -> (bytes: Vec<u8>)
        ensures
            bytes@ == kind_bytes(self),
    {
        let mut bytes: Vec<u8> = Vec::new();
        bytes.push(0x0f);
        match self {
            Kind::Cpuid => {
                bytes.push(0xa2);
            },
            Kind::Rdtsc => {
                bytes.push(0x31);
            },
            Kind::Rdtscp => {
                bytes.push(0x01);
                bytes.push(0xf9);
            },
        }
        assert(bytes@ =~= kind_bytes(self));
        bytes
    }
}

#[derive(Clone, Copy, Debug, PartialEq, Eq, Structural)]
pub struct InstructionEvent {
    pub kind: Kind,
    pub pc: u64,
    pub resume_pc: u64,
}

/// The instruction whose encoding starts `bytes`.
pub open spec fn kind_at(bytes: Seq<u8>) -> Option<Kind> {
    if kind_bytes(Kind::Cpuid).is_prefix_of(bytes) {
        Some(Kind::Cpuid)
    } else if kind_bytes(Kind::Rdtsc).is_prefix_of(bytes) {
        Some(Kind::Rdtsc)
    } else if kind_bytes(Kind::Rdtscp).is_prefix_of(bytes) {
        Some(Kind::Rdtscp)
    } else {
        None
    }
}

/// The event that `bytes` at `pc` stand for.
pub open spec fn event_at(pc: u64, bytes: Seq<u8>) -> Option<InstructionEvent> {
    match kind_at(bytes) {
        Some(kind) => if pc + kind_bytes(kind).len() <= u64::MAX {
            Some(
                InstructionEvent { kind, pc, resume_pc: (pc + kind_bytes(kind).len()) as u64 },
            )
        } else {
            None
        },
        None => None,
    }
}

impl InstructionEvent {
    pub fn decode(pc: u64, bytes: &[u8]) -> (event: Option<Self>)
        ensures
            event == event_at(pc, bytes@),
    {
        let kind: Kind;
        let length: u64;
        if bytes.len() >= 2 && bytes[0] == 0x0f && bytes[1] == 0xa2 {
            assert(kind_bytes(Kind::Cpuid) =~= bytes@.take(2));
            kind = Kind::Cpuid;
            length = 2;
        } else if bytes.len() >= 2 && bytes[0] == 0x0f && bytes[1] == 0x31 {
            assert(kind_bytes(Kind::Rdtsc) =~= bytes@.take(2));
            kind = Kind::Rdtsc;
            length = 2;
        } else if bytes.len() >= 3 && bytes[0] == 0x0f && bytes[1] == 0x01 && bytes[2] == 0xf9 {
            assert(kind_bytes(Kind::Rdtscp) =~= bytes@.take(3));
            kind = Kind::Rdtscp;
            length = 3;
        } else {
            return None;
        }
        match pc.checked_add(length) {
            Some(resume_pc) => Some(InstructionEvent { kind, pc, resume_pc }),
            None => None,
        }
    }
}

} // verus!

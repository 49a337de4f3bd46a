//! Instructions that a tool subscribes to.

use vstd::prelude::*;

pub mod laws;

use crate::instruction_event::event_at;
use crate::instruction_event::InstructionEvent;
use crate::instruction_event::Kind;
use crate::registers::HookContext;
use crate::registers::REG_RAX;
use crate::registers::REG_RBX;
use crate::registers::REG_RCX;
use crate::registers::REG_RDX;
use crate::registers::REG_RIP;
use crate::runtime::clock::sat_sub;
use crate::runtime::line::Refusal;
use crate::runtime::maps::RuntimeArena;
use crate::runtime::sites::SiteState;
use crate::sys::SIGSEGV;

verus! {

/// The subscription bit of CPUID.
pub const INSTRUCTION_CPUID: u8 = 1;

/// The subscription bit of RDTSC and RDTSCP.
pub const INSTRUCTION_RDTSC: u8 = 2;

/// Bytes that are reported of code that is not recognized.
pub const REPORTED_BYTES: u64 = 8;

#[derive(Clone, Copy, Debug, PartialEq, Eq, Structural)]
pub struct InstructionSubscriptions {
    pub cpuid: bool,
    pub rdtsc: bool,
}

impl Default for InstructionSubscriptions {
    fn default() -> (subscriptions: Self)
        ensures
            subscriptions == (InstructionSubscriptions { cpuid: false, rdtsc: false }),
    {
        InstructionSubscriptions { cpuid: false, rdtsc: false }
    }
}

pub open spec fn bits_of(subscriptions: InstructionSubscriptions) -> u8 {
    ((if subscriptions.cpuid {
        1int
    } else {
        0
    }) + (if subscriptions.rdtsc {
        2int
    } else {
        0
    })) as u8
}

pub open spec fn cpuid_bit(bits: u8) -> bool {
    bits % 2 == 1
}

pub open spec fn rdtsc_bit(bits: u8) -> bool {
    bits / 2 % 2 == 1
}

/// The subscription bits.
pub fn subscription_bits(subscriptions: InstructionSubscriptions) -> (bits: u8)
    ensures
        bits == bits_of(subscriptions),
        cpuid_bit(bits) == subscriptions.cpuid,
        rdtsc_bit(bits) == subscriptions.rdtsc,
{
    let mut bits: u8 = 0;
    if subscriptions.cpuid {
        bits = bits + INSTRUCTION_CPUID;
    }
    if subscriptions.rdtsc {
        bits = bits + INSTRUCTION_RDTSC;
    }
    bits
}

pub fn cpuid_interception_enabled(bits: u8) -> (result: bool)
    ensures
        result == cpuid_bit(bits),
{
    bits % 2 == INSTRUCTION_CPUID
}

pub fn rdtsc_interception_enabled(bits: u8) -> (result: bool)
    ensures
        result == rdtsc_bit(bits),
{
    bits / 2 % 2 == 1
}

pub fn instruction_is_subscribed(bits: u8, kind: Kind) -> (result: bool)
    ensures
        result == match kind {
            Kind::Cpuid => cpuid_bit(bits),
            Kind::Rdtsc => rdtsc_bit(bits),
            Kind::Rdtscp => rdtsc_bit(bits),
        },
{
    match kind {
        Kind::Cpuid => cpuid_interception_enabled(bits),
        Kind::Rdtsc => rdtsc_interception_enabled(bits),
        Kind::Rdtscp => rdtsc_interception_enabled(bits),
    }
}

// ---------------------------------------------------------------------------
// Native scopes
// ---------------------------------------------------------------------------

/// The controls that executing one instruction natively needs.
pub fn instruction_scope(kind: Kind) -> (selected: u64)
    ensures
        selected == match kind {
            Kind::Cpuid => 1u64,
            Kind::Rdtsc => 2u64,
            Kind::Rdtscp => 2u64,
        },
{
    match kind {
        Kind::Cpuid => 1,
        Kind::Rdtsc => 2,
        Kind::Rdtscp => 2,
    }
}

/// The token of a scope: which controls were selected and what they were. The CPUID
/// control is 0 or 1, the TSC control 1 or 2.
pub open spec fn token_of(selected: u64, cpuid: u64, tsc: u64) -> Option<u64> {
    if selected > 3 || (selected % 2 == 1 && cpuid > 1) || (selected / 2 == 1 && !(1 <= tsc
        <= 2)) {
        None
    } else {
        Some(
            (selected + (if selected % 2 == 1 {
                4 * cpuid
            } else {
                0
            }) + (if selected / 2 == 1 {
                8 * tsc
            } else {
                0
            })) as u64,
        )
    }
}

/// What leaving a scope puts back: the TSC control, then the CPUID control.
pub open spec fn restored_by(token: u64) -> Option<(Option<u64>, Option<u64>)> {
    if token > 31 || (token / 2 % 2 == 1 && !(1 <= token / 8 <= 2)) {
        None
    } else {
        Some(
            (
                if token / 2 % 2 == 1 {
                    Some((token / 8) as u64)
                } else {
                    None
                },
                if token % 2 == 1 {
                    Some((token / 4 % 2) as u64)
                } else {
                    None
                },
            ),
        )
    }
}

/// Remembers the controls that a scope changes. Nothing where they are not what they can
/// be.
pub fn scope_token(selected: u64, cpuid: u64, tsc: u64) -> (token: Option<u64>)
    ensures
        token == token_of(selected, cpuid, tsc),
{
    if selected > 3 {
        return None;
    }
    let mut token: u64 = selected;
    if selected % 2 == 1 {
        if cpuid > 1 {
            return None;
        }
        token = token + 4 * cpuid;
    }
    if selected / 2 == 1 {
        if tsc < 1 || tsc > 2 {
            return None;
        }
        token = token + 8 * tsc;
    }
    Some(token)
}

/// What leaving a scope puts back. Nothing where the token is of no scope.
pub fn scope_restores(token: u64) -> (restores: Option<(Option<u64>, Option<u64>)>)
    ensures
        restores == restored_by(token),
{
    if token > 31 {
        return None;
    }
    let tsc: Option<u64> = if token / 2 % 2 == 1 {
        let value: u64 = token / 8;
        if value < 1 || value > 2 {
            return None;
        }
        Some(value)
    } else {
        None
    };
    let cpuid: Option<u64> = if token % 2 == 1 {
        Some(token / 4 % 2)
    } else {
        None
    };
    Some((tsc, cpuid))
}

/// Leaving a scope puts back exactly the controls that entering it selected.
pub proof fn scopes_restore_what_they_changed(selected: u64, cpuid: u64, tsc: u64)
    requires
        token_of(selected, cpuid, tsc) is Some,
    ensures
        restored_by(token_of(selected, cpuid, tsc)->0) == Some(
            (
                if selected / 2 == 1 {
                    Some(tsc)
                } else {
                    None
                },
                if selected % 2 == 1 {
                    Some(cpuid)
                } else {
                    None
                },
            ),
        ),
{
}

// ---------------------------------------------------------------------------
// Native execution
// ---------------------------------------------------------------------------

/// What an instruction gave when it was executed natively.
#[derive(Clone, Copy, Debug, PartialEq, Eq, Structural)]
pub enum NativeResult {
    Cpuid { eax: u32, ebx: u32, ecx: u32, edx: u32 },
    Rdtsc(u64),
    Rdtscp { value: u64, aux: u32 },
}

/// The registers after a natively executed instruction.
pub open spec fn executed(context: HookContext, result: NativeResult) -> HookContext {
    match result {
        NativeResult::Cpuid { eax, ebx, ecx, edx } => HookContext {
            rax: eax as u64,
            rbx: ebx as u64,
            rcx: ecx as u64,
            rdx: edx as u64,
            ..context
        },
        NativeResult::Rdtsc(value) => HookContext {
            rax: (value % 0x1_0000_0000) as u64,
            rdx: (value / 0x1_0000_0000) as u64,
            ..context
        },
        NativeResult::Rdtscp { value, aux } => HookContext {
            rax: (value % 0x1_0000_0000) as u64,
            rdx: (value / 0x1_0000_0000) as u64,
            rcx: aux as u64,
            ..context
        },
    }
}

pub fn execute_native_instruction(context: &mut HookContext, result: NativeResult)
    ensures
        *final(context) == executed(*old(context), result),
{
    match result {
        NativeResult::Cpuid { eax, ebx, ecx, edx } => {
            context.rax = eax as u64;
            context.rbx = ebx as u64;
            context.rcx = ecx as u64;
            context.rdx = edx as u64;
        },
        NativeResult::Rdtsc(value) => {
            context.rax = value % 0x1_0000_0000;
            context.rdx = value / 0x1_0000_0000;
        },
        NativeResult::Rdtscp { value, aux } => {
            context.rax = value % 0x1_0000_0000;
            context.rdx = value / 0x1_0000_0000;
            context.rcx = aux as u64;
        },
    }
}

pub open spec fn advanced(rip: i64, length: nat) -> i64 {
    if rip + length > i64::MAX {
        i64::MAX
    } else {
        (rip + length) as i64
    }
}

/// The registers of a signal frame after a natively executed instruction, which is
/// stepped over.
pub open spec fn fault_executed(registers: Seq<i64>, result: NativeResult, length: nat) -> Seq<
    i64,
> {
    let after = match result {
        NativeResult::Cpuid { eax, ebx, ecx, edx } => registers.update(
            REG_RAX as int,
            eax as i64,
        ).update(REG_RBX as int, ebx as i64).update(REG_RCX as int, ecx as i64).update(
            REG_RDX as int,
            edx as i64,
        ),
        NativeResult::Rdtsc(value) => registers.update(
            REG_RAX as int,
            (value % 0x1_0000_0000) as i64,
        ).update(REG_RDX as int, (value / 0x1_0000_0000) as i64),
        NativeResult::Rdtscp { value, aux } => registers.update(
            REG_RAX as int,
            (value % 0x1_0000_0000) as i64,
        ).update(REG_RDX as int, (value / 0x1_0000_0000) as i64).update(
            REG_RCX as int,
            aux as i64,
        ),
    };
    after.update(REG_RIP as int, advanced(registers[REG_RIP as int], length))
}

pub fn execute_native_fault_instruction(
    registers: &mut [i64; 23],
    result: NativeResult,
    instruction_len: u8,
)
    ensures
        final(registers)@ == fault_executed(old(registers)@, result, instruction_len as nat),
{
    match result {
        NativeResult::Cpuid { eax, ebx, ecx, edx } => {
            registers[REG_RAX] = eax as i64;
            registers[REG_RBX] = ebx as i64;
            registers[REG_RCX] = ecx as i64;
            registers[REG_RDX] = edx as i64;
        },
        NativeResult::Rdtsc(value) => {
            registers[REG_RAX] = (value % 0x1_0000_0000) as i64;
            registers[REG_RDX] = (value / 0x1_0000_0000) as i64;
        },
        NativeResult::Rdtscp { value, aux } => {
            registers[REG_RAX] = (value % 0x1_0000_0000) as i64;
            registers[REG_RDX] = (value / 0x1_0000_0000) as i64;
            registers[REG_RCX] = aux as i64;
        },
    }
    let rip: i64 = registers[REG_RIP];
    let length: i64 = instruction_len as i64;
    registers[REG_RIP] = if rip > i64::MAX - length {
        i64::MAX
    } else {
        rip + length
    };
    assert(registers@ =~= fault_executed(old(registers)@, result, instruction_len as nat));
}

// ---------------------------------------------------------------------------
// Faults
// ---------------------------------------------------------------------------

pub open spec fn least(left: int, right: int) -> int {
    if left < right {
        left
    } else {
        right
    }
}

/// The instruction at an address of an arena's mapping, if it is one that a tool can
/// subscribe to and lies in the mapping.
pub open spec fn kind_in(arena: Option<RuntimeArena>, address: u64, bytes: Seq<u8>) -> Option<
    Kind,
> {
    match arena {
        None => None,
        Some(arena) => {
            let available = least(arena.mapping_end - address, 3);
            if available < 2 {
                None
            } else {
                match event_at(address, bytes.take(available)) {
                    Some(event) => Some(event.kind),
                    None => None,
                }
            }
        },
    }
}

pub open spec fn arena_of(arena: Option<&RuntimeArena>) -> Option<RuntimeArena> {
    match arena {
        Some(arena) => Some(*arena),
        None => None,
    }
}

/// `bytes` holds what can be decoded at the address: three bytes, or those before the
/// end of the mapping.
pub open spec fn covers(arena: Option<RuntimeArena>, address: u64, bytes: Seq<u8>) -> bool {
    arena is Some ==> least((arena->0).mapping_end - address, 3) <= bytes.len()
}

pub fn instruction_at(arena: Option<&RuntimeArena>, address: u64, bytes: &[u8]) -> (kind: Option<
    Kind,
>)
    requires
        covers(arena_of(arena), address, bytes@),
    ensures
        kind == kind_in(arena_of(arena), address, bytes@),
{
    let arena = match arena {
        Some(arena) => arena,
        None => return None,
    };
    let rest: u64 = match arena.mapping_end.checked_sub(address) {
        Some(rest) => rest,
        None => return None,
    };
    let available: usize = if rest < 3 {
        rest as usize
    } else {
        3
    };
    if available < 2 {
        return None;
    }
    let code: &[u8] = &bytes[0..available];
    assert(code@ =~= bytes@.take(available as int));
    match InstructionEvent::decode(address, code) {
        Some(event) => Some(event.kind),
        None => None,
    }
}

/// What becomes of a fault.
#[derive(Clone, Copy, Debug, PartialEq, Eq)]
pub enum FaultVerdict {
    /// The guest takes the fault; the stage says why.
    Deliver(&'static str),
    /// The guest takes the fault, and the bytes at the address are reported.
    Unrecognized,
    /// The instruction is executed natively and stepped over.
    Native(Kind, &'static str),
    /// The site of the instruction is claimed.
    Claim(Kind),
}

pub open spec fn native_stage(kind: Kind) -> &'static str {
    match kind {
        Kind::Cpuid => "nested-instruction-fault-native-cpuid",
        Kind::Rdtsc => "nested-instruction-fault-native-rdtsc",
        Kind::Rdtscp => "nested-instruction-fault-native-rdtscp",
    }
}

pub open spec fn is_subscribed(bits: u8, kind: Kind) -> bool {
    match kind {
        Kind::Cpuid => cpuid_bit(bits),
        Kind::Rdtsc => rdtsc_bit(bits),
        Kind::Rdtscp => rdtsc_bit(bits),
    }
}

pub open spec fn fault_verdict(
    valid: bool,
    arena: Option<RuntimeArena>,
    address: u64,
    bytes: Seq<u8>,
    bits: u8,
    callback_active: bool,
) -> FaultVerdict {
    if !valid {
        FaultVerdict::Deliver("instruction-sigsegv-invalid-context")
    } else {
        match kind_in(arena, address, bytes) {
            None => if arena is Some {
                FaultVerdict::Unrecognized
            } else {
                FaultVerdict::Deliver("instruction-sigsegv-no-reachable-arena")
            },
            Some(kind) => if !is_subscribed(bits, kind) {
                FaultVerdict::Deliver("instruction-sigsegv-unsubscribed")
            } else if callback_active {
                FaultVerdict::Native(kind, native_stage(kind))
            } else {
                FaultVerdict::Claim(kind)
            },
        }
    }
}

/// Judges a fault. An instruction that is reached from a tool callback is executed
/// natively: nothing may be installed there.
pub fn classify_fault(
    signal: i32,
    has_context: bool,
    arena: Option<&RuntimeArena>,
    address: u64,
    bytes: &[u8],
    bits: u8,
    callback_active: bool,
) -> (verdict: FaultVerdict)
    requires
        covers(arena_of(arena), address, bytes@),
    ensures
        verdict == fault_verdict(
            signal == SIGSEGV && has_context,
            arena_of(arena),
            address,
            bytes@,
            bits,
            callback_active,
        ),
{
    if signal != SIGSEGV || !has_context {
        return FaultVerdict::Deliver("instruction-sigsegv-invalid-context");
    }
    let kind = match instruction_at(arena, address, bytes) {
        Some(kind) => kind,
        None => return match arena {
            Some(_) => FaultVerdict::Unrecognized,
            None => FaultVerdict::Deliver("instruction-sigsegv-no-reachable-arena"),
        },
    };
    if !instruction_is_subscribed(bits, kind) {
        return FaultVerdict::Deliver("instruction-sigsegv-unsubscribed");
    }
    if callback_active {
        return match kind {
            Kind::Cpuid => FaultVerdict::Native(kind, "nested-instruction-fault-native-cpuid"),
            Kind::Rdtsc => FaultVerdict::Native(kind, "nested-instruction-fault-native-rdtsc"),
            Kind::Rdtscp => FaultVerdict::Native(kind, "nested-instruction-fault-native-rdtscp"),
        };
    }
    FaultVerdict::Claim(kind)
}

/// How many bytes are reported of code that is not recognized.
pub fn refused_bytes(arena: &RuntimeArena, address: u64) -> (count: usize)
    ensures
        count == if arena.mapping_end <= address {
            0
        } else if arena.mapping_end - address < REPORTED_BYTES {
            arena.mapping_end - address
        } else {
            REPORTED_BYTES as int
        },
{
    let rest: u64 = arena.mapping_end.saturating_sub(address);
    if rest < REPORTED_BYTES {
        rest as usize
    } else {
        REPORTED_BYTES as usize
    }
}

/// What is reported of code that is not recognized: where it lies in its mapping, and
/// what the fault was.
pub fn refused_at<'a>(
    arena: &'a RuntimeArena,
    address: u64,
    fault_address: u64,
    stack_pointer: u64,
    bytes: &'a [u8],
) -> (refusal: Refusal<'a>)
    ensures
        refusal.rip_offset == sat_sub(address, arena.mapping_start),
        refusal.fault_address == fault_address,
        refusal.stack_pointer == stack_pointer,
        refusal.mapping_name@ == arena.mapping_name@,
        refusal.mapping_len == sat_sub(arena.mapping_end, arena.mapping_start),
        refusal.bytes@ == bytes@,
{
    Refusal {
        rip_offset: address.saturating_sub(arena.mapping_start),
        fault_address,
        stack_pointer,
        mapping_name: arena.mapping_name.as_slice(),
        mapping_len: arena.mapping_end.saturating_sub(arena.mapping_start),
        bytes,
    }
}

/// The stage of an instruction whose hook is reached from a tool callback.
pub fn nested_hook_stage(kind: Kind) -> (stage: &'static str)
    ensures
        stage == match kind {
            Kind::Cpuid => "nested-instruction-native-cpuid",
            Kind::Rdtsc => "nested-instruction-native-rdtsc",
            Kind::Rdtscp => "nested-instruction-native-rdtscp",
        },
{
    match kind {
        Kind::Cpuid => "nested-instruction-native-cpuid",
        Kind::Rdtsc => "nested-instruction-native-rdtsc",
        Kind::Rdtscp => "nested-instruction-native-rdtscp",
    }
}

/// Where a faulting instruction goes on, once its site was claimed: at its trampoline,
/// or nowhere, with the stage that says why.
pub fn resume_fault(site: Option<(SiteState, u64)>) -> (result: Result<u64, &'static str>)
    ensures
        result == match site {
            None => Err::<u64, &'static str>("instruction-sigsegv-site-table-full"),
            Some((state, hook)) => if state != SiteState::Active {
                Err("instruction-sigsegv-site-install-failed")
            } else if hook == 0 {
                Err("instruction-sigsegv-hook-missing")
            } else {
                Ok(hook)
            },
        },
{
    match site {
        None => Err("instruction-sigsegv-site-table-full"),
        Some((state, hook)) => if state != SiteState::Active {
            Err("instruction-sigsegv-site-install-failed")
        } else if hook == 0 {
            Err("instruction-sigsegv-hook-missing")
        } else {
            Ok(hook)
        },
    }
}

} // verus!

//! What the interception of instructions promises.

use vstd::prelude::*;

use crate::instruction_event::kind_bytes;
use crate::instruction_event::Kind;
use crate::registers::HookContext;
use crate::runtime::instructions::classify_fault;
use crate::runtime::instructions::cpuid_interception_enabled;
use crate::runtime::instructions::execute_native_fault_instruction;
use crate::runtime::instructions::execute_native_instruction;
use crate::runtime::instructions::instruction_at;
use crate::runtime::instructions::instruction_is_subscribed;
use crate::runtime::instructions::instruction_scope;
use crate::runtime::instructions::least;
use crate::runtime::instructions::rdtsc_interception_enabled;
use crate::runtime::instructions::refused_at;
use crate::runtime::instructions::refused_bytes;
use crate::runtime::instructions::resume_fault;
use crate::runtime::instructions::scope_restores;
use crate::runtime::instructions::scope_token;
use crate::runtime::instructions::subscription_bits;
use crate::runtime::instructions::FaultVerdict;
use crate::runtime::instructions::InstructionSubscriptions;
use crate::runtime::instructions::NativeResult;
use crate::runtime::line::Refusal;
use crate::runtime::maps::RuntimeArena;
use crate::runtime::sites::SiteState;

verus! {

/// The bits tell the subscriptions, and the subscriptions tell which instructions are
/// intercepted; both ways of reading the counter go together.
pub proof fn bits_tell_the_subscriptions(
    subscriptions: InstructionSubscriptions,
    bits: u8,
    cpuid: bool,
    rdtsc: bool,
    kind: Kind,
    subscribed: bool,
)
    requires
        call_ensures(subscription_bits, (subscriptions,), bits),
        call_ensures(cpuid_interception_enabled, (bits,), cpuid),
        call_ensures(rdtsc_interception_enabled, (bits,), rdtsc),
        call_ensures(instruction_is_subscribed, (bits, kind), subscribed),
    ensures
        bits <= 3,
        cpuid == subscriptions.cpuid,
        rdtsc == subscriptions.rdtsc,
        kind == Kind::Cpuid ==> subscribed == subscriptions.cpuid,
        kind != Kind::Cpuid ==> subscribed == subscriptions.rdtsc,
        bits == 1 <==> subscriptions.cpuid && !subscriptions.rdtsc,
        bits == 2 <==> !subscriptions.cpuid && subscriptions.rdtsc,
{
}

/// A scope puts back exactly what it remembered: the control of the instruction that it is
/// for, at the value that it had.
pub proof fn scopes_put_controls_back(
    kind: Kind,
    selected: u64,
    cpuid: u64,
    tsc: u64,
    token: Option<u64>,
    restores: Option<(Option<u64>, Option<u64>)>,
)
    requires
        call_ensures(instruction_scope, (kind,), selected),
        call_ensures(scope_token, (selected, cpuid, tsc), token),
        token is Some ==> call_ensures(scope_restores, (token->0,), restores),
    ensures
        token is Some <==> (if kind == Kind::Cpuid {
            cpuid <= 1
        } else {
            1 <= tsc <= 2
        }),
        token is Some && kind == Kind::Cpuid ==> restores == Some((None::<u64>, Some(cpuid))),
        token is Some && kind != Kind::Cpuid ==> restores == Some((Some(tsc), None::<u64>)),
{
}

/// Any selection of controls that they can have is remembered in full, and no other.
pub proof fn tokens_remember_both_controls(
    selected: u64,
    cpuid: u64,
    tsc: u64,
    token: Option<u64>,
    restores: Option<(Option<u64>, Option<u64>)>,
)
    requires
        call_ensures(scope_token, (selected, cpuid, tsc), token),
        token is Some ==> call_ensures(scope_restores, (token->0,), restores),
    ensures
        token is Some <==> selected <= 3 && (selected == 1 || selected == 3 ==> cpuid <= 1) && (
        selected >= 2 ==> tsc == 1 || tsc == 2),
        token is Some ==> (restores matches Some((back_tsc, back_cpuid)) && (back_tsc is Some
            <==> selected >= 2) && (back_cpuid is Some <==> selected == 1 || selected == 3) && (
        back_tsc is Some ==> back_tsc == Some(tsc)) && (back_cpuid is Some ==> back_cpuid == Some(
            cpuid,
        ))),
{
}

/// A token of no scope puts nothing back.
pub proof fn unknown_tokens_are_refused(
    token: u64,
    restores: Option<(Option<u64>, Option<u64>)>,
)
    requires
        call_ensures(scope_restores, (token,), restores),
    ensures
        token >= 32 ==> restores is None,
        restores matches Some((Some(tsc), _)) ==> tsc == 1 || tsc == 2,
        restores matches Some((_, Some(cpuid))) ==> cpuid <= 1,
{
}

/// What an instruction gave is in the registers where it leaves it, and no other register
/// changes: four words of CPUID; the two halves of the counter, and its auxiliary word.
pub proof fn instructions_leave_their_results(context: &mut HookContext, result: NativeResult)
    requires
        call_ensures(execute_native_instruction, (context, result), ()),
    ensures
        result matches NativeResult::Cpuid { eax, ebx, ecx, edx } ==> final(context).rax == eax
            && final(context).rbx == ebx && final(context).rcx == ecx && final(context).rdx == edx,
        result matches NativeResult::Rdtsc(value) ==> final(context).rax + 0x1_0000_0000
            * final(context).rdx == value && final(context).rax < 0x1_0000_0000
            && final(context).rbx == old(context).rbx && final(context).rcx == old(context).rcx,
        result matches NativeResult::Rdtscp { value, aux } ==> final(context).rax + 0x1_0000_0000
            * final(context).rdx == value && final(context).rax < 0x1_0000_0000
            && final(context).rcx == aux && final(context).rbx == old(context).rbx,
        *final(context) == (HookContext {
            rax: final(context).rax,
            rbx: final(context).rbx,
            rcx: final(context).rcx,
            rdx: final(context).rdx,
            ..*old(context)
        }),
{
}

/// The same in a signal frame, where the instruction is stepped over as well.
pub proof fn faulting_instructions_are_stepped_over(
    registers: &mut [i64; 23],
    result: NativeResult,
    instruction_len: u8,
    index: int,
)
    requires
        0 <= index < 23,
        call_ensures(
            execute_native_fault_instruction,
            (registers, result, instruction_len),
            (),
        ),
    ensures
        old(registers)@[16] + instruction_len <= i64::MAX ==> final(registers)@[16]
            == old(registers)@[16] + instruction_len,
        result matches NativeResult::Cpuid { eax, ebx, ecx, edx } ==> final(registers)@[13] == eax
            && final(registers)@[11] == ebx && final(registers)@[14] == ecx
            && final(registers)@[12] == edx,
        result matches NativeResult::Rdtsc(value) ==> final(registers)@[13] + 0x1_0000_0000
            * final(registers)@[12] == value && 0 <= final(registers)@[13] < 0x1_0000_0000
            && final(registers)@[11] == old(registers)@[11] && final(registers)@[14]
            == old(registers)@[14],
        result matches NativeResult::Rdtscp { value, aux } ==> final(registers)@[13]
            + 0x1_0000_0000 * final(registers)@[12] == value && 0 <= final(registers)@[13]
            < 0x1_0000_0000 && final(registers)@[14] == aux && final(registers)@[11]
            == old(registers)@[11],
        index != 11 && index != 12 && index != 13 && index != 14 && index != 16
            ==> final(registers)@[index] == old(registers)@[index],
{
}

/// An instruction is recognized exactly where its encoding lies at the address inside the
/// mapping.
pub proof fn instructions_are_recognized_in_their_mapping(
    arena: RuntimeArena,
    address: u64,
    bytes: &[u8],
    kind: Option<Kind>,
)
    requires
        bytes@.len() >= 3,
        address < u64::MAX - 3,
        call_ensures(instruction_at, (Some(&arena), address, bytes), kind),
    ensures
        kind == Some(Kind::Cpuid) <==> address + 2 <= arena.mapping_end && bytes@[0] == 0x0f
            && bytes@[1] == 0xa2,
        kind == Some(Kind::Rdtsc) <==> address + 2 <= arena.mapping_end && bytes@[0] == 0x0f
            && bytes@[1] == 0x31,
        kind == Some(Kind::Rdtscp) <==> address + 3 <= arena.mapping_end && bytes@[0] == 0x0f
            && bytes@[1] == 0x01 && bytes@[2] == 0xf9,
{
    let available = least(arena.mapping_end - address, 3);
    if available >= 2 {
        let seen = bytes@.take(available);
        assert(seen[0] == bytes@[0] && seen[1] == bytes@[1]);
        prefixes_are_bytes(seen);
    }
}

proof fn prefixes_are_bytes(seen: Seq<u8>)
    requires
        seen.len() == 2 || seen.len() == 3,
    ensures
        kind_bytes(Kind::Cpuid).is_prefix_of(seen) <==> seen[0] == 0x0f && seen[1] == 0xa2,
        kind_bytes(Kind::Rdtsc).is_prefix_of(seen) <==> seen[0] == 0x0f && seen[1] == 0x31,
        kind_bytes(Kind::Rdtscp).is_prefix_of(seen) <==> seen.len() == 3 && seen[0] == 0x0f
            && seen[1] == 0x01 && seen[2] == 0xf9,
{
    assert(kind_bytes(Kind::Cpuid)[0] == 0x0f && kind_bytes(Kind::Cpuid)[1] == 0xa2);
    assert(kind_bytes(Kind::Rdtsc)[0] == 0x0f && kind_bytes(Kind::Rdtsc)[1] == 0x31);
    assert(kind_bytes(Kind::Rdtscp)[0] == 0x0f && kind_bytes(Kind::Rdtscp)[1] == 0x01
        && kind_bytes(Kind::Rdtscp)[2] == 0xf9);
    if seen[0] == 0x0f && seen[1] == 0xa2 {
        assert(seen.take(2) =~= kind_bytes(Kind::Cpuid));
    }
    if seen[0] == 0x0f && seen[1] == 0x31 {
        assert(seen.take(2) =~= kind_bytes(Kind::Rdtsc));
    }
    if seen.len() == 3 && seen[0] == 0x0f && seen[1] == 0x01 && seen[2] == 0xf9 {
        assert(seen.take(3) =~= kind_bytes(Kind::Rdtscp));
    }
}

/// A fault is the runtime's exactly where a subscribed instruction lies in a reachable
/// mapping; inside a callback the instruction is executed at once, outside its site is
/// claimed. Every other fault is the guest's.
pub proof fn faults_are_the_guests_unless_subscribed(
    signal: i32,
    has_context: bool,
    arena: Option<&RuntimeArena>,
    address: u64,
    bytes: &[u8],
    bits: u8,
    callback_active: bool,
    found: Option<Kind>,
    subscribed: bool,
    verdict: FaultVerdict,
)
    requires
        call_ensures(instruction_at, (arena, address, bytes), found),
        found is Some ==> call_ensures(instruction_is_subscribed, (bits, found->0), subscribed),
        call_ensures(
            classify_fault,
            (signal, has_context, arena, address, bytes, bits, callback_active),
            verdict,
        ),
    ensures
        ({
            let taken = signal == 11 && has_context && found is Some && subscribed;
            &&& verdict is Claim <==> taken && !callback_active
            &&& verdict is Native <==> taken && callback_active
            &&& verdict matches FaultVerdict::Claim(kind) ==> found == Some(kind)
            &&& verdict matches FaultVerdict::Native(kind, _) ==> found == Some(kind)
            &&& verdict is Unrecognized <==> signal == 11 && has_context && found is None && arena
                is Some
            &&& arena is None ==> verdict is Deliver
        }),
{
}

/// Of code that is not recognized at most eight bytes are reported, and none from beyond its
/// mapping; it is located relative to the mapping.
pub proof fn unrecognized_code_is_reported_inside_its_mapping<'a>(
    arena: &'a RuntimeArena,
    address: u64,
    fault_address: u64,
    stack_pointer: u64,
    bytes: &'a [u8],
    count: usize,
    refusal: Refusal<'a>,
)
    requires
        call_ensures(refused_bytes, (arena, address), count),
        call_ensures(
            refused_at,
            (arena, address, fault_address, stack_pointer, bytes),
            refusal,
        ),
    ensures
        count <= 8,
        count > 0 ==> address + count <= arena.mapping_end,
        address + 8 <= arena.mapping_end ==> count == 8,
        address < arena.mapping_end <= address + 8 ==> address + count == arena.mapping_end,
        arena.mapping_start <= address ==> arena.mapping_start + refusal.rip_offset == address,
        arena.mapping_start <= arena.mapping_end ==> arena.mapping_start + refusal.mapping_len
            == arena.mapping_end,
        refusal.fault_address == fault_address,
        refusal.stack_pointer == stack_pointer,
        refusal.bytes@ == bytes@,
        refusal.mapping_name@ == arena.mapping_name@,
{
}

/// A fault goes on at the trampoline of its site exactly where the site is active and has
/// one.
pub proof fn faults_go_on_at_their_trampoline(
    site: Option<(SiteState, u64)>,
    result: Result<u64, &'static str>,
)
    requires
        call_ensures(resume_fault, (site,), result),
    ensures
        result matches Ok(hook) ==> site == Some((SiteState::Active, hook)) && hook != 0,
        (site matches Some((state, hook)) && state == SiteState::Active && hook != 0) ==> result
            is Ok,
{
}

} // verus!

//! What the ownership of signal state promises.

use vstd::prelude::*;

use crate::protected_fd::Memory;
use crate::runtime::instructions::InstructionSubscriptions;
use crate::runtime::signals::action_supported;
use crate::runtime::signals::arm_mask;
use crate::runtime::signals::enable_instruction_faulting;
use crate::runtime::signals::handler_flags;
use crate::runtime::signals::install_instruction_signal_handler;
use crate::runtime::signals::owned_action;
use crate::runtime::signals::preflight_instruction_faulting;
use crate::runtime::signals::preflight_next;
use crate::runtime::signals::prepare_disposition;
use crate::runtime::signals::prepare_guest_signal_state;
use crate::runtime::signals::prepare_signal_mask;
use crate::runtime::signals::readback_matches;
use crate::runtime::signals::swaps_mask;
use crate::runtime::signals::Control;
use crate::runtime::signals::Disposition;
use crate::runtime::signals::HandlerPlan;
use crate::runtime::signals::KernelSigaction;
use crate::runtime::signals::Preflight;
use crate::runtime::signals::SignalError;
use crate::runtime::signals::SignalPolicy;
use crate::runtime::signals::SignalPreparation;
use crate::runtime::signals::SignalStep;

verus! {

/// Where code is patched the runtime's signals are let through and every other stays as it
/// was; elsewhere the mask stays, and one that blocks a signal of the runtime is refused.
pub proof fn masks_let_the_runtime_through(
    instructions: InstructionSubscriptions,
    trace_configured: bool,
    sud_only: bool,
    previous_mask: u64,
    runtime_signals: u64,
    prepared: (u64, Result<(), SignalError>),
)
    requires
        call_ensures(
            prepare_signal_mask,
            (instructions, trace_configured, sud_only, previous_mask, runtime_signals),
            prepared,
        ),
    ensures
        ({
            let faults = instructions.cpuid || instructions.rdtsc || trace_configured;
            &&& sud_only ==> prepared.0 == previous_mask
            &&& !sud_only ==> prepared.1 is Ok
            &&& !sud_only ==> prepared.0 & 0x4000_0000 == 0
            &&& !sud_only && faults ==> prepared.0 & 0x400 == 0
            &&& !sud_only ==> prepared.0 & !0x4000_0400 == previous_mask & !0x4000_0400
            &&& !sud_only && !faults ==> prepared.0 & 0x400 == previous_mask & 0x400
            &&& sud_only ==> (prepared.1 is Ok <==> previous_mask & 0x4000_0000 == 0
                && previous_mask & runtime_signals == 0 && (faults ==> previous_mask & 0x400 == 0))
            &&& prepared.1 is Err ==> prepared.1 == Err::<(), SignalError>(
                SignalError::OwnedSignalBlocked,
            )
        }),
{
    let mask = previous_mask;
    assert((mask & !(0x4000_0000u64 | 0x400)) & 0x4000_0000 == 0 && (mask & !(0x4000_0000u64
        | 0x400)) & 0x400 == 0 && (mask & !(0x4000_0000u64 | 0x400)) & !0x4000_0400u64 == mask
        & !0x4000_0400u64 && (mask & !(0x4000_0000u64 | 0)) & 0x4000_0000 == 0 && (mask & !(
    0x4000_0000u64 | 0)) & 0x400 == mask & 0x400 && (mask & !(0x4000_0000u64 | 0))
        & !0x4000_0400u64 == mask & !0x4000_0400u64) by (bit_vector);
    assert((mask & (0x4000_0000u64 | 0x400 | runtime_signals) == 0) == (mask & 0x4000_0000 == 0
        && mask & runtime_signals == 0 && mask & 0x400 == 0)) by (bit_vector);
    assert((mask & (0x4000_0000u64 | 0 | runtime_signals) == 0) == (mask & 0x4000_0000 == 0 && mask
        & runtime_signals == 0)) by (bit_vector);
}

/// The preparation of signals starts where the mask can be used, with the first signal, and
/// puts back the same mask as the mask alone would.
pub proof fn preparations_start_with_the_mask(
    preparation: SignalPreparation,
    instructions: InstructionSubscriptions,
    trace_configured: bool,
    previous_mask: u64,
    alone: (u64, Result<(), SignalError>),
    prepared: (u64, SignalStep),
)
    requires
        call_ensures(
            prepare_signal_mask,
            (
                instructions,
                trace_configured,
                preparation.sud_only,
                previous_mask,
                preparation.runtime_signals,
            ),
            alone,
        ),
        call_ensures(
            prepare_guest_signal_state,
            (&preparation, instructions, trace_configured, previous_mask),
            prepared,
        ),
    ensures
        prepared.0 == alone.0,
        alone.1 is Ok <==> prepared.1 == SignalStep::Query(1i32),
        alone.1 matches Err(error) ==> prepared.1 == SignalStep::Refused(error),
{
}

/// The disposition of a signal: what cannot be changed is skipped; a handler is reset where
/// code is patched and refused elsewhere; nothing else is touched, but that a signal of the
/// runtime must have the default.
pub proof fn handlers_are_reset_or_refused(
    signal: i32,
    handler: u64,
    sud_only: bool,
    runtime_signals: u64,
    result: Disposition,
)
    requires
        1 <= signal <= 64,
        call_ensures(
            prepare_disposition,
            (signal, handler, sud_only, runtime_signals),
            result,
        ),
    ensures
        ({
            let owned = runtime_signals & (1u64 << ((signal - 1) as u64)) != 0;
            let fixed = signal == 9 || signal == 19;
            &&& result == Disposition::Skip <==> fixed
            &&& result == Disposition::Reset <==> !fixed && handler > 1 && !sud_only
            &&& result == Disposition::Refuse(SignalError::ExistingHandler(signal)) <==> !fixed
                && handler > 1 && sud_only && !owned
            &&& result == Disposition::Refuse(SignalError::DispositionConflict) <==> !fixed
                && handler != 0 && sud_only && owned
            &&& result == Disposition::Keep <==> !fixed && handler <= 1 && !(sud_only && owned
                && handler == 1)
        }),
{
}

/// Each signal is asked for once, in order; a signal that is reset is done with; a failure of
/// the kernel is reported as it is; after the last signal the mask is set where it is needed.
pub proof fn preparations_go_through_the_signals(
    preparation: SignalPreparation,
    signal: i32,
    asked: bool,
    result: i64,
    handler: u64,
    next: SignalStep,
)
    requires
        1 <= signal <= 64,
        signal != 9 && signal != 19,
        i32::MIN < result,
        call_ensures(
            SignalPreparation::advance,
            (
                &preparation,
                if asked {
                    SignalStep::Query(signal)
                } else {
                    SignalStep::Reset(signal)
                },
                result,
                handler,
            ),
            next,
        ),
    ensures
        result < 0 <==> next is Failed,
        result < 0 ==> (next matches SignalStep::Failed(errno) && errno == -result),
        result >= 0 && asked && handler > 1 ==> next is Refused || next == SignalStep::Reset(
            signal,
        ),
        result >= 0 && !asked ==> next is Query || next is Arm || next == SignalStep::Ready,
        next matches SignalStep::Query(following) ==> following > signal && following != 9
            && following != 19 && (following == signal + 1 || (following == signal + 2 && (signal
            + 1 == 9 || signal + 1 == 19))),
        next is Arm || next == SignalStep::Ready ==> signal == 64,
        signal == 64 ==> !(next is Query),
        next matches SignalStep::Arm(mask) ==> preparation.sud_only
            && !preparation.runtime_signals_configured && mask == 0xffff_ffff_bfff_ffff,
        next == SignalStep::Ready ==> !(preparation.sud_only
            && !preparation.runtime_signals_configured),
{
    assert(u64::MAX & !0x4000_0000u64 == 0xffff_ffff_bfff_ffff) by (bit_vector);
}

/// A mask that could be set makes the signals ready; whatever is over stays so.
pub proof fn preparations_end(
    preparation: SignalPreparation,
    mask: u64,
    over: SignalStep,
    result: i64,
    handler: u64,
    armed: SignalStep,
    after: SignalStep,
)
    requires
        i32::MIN < result,
        over == SignalStep::Ready || over is Refused || over is Failed,
        call_ensures(
            SignalPreparation::advance,
            (&preparation, SignalStep::Arm(mask), result, handler),
            armed,
        ),
        call_ensures(SignalPreparation::advance, (&preparation, over, result, handler), after),
    ensures
        armed == SignalStep::Ready <==> result >= 0,
        armed matches SignalStep::Failed(errno) ==> errno == -result,
        armed == SignalStep::Ready || armed is Failed,
        after == over,
{
}

/// A mask for arming blocks everything but the signal of dispatch, and is set only where the
/// runtime waits for no signal of its own.
pub proof fn arming_lets_dispatch_through(
    sud_only: bool,
    configured: bool,
    mask: Option<u64>,
)
    requires
        call_ensures(arm_mask, (sud_only, configured), mask),
    ensures
        mask is Some <==> sud_only && !configured,
        mask matches Some(mask) ==> mask == 0xffff_ffff_bfff_ffff,
{
    assert(u64::MAX & !0x4000_0000u64 == 0xffff_ffff_bfff_ffff) by (bit_vector);
}

/// The calls that swap the mask while they wait: rt_sigsuspend, pselect6, ppoll, epoll_pwait,
/// io_pgetevents and epoll_pwait2.
pub proof fn six_calls_swap_the_mask(number: i64, result: bool)
    requires
        call_ensures(swaps_mask, (number,), result),
    ensures
        result <==> number == 130 || number == 270 || number == 271 || number == 281 || number
            == 333 || number == 441,
{
}

/// The guest installs no handler, touches no signal of the runtime, and swaps no mask while
/// the runtime waits for signals; what it only asks is free.
pub proof fn the_guest_installs_no_handler(
    memory: Memory,
    policy: SignalPolicy,
    number: i64,
    args: Seq<u64>,
)
    ensures
        ({
            let supported = action_supported(memory, policy, number, args);
            let waits = number == 130 || number == 270 || number == 271 || number == 281 || number
                == 333 || number == 441;
            let bytes = memory(args[1], 8);
            &&& waits ==> supported == !(policy.runtime_signals_configured
                || policy.trace_configured)
            &&& number != 13 && !waits ==> supported
            &&& number == 13 && args[1] == 0 ==> supported
            &&& number == 13 && args[1] != 0 && policy.reserved ==> !supported
            &&& number == 13 && args[1] != 0 && args[0] == 11 && policy.subscriptions != 0
                ==> !supported
            &&& number == 13 && args[1] != 0 && bytes.len() != 8 ==> !supported
            &&& number == 13 && args[1] != 0 && !policy.reserved && !(args[0] == 11
                && policy.subscriptions != 0) && bytes.len() == 8 ==> (supported <==> bytes[0] <= 1
                && bytes[1] == 0 && bytes[2] == 0 && bytes[3] == 0 && bytes[4] == 0 && bytes[5] == 0
                && bytes[6] == 0 && bytes[7] == 0)
        }),
{
}

/// What the kernel reads back is what was installed, but for the two signals that cannot be
/// masked.
pub proof fn installed_actions_are_read_back(
    result: i64,
    handler: u64,
    restorer: u64,
    action: KernelSigaction,
    installed: KernelSigaction,
    same: bool,
)
    requires
        call_ensures(owned_action, (handler, restorer), action),
        call_ensures(readback_matches, (result, &installed, &action), same),
    ensures
        action.handler == handler,
        action.restorer == restorer,
        action.mask == u64::MAX,
        action.flags == 0x0c00_0004,
        same <==> result == 0 && installed.handler == handler && installed.restorer == restorer
            && installed.flags == 0x0c00_0004 && installed.mask == 0xffff_ffff_fffb_feff,
{
    assert(u64::MAX & !0x4_0100u64 == 0xffff_ffff_fffb_feff) by (bit_vector);
}

/// A handler is installed exactly where an instruction is subscribed: the owned one without
/// patching, else one on the stack that was chosen.
pub proof fn subscribed_instructions_get_a_handler(
    subscriptions: InstructionSubscriptions,
    sud_only: bool,
    on_alt_stack: bool,
    planned: (u8, HandlerPlan),
    flags: u64,
)
    requires
        call_ensures(
            install_instruction_signal_handler,
            (subscriptions, sud_only, on_alt_stack),
            planned,
        ),
        call_ensures(handler_flags, (on_alt_stack,), flags),
    ensures
        planned.0 % 2 == 1 <==> subscriptions.cpuid,
        planned.0 / 2 == 1 <==> subscriptions.rdtsc,
        planned.0 < 4,
        planned.1 is Nothing <==> planned.0 == 0,
        planned.1 is Owned <==> planned.0 != 0 && sud_only,
        planned.1 matches HandlerPlan::Patching(chosen) ==> chosen == flags,
        flags == (if on_alt_stack {
            0x0800_0004u64
        } else {
            4
        }),
{
}

/// Exactly the subscribed controls are probed and set, CPUID first.
pub proof fn subscribed_controls_are_set(
    subscriptions: InstructionSubscriptions,
    first: Preflight,
    controls: Vec<Control>,
)
    requires
        call_ensures(preflight_instruction_faulting, (subscriptions,), first),
        call_ensures(enable_instruction_faulting, (subscriptions,), controls),
    ensures
        first == Preflight::QueryCpuid <==> subscriptions.cpuid,
        first == Preflight::QueryTsc <==> !subscriptions.cpuid && subscriptions.rdtsc,
        first == Preflight::Done <==> !subscriptions.cpuid && !subscriptions.rdtsc,
        controls@.contains(Control::Cpuid) <==> subscriptions.cpuid,
        controls@.contains(Control::Tsc) <==> subscriptions.rdtsc,
        controls@.len() == (if subscriptions.cpuid {
            1int
        } else {
            0
        }) + (if subscriptions.rdtsc {
            1int
        } else {
            0
        }),
        subscriptions.cpuid ==> controls@[0] == Control::Cpuid,
{
    if subscriptions.cpuid {
        assert(controls@[0] == Control::Cpuid);
    }
    if subscriptions.rdtsc {
        assert(controls@[controls@.len() - 1] == Control::Tsc);
    }
}

/// A control that is asked for and can be set is put back to what it was before the next one
/// is looked at; a control that cannot be asked for or set is unavailable, with its error;
/// one that cannot be put back ends the process.
pub proof fn controls_are_probed_and_put_back(
    subscriptions: InstructionSubscriptions,
    step: Preflight,
    result: i64,
    value: u32,
    next: Preflight,
)
    requires
        i32::MIN < result <= i32::MAX,
        call_ensures(preflight_next, (subscriptions, step, result, value), next),
    ensures
        step == Preflight::QueryCpuid ==> (if result >= 0 {
            next == Preflight::ProbeCpuid(result)
        } else {
            next matches Preflight::Unavailable(error) && error.errno == -result
        }),
        step matches Preflight::ProbeCpuid(found) ==> (if result == 0 {
            next == Preflight::RestoreCpuid(found)
        } else {
            next matches Preflight::Unavailable(error) && error.errno == -result
        }),
        step is RestoreCpuid ==> (next is Terminal <==> result != 0) && (result == 0 ==> next
            == (if subscriptions.rdtsc {
            Preflight::QueryTsc
        } else {
            Preflight::Done
        })),
        step == Preflight::QueryTsc ==> (if result == 0 {
            next == Preflight::ProbeTsc(value)
        } else {
            next matches Preflight::Unavailable(error) && error.errno == -result
        }),
        step matches Preflight::ProbeTsc(found) ==> (if result == 0 {
            next == Preflight::RestoreTsc(found)
        } else {
            next matches Preflight::Unavailable(error) && error.errno == -result
        }),
        step is RestoreTsc ==> (next is Terminal <==> result != 0) && (result == 0 ==> next
            == Preflight::Done),
        step == Preflight::Done || step is Unavailable || step is Terminal ==> next == step,
        next matches Preflight::Terminal { result: reported, .. } ==> step is Terminal || reported
            == result,
{
}

} // verus!

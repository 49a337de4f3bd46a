//! Signal state that the runtime owns, and the instruction controls that raise its
//! signals.

use vstd::prelude::*;

pub mod laws;
use vstd::string::StringExecFns;

use crate::bytes::read_u64;
use crate::bytes::u64_at;
use crate::protected_fd::reads;
use crate::protected_fd::total;
use crate::protected_fd::Memory;
use crate::runtime::instructions::bits_of;
use crate::runtime::instructions::subscription_bits;
use crate::runtime::instructions::InstructionSubscriptions;
use crate::sys::SIGKILL;
use crate::sys::SIGSEGV;
use crate::sys::SIGSTOP;
use crate::sys::SYS_EPOLL_PWAIT;
use crate::sys::SYS_EPOLL_PWAIT2;
use crate::sys::SYS_IO_PGETEVENTS;
use crate::sys::SYS_PPOLL;
use crate::sys::SYS_PSELECT6;
use crate::sys::SYS_RT_SIGACTION;
use crate::sys::SYS_RT_SIGSUSPEND;
use crate::text::append_signed;
use crate::text::signed_decimal;

verus! {

/// The mask bit of `SIGSYS`.
pub const SIGSYS_BIT: u64 = 0x4000_0000;

/// The mask bit of `SIGSEGV`.
pub const SIGSEGV_BIT: u64 = 0x400;

/// The mask bits of the signals that cannot be masked, `SIGKILL` and `SIGSTOP`.
pub const UNMASKABLE: u64 = 0x4_0100;

pub const SIG_DFL: u64 = 0;

pub const SIG_IGN: u64 = 1;

pub const SA_SIGINFO: u64 = 4;

pub const SA_ONSTACK: u64 = 0x0800_0000;

pub const SA_RESTORER: u64 = 0x0400_0000;

/// The highest signal number.
pub const LAST_SIGNAL: i32 = 64;

#[derive(Clone, Copy, Debug, PartialEq, Eq, Structural)]
pub enum SignalError {
    /// A signal that the runtime owns is blocked.
    OwnedSignalBlocked,
    /// A signal that the runtime owns has a disposition.
    DispositionConflict,
    /// The guest has a handler that cannot be kept.
    ExistingHandler(i32),
}

pub open spec fn signal_error_text(error: SignalError) -> Seq<char> {
    match error {
        SignalError::OwnedSignalBlocked => "SUD-only requires unblocked owned runtime signals"@,
        SignalError::DispositionConflict => "owned runtime signal disposition conflict"@,
        SignalError::ExistingHandler(signal) => {
            "SUD-only does not admit existing handler for signal "@ + signed_decimal(signal as int)
        },
    }
}

impl SignalError {
    pub fn text(self) -> (text: String)
        ensures
            text@ == signal_error_text(self),
    {
        match self {
            SignalError::OwnedSignalBlocked => String::from_str(
                "SUD-only requires unblocked owned runtime signals",
            ),
            SignalError::DispositionConflict => String::from_str(
                "owned runtime signal disposition conflict",
            ),
            SignalError::ExistingHandler(signal) => {
                let mut text = String::from_str(
                    "SUD-only does not admit existing handler for signal ",
                );
                append_signed(&mut text, signal);
                text
            },
        }
    }
}

/// The signals that the runtime must receive besides its own.
pub open spec fn segv_bit(needed: bool) -> u64 {
    if needed {
        SIGSEGV_BIT
    } else {
        0
    }
}

/// The mask that is put back: where code is patched it lets the runtime's signals
/// through.
pub open spec fn restored_mask(previous_mask: u64, sud_only: bool, segv: u64) -> u64 {
    if sud_only {
        previous_mask
    } else {
        previous_mask & !(SIGSYS_BIT | segv)
    }
}

/// The mask that is put back, and whether the one that was found can be used.
pub fn prepare_signal_mask(
    instructions: InstructionSubscriptions,
    trace_configured: bool,
    sud_only: bool,
    previous_mask: u64,
    runtime_signals: u64,
) -> (prepared: (u64, Result<(), SignalError>))
    ensures
        ({
            let segv = segv_bit(instructions.cpuid || instructions.rdtsc || trace_configured);
            &&& prepared.0 == restored_mask(previous_mask, sud_only, segv)
            &&& prepared.1 == if sud_only && previous_mask & (SIGSYS_BIT | segv | runtime_signals)
                != 0 {
                Err::<(), SignalError>(SignalError::OwnedSignalBlocked)
            } else {
                Ok(())
            }
        }),
{
    let segv: u64 = if instructions.cpuid || instructions.rdtsc || trace_configured {
        SIGSEGV_BIT
    } else {
        0
    };
    let restore_mask: u64 = if sud_only {
        previous_mask
    } else {
        previous_mask & !(SIGSYS_BIT | segv)
    };
    if sud_only && previous_mask & (SIGSYS_BIT | segv | runtime_signals) != 0 {
        (restore_mask, Err(SignalError::OwnedSignalBlocked))
    } else {
        (restore_mask, Ok(()))
    }
}

/// Where nothing is patched, the mask that is put back is the one that was found;
/// elsewhere it lets the runtime's signals through and keeps the others as they were.
pub proof fn restored_masks_admit_the_runtime(previous_mask: u64, segv: u64)
    ensures
        restored_mask(previous_mask, true, segv) == previous_mask,
        restored_mask(previous_mask, false, segv) & (SIGSYS_BIT | segv) == 0,
        restored_mask(previous_mask, false, segv) & !(SIGSYS_BIT | segv) == previous_mask & !(
        SIGSYS_BIT | segv),
{
    let admitted = SIGSYS_BIT | segv;
    assert((previous_mask & !admitted) & admitted == 0) by (bit_vector);
    assert((previous_mask & !admitted) & !admitted == previous_mask & !admitted) by (bit_vector);
}

/// What becomes of the disposition of one signal.
#[derive(Clone, Copy, Debug, PartialEq, Eq, Structural)]
pub enum Disposition {
    /// It cannot be changed and is not looked at.
    Skip,
    /// It stays.
    Keep,
    /// It is reset to the default.
    Reset,
    /// The runtime cannot be installed.
    Refuse(SignalError),
}

/// The runtime owns a signal.
pub open spec fn owns_signal(runtime_signals: u64, signal: i32) -> bool {
    runtime_signals & (1u64 << ((signal - 1) as u64)) != 0
}

pub open spec fn disposition(
    signal: i32,
    handler: u64,
    sud_only: bool,
    runtime_signals: u64,
) -> Disposition {
    if signal == SIGKILL || signal == SIGSTOP {
        Disposition::Skip
    } else if sud_only && owns_signal(runtime_signals, signal) && handler != SIG_DFL {
        Disposition::Refuse(SignalError::DispositionConflict)
    } else if handler != SIG_DFL && handler != SIG_IGN {
        if sud_only {
            Disposition::Refuse(SignalError::ExistingHandler(signal))
        } else {
            Disposition::Reset
        }
    } else {
        Disposition::Keep
    }
}

/// Judges the disposition of one signal.
pub fn prepare_disposition(
    signal: i32,
    handler: u64,
    sud_only: bool,
    runtime_signals: u64,
) -> (result: Disposition)
    requires
        1 <= signal <= LAST_SIGNAL,
    ensures
        result == disposition(signal, handler, sud_only, runtime_signals),
{
    if signal == SIGKILL || signal == SIGSTOP {
        return Disposition::Skip;
    }
    let bit: u64 = 1u64 << ((signal - 1) as u64);
    if sud_only && runtime_signals & bit != 0 && handler != SIG_DFL {
        return Disposition::Refuse(SignalError::DispositionConflict);
    }
    if handler != SIG_DFL && handler != SIG_IGN {
        if sud_only {
            return Disposition::Refuse(SignalError::ExistingHandler(signal));
        }
        return Disposition::Reset;
    }
    Disposition::Keep
}

/// No handler of the guest survives the preparation.
pub proof fn no_handler_is_kept(
    signal: i32,
    handler: u64,
    sud_only: bool,
    runtime_signals: u64,
)
    ensures
        disposition(signal, handler, sud_only, runtime_signals) == Disposition::Keep ==> handler
            == SIG_DFL || handler == SIG_IGN,
{
}

/// The mask while user dispatch is armed, where the runtime has no signals of its own
/// to wait for.
pub fn arm_mask(sud_only: bool, runtime_signals_configured: bool) -> (mask: Option<u64>)
    ensures
        mask == if sud_only && !runtime_signals_configured {
            Some(u64::MAX & !SIGSYS_BIT)
        } else {
            None
        },
{
    if sud_only && !runtime_signals_configured {
        Some(u64::MAX & !SIGSYS_BIT)
    } else {
        None
    }
}

/// What is done next to prepare the signals of the guest.
#[derive(Clone, Copy, Debug, PartialEq, Eq, Structural)]
pub enum SignalStep {
    /// Ask for the disposition of a signal.
    Query(i32),
    /// Reset the disposition of a signal to the default.
    Reset(i32),
    /// Set the mask for arming.
    Arm(u64),
    /// The signals are prepared.
    Ready,
    /// They cannot be.
    Refused(SignalError),
    /// The kernel reported an error.
    Failed(i32),
}

/// What the preparation depends on.
#[derive(Clone, Copy, Debug, PartialEq, Eq, Structural)]
pub struct SignalPreparation {
    pub sud_only: bool,
    pub runtime_signals: u64,
    pub runtime_signals_configured: bool,
}

/// The signal whose disposition is asked for after another, if there is one left.
pub open spec fn next_signal(signal: i32) -> Option<i32> {
    if signal >= LAST_SIGNAL {
        None
    } else if signal + 1 == SIGKILL || signal + 1 == SIGSTOP {
        Some((signal + 2) as i32)
    } else {
        Some((signal + 1) as i32)
    }
}

pub open spec fn arming_mask(preparation: SignalPreparation) -> Option<u64> {
    if preparation.sud_only && !preparation.runtime_signals_configured {
        Some(u64::MAX & !SIGSYS_BIT)
    } else {
        None
    }
}

/// The step after the disposition of a signal is settled.
pub open spec fn settled(preparation: SignalPreparation, signal: i32) -> SignalStep {
    match next_signal(signal) {
        Some(next) => SignalStep::Query(next),
        None => match arming_mask(preparation) {
            Some(mask) => SignalStep::Arm(mask),
            None => SignalStep::Ready,
        },
    }
}

pub open spec fn signal_step(
    preparation: SignalPreparation,
    step: SignalStep,
    result: i64,
    handler: u64,
) -> SignalStep {
    let failed = SignalStep::Failed((-result) as i32);
    match step {
        SignalStep::Query(signal) => if result < 0 {
            failed
        } else {
            match disposition(signal, handler, preparation.sud_only, preparation.runtime_signals) {
                Disposition::Refuse(error) => SignalStep::Refused(error),
                Disposition::Reset => SignalStep::Reset(signal),
                _ => settled(preparation, signal),
            }
        },
        SignalStep::Reset(signal) => if result < 0 {
            failed
        } else {
            settled(preparation, signal)
        },
        SignalStep::Arm(_) => if result < 0 {
            failed
        } else {
            SignalStep::Ready
        },
        _ => step,
    }
}

/// Starts to prepare the signals of the guest: the mask that is put back in the end,
/// and the first step.
pub fn prepare_guest_signal_state(
    preparation: &SignalPreparation,
    instructions: InstructionSubscriptions,
    trace_configured: bool,
    previous_mask: u64,
) -> (prepared: (u64, SignalStep))
    ensures
        ({
            let segv = segv_bit(instructions.cpuid || instructions.rdtsc || trace_configured);
            &&& prepared.0 == restored_mask(previous_mask, preparation.sud_only, segv)
            &&& prepared.1 == if preparation.sud_only && previous_mask & (SIGSYS_BIT | segv
                | preparation.runtime_signals) != 0 {
                SignalStep::Refused(SignalError::OwnedSignalBlocked)
            } else {
                SignalStep::Query(1)
            }
        }),
{
    let (mask, usable) = prepare_signal_mask(
        instructions,
        trace_configured,
        preparation.sud_only,
        previous_mask,
        preparation.runtime_signals,
    );
    match usable {
        Ok(()) => (mask, SignalStep::Query(1)),
        Err(error) => (mask, SignalStep::Refused(error)),
    }
}

fn settle(preparation: &SignalPreparation, signal: i32) -> (step: SignalStep)
    requires
        1 <= signal <= LAST_SIGNAL,
    ensures
        step == settled(*preparation, signal),
{
    if signal < LAST_SIGNAL {
        let next: i32 = if signal + 1 == SIGKILL || signal + 1 == SIGSTOP {
            signal + 2
        } else {
            signal + 1
        };
        return SignalStep::Query(next);
    }
    match arm_mask(preparation.sud_only, preparation.runtime_signals_configured) {
        Some(mask) => SignalStep::Arm(mask),
        None => SignalStep::Ready,
    }
}

/// A step that the preparation can be in.
pub open spec fn is_signal_step(step: SignalStep) -> bool {
    match step {
        SignalStep::Query(signal) => 1 <= signal <= LAST_SIGNAL,
        SignalStep::Reset(signal) => 1 <= signal <= LAST_SIGNAL,
        _ => true,
    }
}

impl SignalPreparation {
    /// The step after another, given the kernel's result and, for a query, the handler
    /// that it found.
    pub fn advance(&self, step: SignalStep, result: i64, handler: u64) -> (next: SignalStep)
        requires
            is_signal_step(step),
            result > i64::MIN,
        ensures
            next == signal_step(*self, step, result, handler),
            is_signal_step(next),
    {
        match step {
            SignalStep::Query(signal) => {
                if result < 0 {
                    return SignalStep::Failed((-result) as i32);
                }
                match prepare_disposition(signal, handler, self.sud_only, self.runtime_signals) {
                    Disposition::Refuse(error) => SignalStep::Refused(error),
                    Disposition::Reset => SignalStep::Reset(signal),
                    Disposition::Keep => settle(self, signal),
                    Disposition::Skip => settle(self, signal),
                }
            },
            SignalStep::Reset(signal) => {
                if result < 0 {
                    return SignalStep::Failed((-result) as i32);
                }
                settle(self, signal)
            },
            SignalStep::Arm(_) => {
                if result < 0 {
                    return SignalStep::Failed((-result) as i32);
                }
                SignalStep::Ready
            },
            SignalStep::Ready => SignalStep::Ready,
            SignalStep::Refused(error) => SignalStep::Refused(error),
            SignalStep::Failed(errno) => SignalStep::Failed(errno),
        }
    }
}

/// The signal that a step is about; beyond the last one where it is about none.
pub open spec fn signal_of(step: SignalStep) -> int {
    match step {
        SignalStep::Query(signal) => signal as int,
        SignalStep::Reset(signal) => signal as int,
        _ => LAST_SIGNAL + 1,
    }
}

/// The preparation goes through the signals in order and leaves none out but those that
/// cannot be changed; a handler that it finds is reset or refused before the next signal
/// is looked at.
pub proof fn every_signal_is_settled(
    preparation: SignalPreparation,
    signal: i32,
    handler: u64,
    between: int,
)
    requires
        1 <= signal <= LAST_SIGNAL,
        signal != SIGKILL && signal != SIGSTOP,
    ensures
        ({
            let next = signal_step(preparation, SignalStep::Query(signal), 0, handler);
            &&& next is Query || next is Arm || next == SignalStep::Ready ==> handler == SIG_DFL
                || handler == SIG_IGN
            &&& next == SignalStep::Reset(signal) ==> signal_of(
                signal_step(preparation, next, 0, handler),
            ) > signal
            &&& !(next is Refused) && next != SignalStep::Reset(signal) && signal < between
                < signal_of(next) && between <= LAST_SIGNAL ==> between == SIGKILL || between
                == SIGSTOP
        }),
{
}

// ---------------------------------------------------------------------------
// Requests of the guest
// ---------------------------------------------------------------------------

/// What decides whether the guest may change signal state.
#[derive(Clone, Copy, Debug, PartialEq, Eq, Structural)]
pub struct SignalPolicy {
    /// The runtime waits for signals of its own.
    pub runtime_signals_configured: bool,
    /// The runtime owns trace signals.
    pub trace_configured: bool,
    /// The signal that the call names is the runtime's.
    pub reserved: bool,
    /// The subscription bits.
    pub subscriptions: u8,
}

/// Calls that swap the signal mask while they wait.
pub open spec fn waits_with_mask(number: i64) -> bool {
    ||| number == SYS_RT_SIGSUSPEND
    ||| number == SYS_PSELECT6
    ||| number == SYS_PPOLL
    ||| number == SYS_EPOLL_PWAIT
    ||| number == SYS_EPOLL_PWAIT2
    ||| number == SYS_IO_PGETEVENTS
}

pub fn swaps_mask(number: i64) -> (result: bool)
    ensures
        result == waits_with_mask(number),
{
    number == SYS_RT_SIGSUSPEND || number == SYS_PSELECT6 || number == SYS_PPOLL || number
        == SYS_EPOLL_PWAIT || number == SYS_EPOLL_PWAIT2 || number == SYS_IO_PGETEVENTS
}

/// The handler that the action in memory names.
pub open spec fn handler_at(memory: Memory, address: u64) -> Option<u64> {
    if memory(address, 8).len() == 8 {
        Some(u64_at(memory(address, 8), 0) as u64)
    } else {
        None
    }
}

pub open spec fn action_supported(
    memory: Memory,
    policy: SignalPolicy,
    number: i64,
    args: Seq<u64>,
) -> bool {
    if (policy.runtime_signals_configured || policy.trace_configured) && waits_with_mask(number) {
        false
    } else if number != SYS_RT_SIGACTION || args[1] == 0 {
        true
    } else if policy.reserved || (args[0] == SIGSEGV && policy.subscriptions != 0) {
        false
    } else {
        handler_at(memory, args[1]) == Some(SIG_DFL) || handler_at(memory, args[1]) == Some(SIG_IGN)
    }
}

/// Whether the guest may make a call that changes signal state. It may install no
/// handler, and may not touch the runtime's signals.
pub fn signal_action_supported<F: Fn(u64, usize) -> Vec<u8>>(
    policy: &SignalPolicy,
    number: i64,
    args: &[u64; 6],
    read: &F,
) -> (result: bool)
    requires
        total(*read),
    ensures
        forall|memory: Memory| #[trigger]
            reads(*read, memory) ==> result == action_supported(memory, *policy, number, args@),
        number != SYS_RT_SIGACTION ==> result == !((policy.runtime_signals_configured
            || policy.trace_configured) && waits_with_mask(number)),
{
    if (policy.runtime_signals_configured || policy.trace_configured) && swaps_mask(number) {
        return false;
    }
    if number != SYS_RT_SIGACTION || args[1] == 0 {
        return true;
    }
    if policy.reserved || (args[0] == SIGSEGV as u64 && policy.subscriptions != 0) {
        return false;
    }
    let bytes: Vec<u8> = read(args[1], 8);
    if bytes.len() != 8 {
        return false;
    }
    let handler: u64 = read_u64(bytes.as_slice(), 0);
    handler == SIG_DFL || handler == SIG_IGN
}

// ---------------------------------------------------------------------------
// The instruction handler
// ---------------------------------------------------------------------------

#[derive(Clone, Copy, Debug, PartialEq, Eq, Structural)]
pub struct KernelSigaction {
    pub handler: u64,
    pub flags: u64,
    pub restorer: u64,
    pub mask: u64,
}

impl Default for KernelSigaction {
    fn default() -> (action: Self)
        ensures
            action == (KernelSigaction { handler: 0, flags: 0, restorer: 0, mask: 0 }),
    {
        KernelSigaction { handler: 0, flags: 0, restorer: 0, mask: 0 }
    }
}

/// The action that owns the faults of instructions where nothing is patched.
pub fn owned_action(handler: u64, restorer: u64) -> (action: KernelSigaction)
    ensures
        action == (KernelSigaction {
            handler,
            flags: (SA_SIGINFO + SA_ONSTACK + SA_RESTORER) as u64,
            restorer,
            mask: u64::MAX,
        }),
{
    KernelSigaction {
        handler,
        flags: SA_SIGINFO + SA_ONSTACK + SA_RESTORER,
        restorer,
        mask: u64::MAX,
    }
}

/// Whether what the kernel reads back, with this result, is what was installed. The
/// kernel drops what cannot be masked.
pub fn readback_matches(result: i64, installed: &KernelSigaction, action: &KernelSigaction) -> (
    matches: bool)
    ensures
        matches == (result == 0 && installed.handler == action.handler && installed.flags
            == action.flags && installed.restorer == action.restorer && installed.mask
            == action.mask & !UNMASKABLE),
{
    result == 0 && installed.handler == action.handler && installed.flags == action.flags
        && installed.restorer == action.restorer && installed.mask == action.mask & !UNMASKABLE
}

/// The handler that the faults of instructions get.
#[derive(Clone, Copy, Debug, PartialEq, Eq, Structural)]
pub enum HandlerPlan {
    /// None: nothing is subscribed.
    Nothing,
    /// The owned action, which is read back.
    Owned,
    /// One with these flags.
    Patching(u64),
}

/// The subscription bits that are published, and the handler that is installed.
pub fn install_instruction_signal_handler(
    subscriptions: InstructionSubscriptions,
    sud_only: bool,
    on_alt_stack: bool,
) -> (planned: (u8, HandlerPlan))
    ensures
        planned.0 == bits_of(subscriptions),
        planned.1 == if !subscriptions.cpuid && !subscriptions.rdtsc {
            HandlerPlan::Nothing
        } else if sud_only {
            HandlerPlan::Owned
        } else {
            HandlerPlan::Patching(
                if on_alt_stack {
                    (SA_SIGINFO + SA_ONSTACK) as u64
                } else {
                    SA_SIGINFO
                },
            )
        },
{
    let bits: u8 = subscription_bits(subscriptions);
    let plan: HandlerPlan = if bits == 0 {
        HandlerPlan::Nothing
    } else if sud_only {
        HandlerPlan::Owned
    } else {
        HandlerPlan::Patching(handler_flags(on_alt_stack))
    };
    (bits, plan)
}

/// The flags of the handler where code is patched.
pub fn handler_flags(on_alt_stack: bool) -> (flags: u64)
    ensures
        flags == SA_SIGINFO + (if on_alt_stack {
            SA_ONSTACK as int
        } else {
            0
        }),
{
    if on_alt_stack {
        SA_SIGINFO + SA_ONSTACK
    } else {
        SA_SIGINFO
    }
}

// ---------------------------------------------------------------------------
// Instruction controls
// ---------------------------------------------------------------------------

/// An instruction control that this host does not have.
#[derive(Clone, Copy, Debug, PartialEq, Eq)]
pub struct ControlUnavailable {
    pub control: &'static str,
    pub errno: i32,
}

pub fn instruction_control_unavailable(control: &'static str, result: i64) -> (error:
    ControlUnavailable)
    requires
        result > i64::MIN,
    ensures
        error == (ControlUnavailable { control, errno: (-result) as i32 }),
{
    ControlUnavailable { control, errno: (-result) as i32 }
}

/// What is done next to find out whether the subscribed controls can be set. A probe
/// and a restoration know what the query found.
#[derive(Clone, Copy, Debug, PartialEq, Eq)]
pub enum Preflight {
    QueryCpuid,
    ProbeCpuid(i64),
    RestoreCpuid(i64),
    QueryTsc,
    ProbeTsc(u32),
    RestoreTsc(u32),
    /// All of them can be.
    Done,
    /// One cannot be.
    Unavailable(ControlUnavailable),
    /// One could not be put back: the process cannot go on.
    Terminal { operation: &'static str, result: i64 },
}

pub open spec fn preflight_first(subscriptions: InstructionSubscriptions) -> Preflight {
    if subscriptions.cpuid {
        Preflight::QueryCpuid
    } else {
        preflight_second(subscriptions)
    }
}

pub open spec fn preflight_second(subscriptions: InstructionSubscriptions) -> Preflight {
    if subscriptions.rdtsc {
        Preflight::QueryTsc
    } else {
        Preflight::Done
    }
}

pub open spec fn unavailable(control: &'static str, result: i64) -> Preflight {
    Preflight::Unavailable(ControlUnavailable { control, errno: (-result) as i32 })
}

/// The step after a request, given the kernel's result and, for the TSC query, the
/// value that it wrote. A control that was set is put back to what it was.
pub open spec fn preflight_step(
    subscriptions: InstructionSubscriptions,
    step: Preflight,
    result: i64,
    value: u32,
) -> Preflight {
    match step {
        Preflight::QueryCpuid => if result < 0 {
            unavailable("CPUID faulting", result)
        } else {
            Preflight::ProbeCpuid(result)
        },
        Preflight::ProbeCpuid(previous) => if result != 0 {
            unavailable("CPUID faulting", result)
        } else {
            Preflight::RestoreCpuid(previous)
        },
        Preflight::RestoreCpuid(previous) => if result != 0 {
            Preflight::Terminal { operation: "restore-ARCH_SET_CPUID", result }
        } else {
            preflight_second(subscriptions)
        },
        Preflight::QueryTsc => if result != 0 {
            unavailable("TSC faulting", result)
        } else {
            Preflight::ProbeTsc(value)
        },
        Preflight::ProbeTsc(previous) => if result != 0 {
            unavailable("TSC faulting", result)
        } else {
            Preflight::RestoreTsc(previous)
        },
        Preflight::RestoreTsc(previous) => if result != 0 {
            Preflight::Terminal { operation: "restore-PR_SET_TSC", result }
        } else {
            Preflight::Done
        },
        _ => step,
    }
}

/// The first step of the preflight.
pub fn preflight_instruction_faulting(subscriptions: InstructionSubscriptions) -> (step: Preflight)
    ensures
        step == preflight_first(subscriptions),
{
    if subscriptions.cpuid {
        Preflight::QueryCpuid
    } else if subscriptions.rdtsc {
        Preflight::QueryTsc
    } else {
        Preflight::Done
    }
}

/// The step after a request.
pub fn preflight_next(
    subscriptions: InstructionSubscriptions,
    step: Preflight,
    result: i64,
    value: u32,
) -> (next: Preflight)
    requires
        result > i64::MIN,
    ensures
        next == preflight_step(subscriptions, step, result, value),
{
    match step {
        Preflight::QueryCpuid => if result < 0 {
            Preflight::Unavailable(instruction_control_unavailable("CPUID faulting", result))
        } else {
            Preflight::ProbeCpuid(result)
        },
        Preflight::ProbeCpuid(previous) => if result != 0 {
            Preflight::Unavailable(instruction_control_unavailable("CPUID faulting", result))
        } else {
            Preflight::RestoreCpuid(previous)
        },
        Preflight::RestoreCpuid(_) => if result != 0 {
            Preflight::Terminal { operation: "restore-ARCH_SET_CPUID", result }
        } else if subscriptions.rdtsc {
            Preflight::QueryTsc
        } else {
            Preflight::Done
        },
        Preflight::QueryTsc => if result != 0 {
            Preflight::Unavailable(instruction_control_unavailable("TSC faulting", result))
        } else {
            Preflight::ProbeTsc(value)
        },
        Preflight::ProbeTsc(previous) => if result != 0 {
            Preflight::Unavailable(instruction_control_unavailable("TSC faulting", result))
        } else {
            Preflight::RestoreTsc(previous)
        },
        Preflight::RestoreTsc(_) => if result != 0 {
            Preflight::Terminal { operation: "restore-PR_SET_TSC", result }
        } else {
            Preflight::Done
        },
        Preflight::Done => Preflight::Done,
        Preflight::Unavailable(error) => Preflight::Unavailable(error),
        Preflight::Terminal { operation, result } => Preflight::Terminal { operation, result },
    }
}

/// A control that a probe could set is put back to what the query found, whatever the
/// query found.
pub proof fn probes_are_undone(
    subscriptions: InstructionSubscriptions,
    found: i64,
    value: u32,
    other: u32,
)
    requires
        found >= 0,
    ensures
        preflight_step(
            subscriptions,
            preflight_step(subscriptions, Preflight::QueryCpuid, found, value),
            0,
            other,
        ) == Preflight::RestoreCpuid(found),
        preflight_step(
            subscriptions,
            preflight_step(subscriptions, Preflight::QueryTsc, 0, value),
            0,
            other,
        ) == Preflight::RestoreTsc(value),
{
}

/// The controls that are set when the runtime is installed, in order.
pub fn enable_instruction_faulting(subscriptions: InstructionSubscriptions) -> (controls: Vec<
    Control,
>)
    ensures
        controls@ == enabled_controls(subscriptions),
{
    let mut controls: Vec<Control> = Vec::new();
    if subscriptions.cpuid {
        controls.push(Control::Cpuid);
    }
    if subscriptions.rdtsc {
        controls.push(Control::Tsc);
    }
    assert(controls@ =~= enabled_controls(subscriptions));
    controls
}

/// A control that makes an instruction fault.
#[derive(Clone, Copy, Debug, PartialEq, Eq, Structural)]
pub enum Control {
    Cpuid,
    Tsc,
}

pub open spec fn enabled_controls(subscriptions: InstructionSubscriptions) -> Seq<Control> {
    (if subscriptions.cpuid {
        seq![Control::Cpuid]
    } else {
        Seq::empty()
    }) + (if subscriptions.rdtsc {
        seq![Control::Tsc]
    } else {
        Seq::empty()
    })
}

} // verus!

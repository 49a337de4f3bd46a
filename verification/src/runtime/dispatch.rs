//! The way of a system call through the runtime.

use vstd::prelude::*;

pub mod laws;

use crate::owned_context::exit::dispatch_outcome;
use crate::owned_context::exit::finish_dispatch;
use crate::owned_context::exit::Binding;
use crate::owned_context::exit::BrokenCallback;
use crate::owned_context::exit::Outcome;
use crate::owned_context::exit::Request;
use crate::protected_fd::batch_args;
use crate::protected_fd::batch_outcome;
use crate::protected_fd::indirect_outcome;
use crate::protected_fd::reads;
use crate::protected_fd::total;
use crate::protected_fd::Batch;
use crate::protected_fd::BatchModel;
use crate::protected_fd::Memory;
use crate::registers::HookContext;
use crate::rpc::allows_channel_io;
use crate::rpc::is_channel_io;
use crate::rpc::TrustedChannel;
use crate::runtime::clock::Boundary;
use crate::runtime::descriptors::forward_kernel_args;
use crate::runtime::descriptors::forwarded;
use crate::runtime::descriptors::is_channel_protection;
use crate::runtime::descriptors::is_protection;
use crate::runtime::descriptors::protect_compatibility_event_channel;
use crate::runtime::descriptors::protect_coordinator_channel;
use crate::runtime::descriptors::widened;
use crate::runtime::descriptors::Protection;
use crate::runtime::install::PatchPublication;
use crate::runtime::line::pushed;
use crate::runtime::line::trace_ascii;
use crate::runtime::line::trace_line;
use crate::runtime::line::StackLine;
use crate::runtime::signals::action_supported;
use crate::runtime::signals::signal_action_supported;
use crate::runtime::signals::swaps_mask;
use crate::runtime::signals::waits_with_mask;
use crate::runtime::signals::SignalPolicy;
use crate::runtime::sites::claim;
use crate::runtime::sites::lookup;
use crate::runtime::sites::Site;
use crate::runtime::sites::SiteState;
use crate::runtime::sites::SiteTable;
use crate::sys::EAGAIN;
use crate::sys::EINTR;
use crate::sys::ENOSYS;
use crate::sys::EOPNOTSUPP;
use crate::sys::EPERM;
use crate::sys::SIGCHLD;
use crate::sys::SYS_CLONE;
use crate::sys::SYS_CLONE3;
use crate::sys::SYS_EXECVE;
use crate::sys::SYS_EXECVEAT;
use crate::sys::SYS_EXIT;
use crate::sys::SYS_EXIT_GROUP;
use crate::sys::SYS_FORK;
use crate::sys::SYS_RT_SIGACTION;
use crate::sys::SYS_RT_SIGPROCMASK;
use crate::sys::SYS_SETNS;
use crate::sys::SYS_SETPGID;
use crate::sys::SYS_SETSID;
use crate::sys::SYS_SIGALTSTACK;
use crate::sys::SYS_UNSHARE;
use crate::sys::SYS_VFORK;
use crate::sys::SYS_WAIT4;
use crate::syscall_mode::counted;
use crate::syscall_mode::deferral_recorded;
use crate::syscall_mode::sud_recorded;
use crate::syscall_mode::ModeState;

verus! {

/// The result of a call that nobody answered.
pub const UNSET_RESULT: i64 = i64::MIN;

/// The mode in which calls are traced and forwarded.
pub const TOOL_COMPAT: u8 = 2;

/// The mode in which calls are handed to a tool.
pub const TOOL_REVERIE: u8 = 3;

/// The status of a process whose event channel is another file.
pub const EVENT_CHANNEL_IDENTITY_FAILURE_STATUS: i32 = 120;

/// The status of a process whose event channel does not take an event.
pub const EVENT_CHANNEL_WRITE_FAILURE_STATUS: i32 = 121;

/// The status of a process whose stage marker was not written.
pub const IN_GUEST_STAGE_WRITE_FAILURE_STATUS: i32 = 123;

/// Waits for room in the event channel before it is given up.
pub const MAX_BACKPRESSURE_RETRIES: u32 = 20;

/// The flags that a fork-like clone may have besides its signal.
pub const FORK_FLAGS: u64 = 0x130_0000;

/// The signal that a clone sends when its child ends.
pub const CLONE_SIGNAL_MASK: u64 = 0xff;

// ---------------------------------------------------------------------------
// Callbacks
// ---------------------------------------------------------------------------

/// What one thread is doing for its tool.
#[derive(Clone, Copy, Debug, PartialEq, Eq, Structural)]
pub struct Callbacks {
    /// A tool callback is active.
    pub active: bool,
    /// The event that is handled, zero without one.
    pub event: usize,
}

impl Default for Callbacks {
    fn default() -> (callbacks: Self)
        ensures
            callbacks == (Callbacks { active: false, event: 0 }),
    {
        Callbacks { active: false, event: 0 }
    }
}

pub open spec fn callback_entered(callbacks: Callbacks) -> Callbacks {
    Callbacks { active: true, ..callbacks }
}

pub open spec fn callback_left(callbacks: Callbacks, previous: bool) -> Callbacks {
    Callbacks { active: previous, ..callbacks }
}

pub open spec fn event_entered(callbacks: Callbacks, event: usize) -> Callbacks {
    Callbacks { event, ..callbacks }
}

/// Remembers whether a callback was active.
#[derive(Debug)]
pub struct ToolCallbackGuard {
    pub previous: bool,
}

impl ToolCallbackGuard {
    pub fn enter(callbacks: &mut Callbacks) -> (guard: Self)
        ensures
            guard.previous == old(callbacks).active,
            *final(callbacks) == callback_entered(*old(callbacks)),
    {
        let previous: bool = callbacks.active;
        callbacks.active = true;
        ToolCallbackGuard { previous }
    }

    pub fn leave(self, callbacks: &mut Callbacks)
        ensures
            *final(callbacks) == callback_left(*old(callbacks), self.previous),
    {
        callbacks.active = self.previous;
    }
}

/// Remembers the event that was handled.
#[derive(Debug)]
pub struct CurrentEventGuard {
    pub previous: usize,
}

impl CurrentEventGuard {
    pub fn enter(callbacks: &mut Callbacks, event: usize) -> (guard: Self)
        ensures
            guard.previous == old(callbacks).event,
            *final(callbacks) == event_entered(*old(callbacks), event),
    {
        let previous: usize = callbacks.event;
        callbacks.event = event;
        CurrentEventGuard { previous }
    }

    pub fn leave(self, callbacks: &mut Callbacks)
        ensures
            *final(callbacks) == event_entered(*old(callbacks), self.previous),
    {
        callbacks.event = self.previous;
    }
}

pub fn tool_callback_active(callbacks: &Callbacks) -> (active: bool)
    ensures
        active == callbacks.active,
{
    callbacks.active
}

pub fn nested_tool_callback(callbacks: &Callbacks) -> (nested: bool)
    ensures
        nested == callbacks.active,
{
    tool_callback_active(callbacks)
}

/// A callback that is handled inside another leaves the other as it was, whatever event
/// either handles and in whichever order the scopes of the inner one end.
pub proof fn callbacks_nest(before: Callbacks, event: usize)
    ensures
        ({
            let inside = event_entered(callback_entered(before), event);
            &&& inside.active
            &&& inside.event == event
            &&& callback_left(event_entered(inside, before.event), before.active) == before
            &&& event_entered(callback_left(inside, before.active), before.event) == before
        }),
{
}

/// Whether a tool may be asked about the progress of the guest: between callbacks, with
/// the clock stopped and nothing handed over.
pub fn guest_progress_allowed(
    boundary: Boundary,
    callbacks: &Callbacks,
    handoff_clear: bool,
) -> (allowed: bool)
    ensures
        allowed == (boundary == Boundary::Paused && callbacks.event == 0 && !callbacks.active
            && handoff_clear),
{
    boundary == Boundary::Paused && callbacks.event == 0 && !callbacks.active && handoff_clear
}

/// Whether a tool may be asked for its random state: with the clock stopped.
pub fn rng_snapshot_allowed(boundary: Boundary) -> (allowed: bool)
    ensures
        allowed == (boundary == Boundary::Paused),
{
    boundary == Boundary::Paused
}

// ---------------------------------------------------------------------------
// Events
// ---------------------------------------------------------------------------

/// One system call.
#[derive(Debug)]
pub struct SyscallEvent {
    pub owned_binding: Option<Binding>,
    pub exit: Option<Request>,
    pub number: i64,
    pub args: [u64; 6],
    pub instruction_pointer: u64,
    pub result: i64,
    pub context: usize,
}

/// The arguments of a system call in its registers.
pub open spec fn argument_registers(context: HookContext) -> Seq<u64> {
    seq![context.rdi, context.rsi, context.rdx, context.r10, context.r8, context.r9]
}

/// The event of a system call whose registers were saved. A hook of one call only
/// gives its number.
pub fn context_event(
    context: &HookContext,
    number: Option<i64>,
    binding: Option<Binding>,
    pointer: usize,
) -> (event: SyscallEvent)
    ensures
        event.owned_binding == binding,
        event.exit is None,
        event.number == match number {
            Some(number) => number,
            None => context.rax as i64,
        },
        event.args@ == argument_registers(*context),
        event.instruction_pointer == context.instruction_pointer,
        event.result == UNSET_RESULT,
        event.context == pointer,
{
    let args: [u64; 6] = [
        context.rdi,
        context.rsi,
        context.rdx,
        context.r10,
        context.r8,
        context.r9,
    ];
    assert(args@ =~= argument_registers(*context));
    SyscallEvent {
        owned_binding: binding,
        exit: None,
        number: match number {
            Some(number) => number,
            None => context.rax as i64,
        },
        args,
        instruction_pointer: context.instruction_pointer,
        result: UNSET_RESULT,
        context: pointer,
    }
}

/// The result of a call that went through the tool: one that nobody answered is one
/// that does not exist.
pub fn settled_result(result: i64) -> (settled: i64)
    ensures
        settled == if result == UNSET_RESULT {
            -(ENOSYS as int)
        } else {
            result as int
        },
{
    if result == UNSET_RESULT {
        -(ENOSYS as i64)
    } else {
        result
    }
}

/// The registers after a system call: its result, and what the instruction itself
/// overwrites.
pub open spec fn completed(context: HookContext, result: i64) -> HookContext {
    HookContext {
        rax: result as u64,
        rcx: if context.instruction_pointer + 2 > u64::MAX {
            u64::MAX
        } else {
            (context.instruction_pointer + 2) as u64
        },
        r11: context.rflags,
        ..context
    }
}

pub fn complete_context(context: &mut HookContext, result: i64)
    ensures
        *final(context) == completed(*old(context), result),
{
    context.rax = result as u64;
    context.rcx = context.instruction_pointer.saturating_add(2);
    context.r11 = context.rflags;
}

pub open spec fn answered(result: i64) -> Option<i64> {
    if result == UNSET_RESULT {
        None
    } else {
        Some(result)
    }
}

/// The result that a callback set, if it set one.
pub fn set_result(result: i64) -> (value: Option<i64>)
    ensures
        value == answered(result),
{
    if result == UNSET_RESULT {
        None
    } else {
        Some(result)
    }
}

/// What an owned call comes to: a result, or an exit that used up the thread's
/// binding.
pub fn owned_outcome(event: SyscallEvent) -> (outcome: Result<Outcome, BrokenCallback>)
    ensures
        outcome == dispatch_outcome(
            event.exit,
            answered(event.result),
            event.owned_binding is Some,
        ),
{
    finish_dispatch(event.exit, set_result(event.result), event.owned_binding.is_some())
}

// ---------------------------------------------------------------------------
// Rules
// ---------------------------------------------------------------------------

pub open spec fn fork_like_clone(flags: u64, child_stack: u64) -> bool {
    &&& child_stack == 0
    &&& flags & CLONE_SIGNAL_MASK == SIGCHLD as u64
    &&& flags & !(CLONE_SIGNAL_MASK | FORK_FLAGS) == 0
}

/// Whether a clone makes a process as a fork does.
pub fn clone_is_fork_like(flags: u64, child_stack: u64) -> (result: bool)
    ensures
        result == fork_like_clone(flags, child_stack),
{
    child_stack == 0 && flags & CLONE_SIGNAL_MASK == SIGCHLD as u64 && flags & !(CLONE_SIGNAL_MASK
        | FORK_FLAGS) == 0
}

pub open spec fn is_exec(number: i64) -> bool {
    number == SYS_EXECVE || number == SYS_EXECVEAT
}

/// Calls that make or replace a process.
pub open spec fn changes_process(number: i64) -> bool {
    ||| number == SYS_CLONE
    ||| number == SYS_CLONE3
    ||| number == SYS_FORK
    ||| number == SYS_VFORK
    ||| is_exec(number)
}

/// Calls that change signal state.
pub open spec fn changes_signals(number: i64) -> bool {
    ||| number == SYS_RT_SIGACTION
    ||| number == SYS_RT_SIGPROCMASK
    ||| number == SYS_SIGALTSTACK
    ||| waits_with_mask(number)
}

/// The refusal of a call that would take control from the runtime: a fork that is not
/// allowed, or a change of its signals.
pub open spec fn control_refusal(
    number: i64,
    args: Seq<u64>,
    fork_like: bool,
    forks_allowed: bool,
    supported: bool,
) -> Option<i64> {
    if fork_like && !forks_allowed {
        Some((-(EOPNOTSUPP as int)) as i64)
    } else if !supported || (number == SYS_SIGALTSTACK && args[0] != 0) || (number
        == SYS_RT_SIGPROCMASK && args[1] != 0) {
        Some((-(EPERM as int)) as i64)
    } else {
        None
    }
}

/// Keeps control of processes and signals with the runtime. `fork_like` says whether
/// the number is one of the fork family, `supported` whether its signal action is.
pub fn protect_runtime_control(
    number: i64,
    args: &[u64; 6],
    fork_like: bool,
    forks_allowed: bool,
    supported: bool,
) -> (refusal: Option<i64>)
    ensures
        refusal == control_refusal(number, args@, fork_like, forks_allowed, supported),
{
    if fork_like && !forks_allowed {
        return Some(-(EOPNOTSUPP as i64));
    }
    if !supported || (number == SYS_SIGALTSTACK && args[0] != 0) || (number == SYS_RT_SIGPROCMASK
        && args[1] != 0) {
        return Some(-(EPERM as i64));
    }
    None
}

// ---------------------------------------------------------------------------
// Calls of the tool
// ---------------------------------------------------------------------------

/// What becomes of a call that a tool makes.
#[derive(Debug, PartialEq, Eq)]
pub enum NestedRoute {
    /// It is answered.
    Answer(i64),
    /// It goes to the kernel as it is.
    Raw,
    /// It touches the runtime's descriptors.
    Protect(Protection),
    /// It goes to the kernel guarded, and changes of the mappings are followed.
    Guarded,
}

/// What the rules need to know of a call.
#[derive(Clone, Copy, Debug, PartialEq, Eq, Structural)]
pub struct Circumstances {
    /// The number is one of the fork family.
    pub fork_like: bool,
    /// Forks are allowed.
    pub forks_allowed: bool,
    pub signals: SignalPolicy,
}

pub open spec fn is_nested_route(
    route: NestedRoute,
    memory: Memory,
    callback_active: bool,
    channel: TrustedChannel,
    circumstances: Circumstances,
    number: i64,
    args: Seq<u64>,
    protected: Seq<i32>,
) -> bool {
    let refusal = control_refusal(
        number,
        args,
        circumstances.fork_like,
        circumstances.forks_allowed,
        action_supported(memory, circumstances.signals, number, args),
    );
    if !callback_active {
        route == NestedRoute::Answer((-(EPERM as int)) as i64)
    } else if is_channel_io(channel, number, args[0] as i32) {
        route == NestedRoute::Raw
    } else if changes_process(number) {
        route == NestedRoute::Answer((-(EOPNOTSUPP as int)) as i64)
    } else if changes_signals(number) {
        route == NestedRoute::Answer((-(EPERM as int)) as i64)
    } else if refusal is Some {
        route == NestedRoute::Answer(refusal->0)
    } else {
        match route {
            NestedRoute::Protect(protection) => !(protection is Pass) && is_protection(
                protection,
                number,
                args,
                protected,
                indirect_outcome(memory, number, args, protected),
            ),
            NestedRoute::Guarded => is_protection(
                Protection::Pass,
                number,
                args,
                protected,
                indirect_outcome(memory, number, args, protected),
            ),
            _ => false,
        }
    }
}

/// Routes a call that a tool makes while it handles another.
pub fn forward_nested_tool_syscall<F: Fn(u64, usize) -> Vec<u8>>(
    callback_active: bool,
    channel: &TrustedChannel,
    circumstances: &Circumstances,
    number: i64,
    args: &[u64; 6],
    protected: &[i32],
    read: &F,
) -> (route: NestedRoute)
    requires
        total(*read),
    ensures
        !callback_active ==> route == NestedRoute::Answer((-(EPERM as int)) as i64),
        forall|memory: Memory| #[trigger]
            reads(*read, memory) ==> is_nested_route(
                route,
                memory,
                callback_active,
                *channel,
                *circumstances,
                number,
                args@,
                protected@,
            ),
{
    if !callback_active {
        return NestedRoute::Answer(-(EPERM as i64));
    }
    if allows_channel_io(channel, number, args[0] as i32) {
        return NestedRoute::Raw;
    }
    if number == SYS_CLONE || number == SYS_CLONE3 || number == SYS_FORK || number == SYS_VFORK
        || number == SYS_EXECVE || number == SYS_EXECVEAT {
        return NestedRoute::Answer(-(EOPNOTSUPP as i64));
    }
    if number == SYS_RT_SIGACTION || number == SYS_RT_SIGPROCMASK || number == SYS_SIGALTSTACK
        || swaps_mask(number) {
        return NestedRoute::Answer(-(EPERM as i64));
    }
    let supported: bool = signal_action_supported(&circumstances.signals, number, args, read);
    match protect_runtime_control(
        number,
        args,
        circumstances.fork_like,
        circumstances.forks_allowed,
        supported,
    ) {
        Some(refusal) => return NestedRoute::Answer(refusal),
        None => {},
    }
    match protect_coordinator_channel(number, args, protected, read) {
        Protection::Pass => NestedRoute::Guarded,
        protection => NestedRoute::Protect(protection),
    }
}

/// What becomes of a guarded call.
#[derive(Debug, PartialEq, Eq)]
pub enum GuardedRoute {
    /// It touches the runtime's descriptors.
    Protect(Protection),
    /// The first entry of a batch is refused: the kernel judges the rest of the call
    /// with these arguments.
    Validate([u64; 6]),
    /// The kernel gets these arguments.
    Forward([u64; 6]),
}

pub open spec fn is_guarded_route(
    route: GuardedRoute,
    memory: Memory,
    number: i64,
    args: Seq<u64>,
    protected: Seq<i32>,
    directories: Seq<i32>,
) -> bool {
    let indirect = indirect_outcome(memory, number, args, protected);
    match route {
        GuardedRoute::Protect(protection) => !(protection is Pass) && is_protection(
            protection,
            number,
            args,
            protected,
            indirect,
        ),
        GuardedRoute::Validate(probe) => {
            &&& is_protection(Protection::Pass, number, args, protected, indirect)
            &&& batch_outcome(memory, number, args, protected) == BatchModel::Validate(probe@)
        },
        GuardedRoute::Forward(submitted) => {
            &&& is_protection(Protection::Pass, number, args, protected, indirect)
            &&& match batch_outcome(memory, number, args, protected) {
                BatchModel::Forward(kept) => submitted@ == forwarded(number, kept, directories),
                BatchModel::Validate(_) => false,
            }
        },
    }
}

/// Routes a call that reaches the kernel only without the runtime's descriptors. The
/// directories that are protected may be more than the descriptors.
pub fn guard_syscall<F: Fn(u64, usize) -> Vec<u8>>(
    number: i64,
    args: &[u64; 6],
    protected: &[i32],
    directories: &[i32],
    read: &F,
) -> (route: GuardedRoute)
    requires
        total(*read),
    ensures
        forall|memory: Memory| #[trigger]
            reads(*read, memory) ==> is_guarded_route(
                route,
                memory,
                number,
                args@,
                protected@,
                directories@,
            ),
{
    match protect_coordinator_channel(number, args, protected, read) {
        Protection::Pass => {},
        protection => return GuardedRoute::Protect(protection),
    }
    match batch_args(number, args, protected, read) {
        Batch::Forward(kept) => GuardedRoute::Forward(
            forward_kernel_args(number, &kept, directories),
        ),
        Batch::Validate(probe) => GuardedRoute::Validate(probe),
    }
}

// ---------------------------------------------------------------------------
// Calls of the guest
// ---------------------------------------------------------------------------

/// What becomes of a call of the guest.
#[derive(Debug, PartialEq, Eq)]
pub enum ProcessRoute {
    /// It is refused, and traced if asked for.
    Refuse { result: i64, trace: bool },
    /// The tool handles it, and changes of the mappings are followed.
    Tool,
    /// It touches the event channel; it is traced.
    Channel(Protection),
    /// It goes to the kernel, is traced before or after, and changes of the mappings are
    /// followed.
    Forward { trace_before: bool, trace_after: bool },
}

/// Calls that would leave the controller's session or namespaces.
pub open spec fn leaves_session(number: i64) -> bool {
    number == SYS_SETPGID || number == SYS_SETSID || number == SYS_SETNS || number == SYS_UNSHARE
}

/// Calls that are traced before they are made: they may not return, or return twice.
pub open spec fn traced_before(mode: u8, number: i64) -> bool {
    ||| number == SYS_EXIT
    ||| number == SYS_EXIT_GROUP
    ||| mode == TOOL_COMPAT && (number == SYS_CLONE || number == SYS_FORK)
}

pub open spec fn is_process_route(
    route: ProcessRoute,
    mode: u8,
    has_cookie: bool,
    number: i64,
    args: Seq<u64>,
    control: Option<i64>,
    event_fd: i32,
    protected: Seq<i32>,
) -> bool {
    let compat = mode == TOOL_COMPAT;
    let refused = (-(EPERM as int)) as i64;
    let unsupported = (-(EOPNOTSUPP as int)) as i64;
    if is_exec(number) {
        route == (ProcessRoute::Refuse { result: unsupported, trace: mode != TOOL_REVERIE })
    } else if mode == TOOL_REVERIE {
        match control {
            Some(result) => route == (ProcessRoute::Refuse { result, trace: false }),
            None => route == ProcessRoute::Tool,
        }
    } else if compat && has_cookie && !is_channel_protection(
        Protection::Pass,
        number,
        args,
        widened(event_fd),
        protected,
    ) {
        route is Channel && is_channel_protection(
            route->Channel_0,
            number,
            args,
            widened(event_fd),
            protected,
        )
    } else if compat && leaves_session(number) {
        route == (ProcessRoute::Refuse { result: refused, trace: true })
    } else if number == SYS_CLONE && !fork_like_clone(args[0], args[1]) {
        route == (ProcessRoute::Refuse {
            result: if compat {
                refused
            } else {
                unsupported
            },
            trace: true,
        })
    } else {
        route == (ProcessRoute::Forward {
            trace_before: traced_before(mode, number),
            trace_after: !traced_before(mode, number),
        })
    }
}

/// Routes a call of the guest. `control` is the refusal of a call that would take
/// control from the runtime.
pub fn process_syscall(
    mode: u8,
    has_cookie: bool,
    number: i64,
    args: &[u64; 6],
    control: Option<i64>,
    event_fd: i32,
    protected: &[i32],
) -> (route: ProcessRoute)
    ensures
        is_process_route(
            route,
            mode,
            has_cookie,
            number,
            args@,
            control,
            event_fd,
            protected@,
        ),
{
    if number == SYS_EXECVE || number == SYS_EXECVEAT {
        return ProcessRoute::Refuse {
            result: -(EOPNOTSUPP as i64),
            trace: mode != TOOL_REVERIE,
        };
    }
    if mode == TOOL_REVERIE {
        return match control {
            Some(result) => ProcessRoute::Refuse { result, trace: false },
            None => ProcessRoute::Tool,
        };
    }
    if mode == TOOL_COMPAT && has_cookie {
        match protect_compatibility_event_channel(number, args, event_fd, protected) {
            Protection::Pass => {},
            protection => return ProcessRoute::Channel(protection),
        }
    }
    if mode == TOOL_COMPAT && (number == SYS_SETPGID || number == SYS_SETSID || number == SYS_SETNS
        || number == SYS_UNSHARE) {
        return ProcessRoute::Refuse { result: -(EPERM as i64), trace: true };
    }
    if number == SYS_CLONE && !clone_is_fork_like(args[0], args[1]) {
        return ProcessRoute::Refuse {
            result: if mode == TOOL_COMPAT {
                -(EPERM as i64)
            } else {
                -(EOPNOTSUPP as i64)
            },
            trace: true,
        };
    }
    let before: bool = number == SYS_EXIT || number == SYS_EXIT_GROUP || (mode == TOOL_COMPAT && (
    number == SYS_CLONE || number == SYS_FORK));
    ProcessRoute::Forward { trace_before: before, trace_after: !before }
}

/// Whether a forwarded call came back in a forked child, whose counts start over.
pub fn returned_in_child(fork_like: bool, result: i64) -> (result_in_child: bool)
    ensures
        result_in_child == (fork_like && result == 0),
{
    fork_like && result == 0
}

/// A call that is forwarded is traced exactly once, and no call replaces the process.
pub proof fn forwarded_calls_are_traced_once(
    route: ProcessRoute,
    mode: u8,
    has_cookie: bool,
    number: i64,
    args: Seq<u64>,
    control: Option<i64>,
    event_fd: i32,
    protected: Seq<i32>,
)
    requires
        is_process_route(route, mode, has_cookie, number, args, control, event_fd, protected),
        route is Forward,
    ensures
        route->trace_before != route->trace_after,
        !is_exec(number),
        number == SYS_CLONE ==> fork_like_clone(args[0], args[1]),
{
}

// ---------------------------------------------------------------------------
// Trapped calls
// ---------------------------------------------------------------------------

/// What becomes of a trapped call.
#[derive(Clone, Copy, Debug, PartialEq, Eq, Structural)]
pub enum DispatchRoute {
    /// A tool made it.
    Nested,
    /// The process ends with this status.
    Exit(i32),
    /// It is deferred to a fallback entry with this mask.
    Masked(u64),
    /// It is processed at once.
    Process,
    /// Its site is claimed.
    Site,
}

pub open spec fn dispatch_route(
    callback_active: bool,
    sud_only: bool,
    user_dispatch: bool,
    mask: Option<u64>,
    mode: u8,
    number: i64,
    args: Seq<u64>,
) -> DispatchRoute {
    if callback_active {
        DispatchRoute::Nested
    } else if sud_only {
        if !user_dispatch {
            DispatchRoute::Exit(126)
        } else {
            match mask {
                None => DispatchRoute::Exit(125),
                Some(mask) => DispatchRoute::Masked(mask),
            }
        }
    } else if mode != TOOL_REVERIE && ((number == SYS_CLONE && fork_like_clone(args[0], args[1]))
        || number == SYS_WAIT4) {
        DispatchRoute::Process
    } else {
        DispatchRoute::Site
    }
}

/// The path that a call took, for the statistics.
#[derive(Clone, Copy, Debug, PartialEq, Eq, Structural)]
pub enum Path {
    NestedSigsys,
    Sigsys,
    StraddlerFallback,
    OtherFallback,
}

/// Dispatches trapped calls.
#[derive(Clone, Copy, Debug, PartialEq, Eq, Structural)]
pub struct LiteinstDispatcher {
    /// Statistics are kept.
    pub enabled: bool,
    pub publication: PatchPublication,
}

/// The path of a call whose site could not be patched: whether its instruction
/// straddles two cache lines.
pub open spec fn fallback_path(sites: Seq<Site>, address: u64) -> Path {
    match lookup(sites, address) {
        Some(slot) => if sites[slot].straddle_prefix != 0 {
            Path::StraddlerFallback
        } else {
            Path::OtherFallback
        },
        None => Path::OtherFallback,
    }
}

/// Without statistics nothing is classified.
pub fn record_disabled_fallback_stats() -> (path: Option<Path>)
    ensures
        path is None,
{
    None
}

/// With statistics the fallback of a site is classified.
pub fn record_enabled_fallback_stats(table: &SiteTable, address: u64) -> (path: Option<Path>)
    ensures
        path == Some(fallback_path(table@, address)),
{
    match table.find_site(address) {
        Some(slot) => if table.site(slot).straddle_prefix != 0 {
            Some(Path::StraddlerFallback)
        } else {
            Some(Path::OtherFallback)
        },
        None => Some(Path::OtherFallback),
    }
}

impl LiteinstDispatcher {
    pub fn new(enabled: bool, publication: PatchPublication) -> (dispatcher: Self)
        ensures
            dispatcher == (LiteinstDispatcher { enabled, publication }),
    {
        LiteinstDispatcher { enabled, publication }
    }

    /// The path that is recorded of a fallback, if any is.
    pub fn record_fallback_stats(&self, table: &SiteTable, address: u64) -> (path: Option<Path>)
        ensures
            path == if self.enabled {
                Some(fallback_path(table@, address))
            } else {
                None
            },
    {
        if self.enabled {
            record_enabled_fallback_stats(table, address)
        } else {
            record_disabled_fallback_stats()
        }
    }

    /// Routes a trapped call, and says which path it took. A call that user dispatch
    /// reported is counted.
    pub fn dispatch(
        &self,
        modes: &mut ModeState,
        callback_active: bool,
        user_dispatch: bool,
        mask: Option<u64>,
        mode: u8,
        number: i64,
        args: &[u64; 6],
    ) -> (routed: (Path, DispatchRoute))
        ensures
            routed.0 == if callback_active {
                Path::NestedSigsys
            } else {
                Path::Sigsys
            },
            routed.1 == dispatch_route(
                callback_active,
                old(modes).sud_only,
                user_dispatch,
                mask,
                mode,
                number,
                args@,
            ),
            *final(modes) == if user_dispatch {
                sud_recorded(*old(modes))
            } else {
                *old(modes)
            },
    {
        if user_dispatch {
            modes.record_sud();
        }
        if callback_active {
            return (Path::NestedSigsys, DispatchRoute::Nested);
        }
        let route: DispatchRoute = if modes.sud_only() {
            if !user_dispatch {
                DispatchRoute::Exit(126)
            } else {
                match mask {
                    Some(mask) => DispatchRoute::Masked(mask),
                    None => DispatchRoute::Exit(125),
                }
            }
        } else if mode != TOOL_REVERIE && ((number == SYS_CLONE && clone_is_fork_like(
            args[0],
            args[1],
        )) || number == SYS_WAIT4) {
            DispatchRoute::Process
        } else {
            DispatchRoute::Site
        };
        (Path::Sigsys, route)
    }
}

/// What is done with the site of a trapped call or a faulting instruction.
#[derive(Clone, Copy, Debug, PartialEq, Eq, Structural)]
pub enum SiteStep {
    /// Install its hook.
    Install(usize),
    /// Wait until whoever claimed it is done.
    Settle(usize),
    /// The table has no room for it.
    Full,
}

/// The sites after one of them was claimed and its trap counted.
pub open spec fn trapped(sites: Seq<Site>, address: u64) -> Seq<Site> {
    let (after, slot) = claim(sites, address);
    match slot {
        Some((slot, _)) => after.update(
            slot,
            Site { trap_count: counted(after[slot].trap_count), ..after[slot] },
        ),
        None => after,
    }
}

/// Claims the site at an address and counts its trap.
pub fn trap_site(table: &mut SiteTable, address: u64) -> (step: SiteStep)
    requires
        address != 0,
    ensures
        final(table)@ == trapped(old(table)@, address),
        match claim(old(table)@, address).1 {
            None => step == SiteStep::Full,
            Some((slot, claimed)) => 0 <= slot < final(table)@.len() && slot <= usize::MAX && step
                == if claimed {
                SiteStep::Install(slot as usize)
            } else {
                SiteStep::Settle(slot as usize)
            },
        },
{
    match table.claim_site(address) {
        None => SiteStep::Full,
        Some((slot, claimed)) => {
            table.record_trap(slot);
            if claimed {
                SiteStep::Install(slot)
            } else {
                SiteStep::Settle(slot)
            }
        },
    }
}

/// Where a deferred call goes on: at the entry that was prepared, which is counted.
/// Without one the process ends with the status.
pub fn masked_entry(modes: &mut ModeState, entry: Option<u64>) -> (result: Result<u64, i32>)
    ensures
        match entry {
            Some(entry) => result == Ok::<u64, i32>(entry) && *final(modes) == deferral_recorded(
                *old(modes),
            ),
            None => result == Err::<u64, i32>(125i32) && *final(modes) == *old(modes),
        },
{
    match entry {
        Some(entry) => {
            modes.record_deferred();
            Ok(entry)
        },
        None => Err(125),
    }
}

/// The trampoline at which a trapped call goes on, if its site has one.
pub fn patched_entry(site: Option<(SiteState, u64)>) -> (entry: Option<u64>)
    ensures
        entry == match site {
            Some((state, hook)) => if state == SiteState::Active && hook != 0 {
                Some(hook)
            } else {
                None
            },
            None => None,
        },
{
    match site {
        Some((state, hook)) => if state == SiteState::Active && hook != 0 {
            Some(hook)
        } else {
            None
        },
        None => None,
    }
}

/// Where a call goes on whose site cannot be patched: a tool's at the entry that was
/// prepared, any other nowhere, with the error.
pub fn fallback_entry(mode: u8, entry: Option<u64>) -> (result: Result<u64, i32>)
    ensures
        result == if mode == TOOL_REVERIE && entry is Some {
            Ok::<u64, i32>(entry->0)
        } else {
            Err(EOPNOTSUPP)
        },
{
    match entry {
        Some(entry) => if mode == TOOL_REVERIE {
            Ok(entry)
        } else {
            Err(EOPNOTSUPP)
        },
        None => Err(EOPNOTSUPP),
    }
}

// ---------------------------------------------------------------------------
// The event channel
// ---------------------------------------------------------------------------

/// One line for the event channel.
#[derive(Debug)]
pub struct Trace {
    pub line: StackLine,
    /// The channel is checked first, and the process ends if the line is not written.
    pub checked: bool,
}

/// The trace of a call: only the compatibility tool has any, and only a channel with a
/// cookie is checked.
pub fn trace_event(mode: u8, cookie: u64, pid: i64, number: i64) -> (trace: Option<Trace>)
    ensures
        trace is Some <==> mode == TOOL_COMPAT,
        trace matches Some(trace) ==> trace.checked == (cookie != 0) && trace.line@ == pushed(
            Seq::empty(),
            trace_ascii(cookie, pid, number),
        ),
{
    if mode != TOOL_COMPAT {
        return None;
    }
    Some(Trace { line: trace_line(cookie, pid, number), checked: cookie != 0 })
}

/// Whether the event channel still is the file that it was.
pub fn compatibility_event_channel_is_intact(
    result: i64,
    observed: (u64, u64),
    expected: (u64, u64),
) -> (intact: bool)
    ensures
        intact == (result == 0 && observed == expected),
{
    result == 0 && observed.0 == expected.0 && observed.1 == expected.1
}

/// What is done after an attempt to write an event.
#[derive(Clone, Copy, Debug, PartialEq, Eq, Structural)]
pub enum WriteStep {
    /// The event is written.
    Done,
    /// Wait for room and try again.
    Wait,
    /// The process ends with this status.
    Fail(i32),
}

pub open spec fn write_step(attempt: u32, written: i64, length: nat) -> WriteStep {
    if written == length {
        WriteStep::Done
    } else if (written == -EAGAIN || written == -EINTR) && attempt < MAX_BACKPRESSURE_RETRIES {
        WriteStep::Wait
    } else {
        WriteStep::Fail(EVENT_CHANNEL_WRITE_FAILURE_STATUS)
    }
}

/// The step after the attempt of this number. Only a full channel or an interruption is
/// waited out, and only so often; a part of an event is a failure.
pub fn write_compatibility_event(attempt: u32, written: i64, length: usize) -> (step: WriteStep)
    ensures
        step == write_step(attempt, written, length as nat),
{
    if written >= 0 && written as u64 == length as u64 {
        return WriteStep::Done;
    }
    if (written == -(EAGAIN as i64) || written == -(EINTR as i64)) && attempt
        < MAX_BACKPRESSURE_RETRIES {
        return WriteStep::Wait;
    }
    WriteStep::Fail(EVENT_CHANNEL_WRITE_FAILURE_STATUS)
}

/// A channel is waited for at most twenty times.
pub proof fn waiting_ends(attempt: u32, written: i64, length: nat)
    requires
        attempt >= MAX_BACKPRESSURE_RETRIES,
    ensures
        write_step(attempt, written, length) != WriteStep::Wait,
{
}

/// Whether all of a stage marker was written; otherwise the process ends.
pub fn stage_is_written(written: i64, length: usize) -> (result: Result<(), i32>)
    ensures
        result == if written == length {
            Ok::<(), i32>(())
        } else {
            Err(IN_GUEST_STAGE_WRITE_FAILURE_STATUS)
        },
{
    if written >= 0 && written as u64 == length as u64 {
        Ok(())
    } else {
        Err(IN_GUEST_STAGE_WRITE_FAILURE_STATUS)
    }
}

/// What is reported of an error that ends the process: its number, or else its kind.
pub fn failure_detail(errno: Option<i32>, kind: i64) -> (detail: (&'static str, i64))
    ensures
        detail == match errno {
            Some(errno) => ("io-errno", errno as i64),
            None => ("io-error-kind", kind),
        },
{
    match errno {
        Some(errno) => ("io-errno", errno as i64),
        None => ("io-error-kind", kind),
    }
}

} // verus!

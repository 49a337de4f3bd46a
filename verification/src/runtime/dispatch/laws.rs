//! What the routing of system calls promises.

use vstd::prelude::*;

use crate::owned_context::exit::Binding;
use crate::owned_context::exit::BrokenCallback;
use crate::owned_context::exit::Outcome;
use crate::protected_fd::batch_extent;
use crate::protected_fd::batch_from;
use crate::protected_fd::entry_result;
use crate::protected_fd::indirect_outcome;
use crate::protected_fd::BatchModel;
use crate::protected_fd::Memory;
use crate::registers::HookContext;
use crate::rpc::is_channel_io;
use crate::rpc::TrustedChannel;
use crate::runtime::clock::Boundary;
use crate::runtime::descriptors::passing_calls_touch_nothing;
use crate::runtime::descriptors::targets;
use crate::runtime::descriptors::Protection;
use crate::runtime::descriptors::laws::holds_directory;
use crate::runtime::descriptors::laws::stands_at;
use crate::runtime::dispatch::clone_is_fork_like;
use crate::runtime::dispatch::compatibility_event_channel_is_intact;
use crate::runtime::dispatch::complete_context;
use crate::runtime::dispatch::context_event;
use crate::runtime::dispatch::failure_detail;
use crate::runtime::dispatch::fallback_entry;
use crate::runtime::dispatch::guest_progress_allowed;
use crate::runtime::dispatch::is_guarded_route;
use crate::runtime::dispatch::is_nested_route;
use crate::runtime::dispatch::masked_entry;
use crate::runtime::dispatch::nested_tool_callback;
use crate::runtime::dispatch::owned_outcome;
use crate::runtime::dispatch::patched_entry;
use crate::runtime::dispatch::process_syscall;
use crate::runtime::dispatch::protect_runtime_control;
use crate::runtime::dispatch::record_disabled_fallback_stats;
use crate::runtime::dispatch::record_enabled_fallback_stats;
use crate::runtime::dispatch::returned_in_child;
use crate::runtime::dispatch::rng_snapshot_allowed;
use crate::runtime::dispatch::set_result;
use crate::runtime::dispatch::settled_result;
use crate::runtime::dispatch::stage_is_written;
use crate::runtime::dispatch::tool_callback_active;
use crate::runtime::dispatch::trace_event;
use crate::runtime::dispatch::trap_site;
use crate::runtime::dispatch::write_compatibility_event;
use crate::runtime::dispatch::Callbacks;
use crate::runtime::dispatch::Circumstances;
use crate::runtime::dispatch::CurrentEventGuard;
use crate::runtime::dispatch::DispatchRoute;
use crate::runtime::dispatch::GuardedRoute;
use crate::runtime::dispatch::LiteinstDispatcher;
use crate::runtime::dispatch::NestedRoute;
use crate::runtime::dispatch::Path;
use crate::runtime::dispatch::ProcessRoute;
use crate::runtime::dispatch::SiteStep;
use crate::runtime::dispatch::SyscallEvent;
use crate::runtime::dispatch::ToolCallbackGuard;
use crate::runtime::dispatch::Trace;
use crate::runtime::dispatch::WriteStep;
use crate::runtime::install::PatchPublication;
use crate::runtime::sites::lookup;
use crate::runtime::sites::match_is_inside;
use crate::runtime::sites::well_formed;
use crate::runtime::sites::Site;
use crate::runtime::sites::SiteState;
use crate::runtime::sites::SiteTable;
use crate::runtime::sites::laws::claims_take_one_slot;
use crate::syscall_mode::ModeState;
use crate::syscall_mode::SyscallModeStats;

verus! {

// ---------------------------------------------------------------------------
// Clones
// ---------------------------------------------------------------------------

/// The flags that only keep the books of a fork: where the parent learns the child's
/// number, where the child forgets it, and where the child learns it.
pub open spec fn is_bookkeeping(flag: u64) -> bool {
    flag == 0x10_0000 || flag == 0x20_0000 || flag == 0x100_0000
}

/// Whether a clone asks for one of them does not change whether it is a fork.
pub proof fn bookkeeping_does_not_matter(
    flags: u64,
    flag: u64,
    child_stack: u64,
    with: bool,
    without: bool,
    asked: bool,
)
    requires
        is_bookkeeping(flag),
        call_ensures(clone_is_fork_like, (flags | flag, child_stack), with),
        call_ensures(clone_is_fork_like, (flags & !flag, child_stack), without),
        call_ensures(clone_is_fork_like, (flags, child_stack), asked),
    ensures
        with == without,
        asked == without,
{
    assert(flag == 0x10_0000 || flag == 0x20_0000 || flag == 0x100_0000 ==> (flags | flag) & 0xff
        == flags & 0xff && (flags & !flag) & 0xff == flags & 0xff && (flags | flag) & !(0xffu64
        | 0x130_0000) == flags & !(0xffu64 | 0x130_0000) && (flags & !flag) & !(0xffu64
        | 0x130_0000) == flags & !(0xffu64 | 0x130_0000)) by (bit_vector);
}

/// A clone is a fork exactly on the parent's own stack, with the signal of a child that
/// ended, and with nothing but any of the bookkeeping flags.
pub proof fn forks_ask_for_nothing_else(
    flags: u64,
    child_stack: u64,
    parent_settid: bool,
    child_cleartid: bool,
    child_settid: bool,
    result: bool,
)
    requires
        call_ensures(clone_is_fork_like, (flags, child_stack), result),
    ensures
        flags == 17 + (if parent_settid {
            0x10_0000int
        } else {
            0
        }) + (if child_cleartid {
            0x20_0000int
        } else {
            0
        }) + (if child_settid {
            0x100_0000int
        } else {
            0
        }) ==> result == (child_stack == 0),
        child_stack != 0 ==> !result,
        flags % 0x100 != 17 ==> !result,
        flags / 0x200_0000 != 0 ==> !result,
        flags / 0x100 % 0x1000 != 0 ==> !result,
        flags / 0x40_0000 % 4 != 0 ==> !result,
{
    assert(flags & 0xff == flags % 0x100) by (bit_vector);
    assert(flags & !(0xffu64 | 0x130_0000) == 0 ==> flags / 0x200_0000 == 0 && flags / 0x100
        % 0x1000 == 0 && flags / 0x40_0000 % 4 == 0) by (bit_vector);
    assert(flags / 0x200_0000 == 0 && flags / 0x100 % 0x1000 == 0 && flags / 0x40_0000 % 4 == 0
        ==> flags & !(0xffu64 | 0x130_0000) == 0) by (bit_vector);
}

// ---------------------------------------------------------------------------
// Calls of the guest
// ---------------------------------------------------------------------------

/// No call replaces the process: both forms are refused as unsupported, and traced unless a
/// tool handles calls.
pub proof fn processes_are_never_replaced(
    mode: u8,
    has_cookie: bool,
    number: i64,
    args: [u64; 6],
    control: Option<i64>,
    event_fd: i32,
    protected: &[i32],
    route: ProcessRoute,
)
    requires
        number == 59 || number == 322,
        call_ensures(
            process_syscall,
            (mode, has_cookie, number, &args, control, event_fd, protected),
            route,
        ),
    ensures
        route matches ProcessRoute::Refuse { result, trace } && result == -95 && trace == (mode
            != 3),
{
}

/// A tool gets every call but those that would take control from the runtime, which get
/// their refusal, and only a tool gets any.
pub proof fn tools_get_every_controlled_call(
    mode: u8,
    has_cookie: bool,
    number: i64,
    args: [u64; 6],
    control: Option<i64>,
    event_fd: i32,
    protected: &[i32],
    route: ProcessRoute,
)
    requires
        call_ensures(
            process_syscall,
            (mode, has_cookie, number, &args, control, event_fd, protected),
            route,
        ),
    ensures
        route is Tool <==> mode == 3 && number != 59 && number != 322 && control is None,
        mode == 3 && number != 59 && number != 322 ==> (control matches Some(refusal) ==> (route
            matches ProcessRoute::Refuse { result, trace } && result == refusal && !trace)),
        mode != 3 ==> (route matches ProcessRoute::Refuse { trace, .. } ==> trace),
{
}

/// Where events are written on a channel, a call that names the channel in any operand, or
/// closes it, does not reach the kernel as it is; without a cookie, and for any other tool,
/// there is no such channel.
pub proof fn forwarded_calls_leave_the_channel_alone(
    mode: u8,
    has_cookie: bool,
    number: i64,
    args: [u64; 6],
    control: Option<i64>,
    event_fd: i32,
    protected: &[i32],
    route: ProcessRoute,
    place: int,
)
    requires
        event_fd >= 0,
        call_ensures(
            process_syscall,
            (mode, has_cookie, number, &args, control, event_fd, protected),
            route,
        ),
    ensures
        ({
            let touched = stands_at(number, args@, place, event_fd as int) || (number == 3
                && args@[0] == event_fd) || (number == 436 && args@[0] <= event_fd <= args@[1]);
            &&& mode == 2 && has_cookie && touched ==> route is Channel
            &&& route is Channel ==> mode == 2 && has_cookie
            &&& route matches ProcessRoute::Channel(protection) ==> !(protection is Pass)
            &&& mode == 2 && has_cookie && stands_at(number, args@, place, event_fd as int) ==> (
            route matches ProcessRoute::Channel(protection) && protection == Protection::Answer(
                (-9) as i64,
            ))
        }),
{
    operands_are_targets(number, args@, event_fd as u64);
}

/// Outside tools a clone is forwarded exactly where it is a fork; any other is refused, as
/// forbidden where calls are traced and as unsupported elsewhere.
pub proof fn only_forks_are_forwarded(
    mode: u8,
    number: i64,
    args: [u64; 6],
    control: Option<i64>,
    event_fd: i32,
    protected: &[i32],
    fork: bool,
    route: ProcessRoute,
)
    requires
        number == 56,
        mode != 3,
        call_ensures(clone_is_fork_like, (args@[0], args@[1]), fork),
        call_ensures(
            process_syscall,
            (mode, false, number, &args, control, event_fd, protected),
            route,
        ),
    ensures
        route is Forward <==> fork,
        !fork ==> (route matches ProcessRoute::Refuse { result, trace } && trace && result == (
        if mode == 2 {
            -1int
        } else {
            -95
        })),
        fork ==> (route matches ProcessRoute::Forward { trace_before, trace_after } && trace_before
            == (mode == 2) && trace_after != trace_before),
{
}

/// A traced process stays in its session and its namespaces.
pub proof fn sessions_are_kept(
    mode: u8,
    number: i64,
    args: [u64; 6],
    control: Option<i64>,
    event_fd: i32,
    protected: &[i32],
    route: ProcessRoute,
)
    requires
        number == 109 || number == 112 || number == 272 || number == 308,
        call_ensures(
            process_syscall,
            (mode, false, number, &args, control, event_fd, protected),
            route,
        ),
    ensures
        mode == 2 ==> (route matches ProcessRoute::Refuse { result, trace } && result == -1
            && trace),
        mode != 2 && mode != 3 ==> (route matches ProcessRoute::Forward {
            trace_before,
            trace_after,
        } && !trace_before && trace_after),
{
}

/// Any other call is forwarded, and traced once: before it is made where it may not return
/// or returns twice, else after it.
pub proof fn ordinary_calls_are_forwarded(
    mode: u8,
    number: i64,
    args: [u64; 6],
    control: Option<i64>,
    event_fd: i32,
    protected: &[i32],
    route: ProcessRoute,
)
    requires
        mode != 3,
        number != 59 && number != 322 && number != 56,
        number != 109 && number != 112 && number != 272 && number != 308,
        call_ensures(
            process_syscall,
            (mode, false, number, &args, control, event_fd, protected),
            route,
        ),
    ensures
        route matches ProcessRoute::Forward { trace_before, trace_after } && trace_before == (number
            == 60 || number == 231 || (mode == 2 && number == 57)) && trace_after != trace_before,
{
}

/// Only the child of a fork sees a zero.
pub proof fn children_return_zero(fork_like: bool, result: i64, in_child: bool)
    requires
        call_ensures(returned_in_child, (fork_like, result), in_child),
    ensures
        in_child <==> fork_like && result == 0,
{
}

/// Control stays with the runtime: no fork where forks are not allowed, no other signal
/// stack, no other mask, and no signal action that is not supported.
pub proof fn control_stays_with_the_runtime(
    number: i64,
    args: [u64; 6],
    fork_like: bool,
    forks_allowed: bool,
    supported: bool,
    refusal: Option<i64>,
)
    requires
        call_ensures(
            protect_runtime_control,
            (number, &args, fork_like, forks_allowed, supported),
            refusal,
        ),
    ensures
        refusal is None <==> (fork_like ==> forks_allowed) && supported && (number == 131
            ==> args@[0] == 0) && (number == 14 ==> args@[1] == 0),
        refusal matches Some(result) ==> result == (if fork_like && !forks_allowed {
            -95int
        } else {
            -1
        }),
{
}

// ---------------------------------------------------------------------------
// Calls of a tool
// ---------------------------------------------------------------------------

/// A tool makes calls only while it handles one; then its own channel is free, processes
/// and signals are not.
pub proof fn tools_call_only_in_callbacks(
    route: NestedRoute,
    memory: Memory,
    callback_active: bool,
    channel: TrustedChannel,
    circumstances: Circumstances,
    number: i64,
    args: Seq<u64>,
    protected: Seq<i32>,
)
    requires
        is_nested_route(
            route,
            memory,
            callback_active,
            channel,
            circumstances,
            number,
            args,
            protected,
        ),
    ensures
        !callback_active ==> (route matches NestedRoute::Answer(result) && result == -1),
        route == NestedRoute::Raw <==> callback_active && is_channel_io(
            channel,
            number,
            args[0] as i32,
        ),
        callback_active && route != NestedRoute::Raw && (number == 56 || number == 57 || number
            == 58 || number == 59 || number == 322 || number == 435) ==> (route
            matches NestedRoute::Answer(result) && result == -95),
        callback_active && route != NestedRoute::Raw && (number == 13 || number == 14 || number
            == 131 || number == 130 || number == 270 || number == 271 || number == 281 || number
            == 441 || number == 333) ==> (route matches NestedRoute::Answer(result) && result
            == -1),
        circumstances.fork_like && !circumstances.forks_allowed ==> route is Answer || route
            == NestedRoute::Raw,
{
}

/// A tool's call that goes on guarded holds no protected descriptor in any operand.
pub proof fn guarded_calls_of_tools_hold_nothing_protected(
    memory: Memory,
    channel: TrustedChannel,
    circumstances: Circumstances,
    number: i64,
    args: Seq<u64>,
    protected: Seq<i32>,
    fd: i32,
    place: int,
)
    requires
        is_nested_route(
            NestedRoute::Guarded,
            memory,
            true,
            channel,
            circumstances,
            number,
            args,
            protected,
        ),
        fd >= 0,
        protected.contains(fd),
    ensures
        !stands_at(number, args, place, fd as int),
        !(number == 3 && args[0] as int % 0x1_0000_0000 == fd),
        !(number == 436 && args[0] as int % 0x1_0000_0000 <= fd <= args[1] as int % 0x1_0000_0000),
        indirect_outcome(memory, number, args, protected) is None,
{
    operands_are_targets(number, args, fd as u64);
    let index = choose|index: int| 0 <= index < protected.len() && protected[index] == fd;
    passing_calls_touch_nothing(number, args, protected, index);
}

proof fn operands_are_targets(number: i64, args: Seq<u64>, fd: u64)
    ensures
        forall|place: int| #[trigger] stands_at(number, args, place, fd as int) ==> targets(
            number,
            args,
            fd,
        ) && number != 3 && number != 436,
{
}

/// What reaches the kernel guarded holds no protected descriptor, and differs from what was
/// asked for only in the length of a batch and in directories that are protected.
pub proof fn guarded_calls_are_cleared_of_the_protected(
    submitted: [u64; 6],
    memory: Memory,
    number: i64,
    args: Seq<u64>,
    protected: Seq<i32>,
    directories: Seq<i32>,
    fd: i32,
    place: int,
)
    requires
        args.len() == 6,
        0 <= place < 6,
        is_guarded_route(
            GuardedRoute::Forward(submitted),
            memory,
            number,
            args,
            protected,
            directories,
        ),
    ensures
        fd >= 0 && protected.contains(fd) ==> !stands_at(number, args, place, fd as int),
        !holds_directory(number, place) && !(number == 307 && place == 2) && !(number == 209
            && place == 1) ==> submitted@[place] == args[place],
        holds_directory(number, place) ==> submitted@[place] == (if args[place] as i32 >= 0
            && directories.contains(args[place] as i32) {
            u64::MAX
        } else {
            args[place]
        }),
        batch_extent(number, args) is Some ==> submitted@[(batch_extent(number, args)->0).0]
            <= args[(batch_extent(number, args)->0).0],
{
    if fd >= 0 && protected.contains(fd) {
        operands_are_targets(number, args, fd as u64);
        let index = choose|index: int| 0 <= index < protected.len() && protected[index] == fd;
        passing_calls_touch_nothing(number, args, protected, index);
    }
    if batch_extent(number, args) is Some {
        let (at, count) = batch_extent(number, args)->0;
        batches_are_only_cut(memory, number, args, at, 0, count, protected);
    }
}

proof fn batches_are_only_cut(
    memory: Memory,
    number: i64,
    args: Seq<u64>,
    place: int,
    index: u64,
    count: u64,
    protected: Seq<i32>,
)
    requires
        args.len() == 6,
        0 <= place < 6,
        count <= args[place],
    ensures
        batch_from(memory, number, args, place, index, count, protected)
            matches BatchModel::Forward(kept) ==> kept.len() == 6 && kept[place] <= args[place]
            && (forall|i: int| 0 <= i < 6 && i != place ==> #[trigger] kept[i] == args[i]),
    decreases count - index,
{
    if index < count {
        batches_are_only_cut(memory, number, args, place, (index + 1) as u64, count, protected);
    }
}

// ---------------------------------------------------------------------------
// Events
// ---------------------------------------------------------------------------

/// An event holds the call as its registers hold it: the number, the six arguments in their
/// order, and the address; it has no result yet.
pub proof fn events_hold_the_registers(
    context: HookContext,
    number: Option<i64>,
    binding: Option<Binding>,
    pointer: usize,
    event: SyscallEvent,
    answer: Option<i64>,
)
    requires
        call_ensures(context_event, (&context, number, binding, pointer), event),
        call_ensures(set_result, (event.result,), answer),
    ensures
        number is Some ==> Some(event.number) == number,
        number is None ==> event.number == context.rax as i64,
        event.args@[0] == context.rdi,
        event.args@[1] == context.rsi,
        event.args@[2] == context.rdx,
        event.args@[3] == context.r10,
        event.args@[4] == context.r8,
        event.args@[5] == context.r9,
        event.instruction_pointer == context.instruction_pointer,
        event.owned_binding == binding,
        event.exit is None,
        event.context == pointer,
        answer is None,
{
}

/// Every result but the mark of a missing one is an answer, and is kept; a missing one says
/// that there is no such call.
pub proof fn answers_are_kept(result: i64, answer: Option<i64>, settled: i64)
    requires
        call_ensures(set_result, (result,), answer),
        call_ensures(settled_result, (result,), settled),
    ensures
        answer is None <==> result == i64::MIN,
        answer is Some ==> answer == Some(result) && settled == result,
        answer is None ==> settled == -38,
{
}

/// A completed call leaves its result, and in the two registers that the instruction
/// overwrites the address behind it and the flags; no other register changes.
pub proof fn completions_change_three_registers(context: &mut HookContext, result: i64)
    requires
        call_ensures(complete_context, (context, result), ()),
    ensures
        final(context).rax as i64 == result,
        final(context).r11 == old(context).rflags,
        old(context).instruction_pointer + 2 <= u64::MAX ==> final(context).rcx
            == old(context).instruction_pointer + 2,
        final(context).rcx >= old(context).instruction_pointer,
        *final(context) == (HookContext {
            rax: final(context).rax,
            rcx: final(context).rcx,
            r11: final(context).r11,
            ..*old(context)
        }),
{
    assert(result as u64 as i64 == result) by (bit_vector);
}

/// An owned call ends in a result or in an exit, never in both and never in neither.
pub proof fn owned_calls_end_once(
    event: SyscallEvent,
    outcome: Result<Outcome, BrokenCallback>,
)
    requires
        call_ensures(owned_outcome, (event,), outcome),
    ensures
        outcome matches Ok(Outcome::Returned(value)) ==> event.exit is None && value == event.result
            && event.result != i64::MIN,
        outcome matches Ok(Outcome::Exit(request)) ==> event.exit == Some(request) && event.result
            == i64::MIN && event.owned_binding is None,
        event.exit is None && event.result != i64::MIN ==> outcome is Ok,
        event.exit is Some && event.result == i64::MIN && event.owned_binding is None ==> outcome
            is Ok,
        event.exit is None && event.result == i64::MIN ==> outcome == Err::<
            Outcome,
            BrokenCallback,
        >(BrokenCallback::Unset),
        event.exit is Some && (event.result != i64::MIN || event.owned_binding is Some) ==> outcome
            == Err::<Outcome, BrokenCallback>(BrokenCallback::Exit),
{
}

// ---------------------------------------------------------------------------
// Callbacks
// ---------------------------------------------------------------------------

/// A callback is active exactly inside its scope, and the scope puts back what it found,
/// without touching the event.
pub proof fn callback_scopes_put_back_what_they_found(
    callbacks: &mut Callbacks,
    inside: &mut Callbacks,
    guard: ToolCallbackGuard,
    active: bool,
    nested: bool,
)
    requires
        call_ensures(ToolCallbackGuard::enter, (callbacks,), guard),
        call_ensures(tool_callback_active, (&*final(callbacks),), active),
        call_ensures(nested_tool_callback, (&*final(callbacks),), nested),
        *old(inside) == *final(callbacks),
        call_ensures(ToolCallbackGuard::leave, (guard, inside), ()),
    ensures
        active,
        nested,
        final(callbacks).event == old(callbacks).event,
        *final(inside) == *old(callbacks),
{
}

/// The event of a scope is its own while it lasts, and the outer one's again after it.
pub proof fn event_scopes_put_back_what_they_found(
    callbacks: &mut Callbacks,
    inside: &mut Callbacks,
    event: usize,
    guard: CurrentEventGuard,
)
    requires
        call_ensures(CurrentEventGuard::enter, (callbacks, event), guard),
        *old(inside) == *final(callbacks),
        call_ensures(CurrentEventGuard::leave, (guard, inside), ()),
    ensures
        final(callbacks).event == event,
        final(callbacks).active == old(callbacks).active,
        *final(inside) == *old(callbacks),
{
}

/// Between callbacks, at a stopped clock and with nothing handed over, a tool may be asked
/// about progress; at a stopped clock, for its random state.
pub proof fn tools_are_asked_at_a_stopped_clock(
    boundary: Boundary,
    callbacks: Callbacks,
    handoff_clear: bool,
    progress: bool,
    snapshot: bool,
)
    requires
        call_ensures(
            guest_progress_allowed,
            (boundary, &callbacks, handoff_clear),
            progress,
        ),
        call_ensures(rng_snapshot_allowed, (boundary,), snapshot),
    ensures
        snapshot <==> boundary == Boundary::Paused,
        progress <==> snapshot && !callbacks.active && callbacks.event == 0 && handoff_clear,
{
}

// ---------------------------------------------------------------------------
// Trapped calls
// ---------------------------------------------------------------------------

/// A trapped call of a tool goes back to it. Without patching only user dispatch with a mask
/// is handled, and anything else ends the process. With patching a site is claimed, but for
/// the calls that fork or wait where no tool handles them.
pub proof fn trapped_calls_are_routed(
    dispatcher: LiteinstDispatcher,
    modes: &mut ModeState,
    callback_active: bool,
    user_dispatch: bool,
    mask: Option<u64>,
    mode: u8,
    number: i64,
    args: [u64; 6],
    fork: bool,
    routed: (Path, DispatchRoute),
)
    requires
        call_ensures(clone_is_fork_like, (args@[0], args@[1]), fork),
        call_ensures(
            LiteinstDispatcher::dispatch,
            (&dispatcher, modes, callback_active, user_dispatch, mask, mode, number, &args),
            routed,
        ),
    ensures
        routed.1 is Nested <==> callback_active,
        routed.0 == Path::NestedSigsys <==> callback_active,
        routed.0 == Path::NestedSigsys || routed.0 == Path::Sigsys,
        !callback_active && old(modes).sud_only ==> {
            &&& user_dispatch && mask is Some ==> (routed.1 matches DispatchRoute::Masked(kept)
                && mask == Some(kept))
            &&& !user_dispatch ==> routed.1 == DispatchRoute::Exit(126)
            &&& user_dispatch && mask is None ==> routed.1 == DispatchRoute::Exit(125)
        },
        !callback_active && !old(modes).sud_only ==> {
            &&& routed.1 is Process <==> mode != 3 && ((number == 56 && fork) || number == 61)
            &&& routed.1 is Site <==> !(routed.1 is Process)
        },
        final(modes).sud_only == old(modes).sud_only,
        !user_dispatch ==> *final(modes) == *old(modes),
        user_dispatch ==> (final(modes).stats.validated_sud - old(modes).stats.validated_sud - 1)
            % 0x1_0000_0000_0000_0000 == 0,
        final(modes).stats == (SyscallModeStats {
            validated_sud: final(modes).stats.validated_sud,
            ..old(modes).stats
        }),
{
}

/// A deferred call goes on at the entry that was prepared and is counted; without one the
/// process ends and nothing is counted.
pub proof fn deferred_calls_go_on_at_their_entry(
    modes: &mut ModeState,
    entry: Option<u64>,
    result: Result<u64, i32>,
)
    requires
        call_ensures(masked_entry, (modes, entry), result),
    ensures
        result is Ok <==> entry is Some,
        result matches Ok(address) ==> entry == Some(address) && (
        final(modes).stats.deferred_sud - old(modes).stats.deferred_sud - 1)
            % 0x1_0000_0000_0000_0000 == 0,
        result is Err ==> result == Err::<u64, i32>(125i32) && *final(modes) == *old(modes),
        *final(modes) == (ModeState {
            stats: SyscallModeStats {
                deferred_sud: final(modes).stats.deferred_sud,
                ..old(modes).stats
            },
            ..*old(modes)
        }),
{
}

/// A trapped call goes on at a trampoline exactly where its site is active and has one.
pub proof fn active_sites_have_an_entry(
    site: Option<(SiteState, u64)>,
    entry: Option<u64>,
)
    requires
        call_ensures(patched_entry, (site,), entry),
    ensures
        entry matches Some(hook) ==> site == Some((SiteState::Active, hook)) && hook != 0,
        (site matches Some((state, hook)) && state == SiteState::Active && hook != 0) ==> entry
            is Some,
{
}

/// Only a tool has a fallback entry; anyone else learns that the call is unsupported.
pub proof fn fallbacks_are_for_tools(mode: u8, entry: Option<u64>, result: Result<u64, i32>)
    requires
        call_ensures(fallback_entry, (mode, entry), result),
    ensures
        result is Ok <==> mode == 3 && entry is Some,
        result matches Ok(address) ==> entry == Some(address),
        result is Err ==> result == Err::<u64, i32>(95i32),
{
}

/// A trapped site is claimed and its trap counted: whoever claims it installs it, anyone
/// else waits, and a full table changes nothing.
pub proof fn traps_are_counted_at_their_site(
    table: &mut SiteTable,
    address: u64,
    step: SiteStep,
)
    requires
        address != 0,
        call_ensures(trap_site, (table, address), step),
    ensures
        step matches SiteStep::Install(slot) ==> final(table)@[slot as int].address == address
            && final(table)@[slot as int].state == SiteState::Installing,
        step matches SiteStep::Settle(slot) ==> final(table)@[slot as int].address == address,
        step matches SiteStep::Settle(slot) ==> {
            let before = old(table)@[slot as int];
            let after = final(table)@[slot as int];
            &&& before.trap_count < u64::MAX ==> after.trap_count == before.trap_count + 1
            &&& after == (Site { trap_count: after.trap_count, ..before })
        },
        step == SiteStep::Full ==> final(table)@ == old(table)@,
        final(table)@.len() == old(table)@.len(),
{
    claims_take_one_slot(old(table)@, address);
}

// ---------------------------------------------------------------------------
// The event channel
// ---------------------------------------------------------------------------

/// An event that was written whole is done; one that found no room, or was interrupted, is
/// tried again, twenty times; anything else ends the process.
pub proof fn events_are_written_whole_or_not_at_all(
    attempt: u32,
    written: i64,
    length: usize,
    step: WriteStep,
)
    requires
        call_ensures(write_compatibility_event, (attempt, written, length), step),
    ensures
        step == WriteStep::Done <==> written == length,
        step == WriteStep::Wait <==> (written == -11 || written == -4) && attempt < 20,
        step matches WriteStep::Fail(status) ==> status == 121,
{
}

/// Only the compatibility tool traces calls, and only a channel with a cookie is checked.
pub proof fn only_the_compatibility_tool_traces(
    mode: u8,
    cookie: u64,
    pid: i64,
    number: i64,
    trace: Option<Trace>,
)
    requires
        call_ensures(trace_event, (mode, cookie, pid, number), trace),
    ensures
        trace is Some <==> mode == 2,
        trace matches Some(trace) ==> (trace.checked <==> cookie != 0),
{
}

/// The event channel is the file that it was: same device, same number, and it could be
/// asked.
pub proof fn channels_are_known_by_their_file(
    result: i64,
    observed: (u64, u64),
    expected: (u64, u64),
    intact: bool,
)
    requires
        call_ensures(compatibility_event_channel_is_intact, (result, observed, expected), intact),
    ensures
        intact <==> result == 0 && observed.0 == expected.0 && observed.1 == expected.1,
{
}

/// A stage marker is written whole, or the process ends.
pub proof fn stages_are_written_whole(written: i64, length: usize, result: Result<(), i32>)
    requires
        call_ensures(stage_is_written, (written, length), result),
    ensures
        result is Ok <==> written == length,
        result is Err ==> result == Err::<(), i32>(123i32),
{
}

/// A failure is reported by its number where it has one.
pub proof fn failures_are_reported_by_number(
    errno: Option<i32>,
    kind: i64,
    detail: (&'static str, i64),
)
    requires
        call_ensures(failure_detail, (errno, kind), detail),
    ensures
        errno matches Some(errno) ==> detail.1 == errno,
        errno is None ==> detail.1 == kind,
{
}

/// Fallbacks are classified only while statistics are kept, and by their site: one whose
/// instruction straddles another is told apart from every other.
pub proof fn fallbacks_are_classified_by_their_site(
    dispatcher: LiteinstDispatcher,
    enabled: bool,
    publication: PatchPublication,
    table: SiteTable,
    address: u64,
    slot: int,
    path: Option<Path>,
    kept: Option<Path>,
    unkept: Option<Path>,
)
    requires
        well_formed(table@),
        address != 0,
        0 <= slot < table@.len(),
        call_ensures(LiteinstDispatcher::new, (enabled, publication), dispatcher),
        call_ensures(
            LiteinstDispatcher::record_fallback_stats,
            (&dispatcher, &table, address),
            path,
        ),
        call_ensures(record_enabled_fallback_stats, (&table, address), kept),
        call_ensures(record_disabled_fallback_stats, (), unkept),
    ensures
        dispatcher.publication == publication,
        unkept is None,
        enabled ==> path == kept,
        !enabled ==> path is None,
        kept == Some(Path::StraddlerFallback) || kept == Some(Path::OtherFallback),
        table@[slot].address == address ==> (kept == Some(Path::StraddlerFallback)
            <==> table@[slot].straddle_prefix != 0),
        (forall|i: int| 0 <= i < table@.len() ==> (#[trigger] table@[i]).address != address)
            ==> kept == Some(Path::OtherFallback),
{
    match_is_inside(table@, address, 0);
    if table@[slot].address == address {
        assert(lookup(table@, address) == Some(slot));
    }
}

/// A guarded call with a protected descriptor among its operands never reaches the kernel as it
/// is.
pub proof fn guarded_calls_keep_protected_operands_out(
    route: GuardedRoute,
    memory: Memory,
    number: i64,
    args: Seq<u64>,
    protected: Seq<i32>,
    directories: Seq<i32>,
    fd: i32,
    place: int,
)
    requires
        is_guarded_route(route, memory, number, args, protected, directories),
        fd >= 0,
        protected.contains(fd),
        stands_at(number, args, place, fd as int),
    ensures
        route matches GuardedRoute::Protect(protection) && !(protection is Pass),
{
    operands_are_targets(number, args, fd as u64);
    let index = choose|index: int| 0 <= index < protected.len() && protected[index] == fd;
    if !(route is Protect) {
        passing_calls_touch_nothing(number, args, protected, index);
    }
}

proof fn refused_batches_are_emptied(
    memory: Memory,
    number: i64,
    args: Seq<u64>,
    place: int,
    index: u64,
    count: u64,
    protected: Seq<i32>,
    probe: Seq<u64>,
)
    requires
        batch_from(memory, number, args, place, index, count, protected) == BatchModel::Validate(
            probe,
        ),
    ensures
        probe == args.update(place, 0),
    decreases count - index,
{
    if index < count && entry_result(memory, number, args, index, protected) is Ok {
        refused_batches_are_emptied(
            memory,
            number,
            args,
            place,
            (index + 1) as u64,
            count,
            protected,
            probe,
        );
    }
}

/// Only a batch is put to the kernel for validation: with no entries, and otherwise as it was
/// asked for.
pub proof fn validated_batches_ask_for_nothing(
    probe: [u64; 6],
    memory: Memory,
    number: i64,
    args: Seq<u64>,
    protected: Seq<i32>,
    directories: Seq<i32>,
    place: int,
)
    requires
        args.len() == 6,
        0 <= place < 6,
        is_guarded_route(
            GuardedRoute::Validate(probe),
            memory,
            number,
            args,
            protected,
            directories,
        ),
    ensures
        number == 307 || number == 209,
        probe@[place] == if place == (if number == 307 {
            2int
        } else {
            1
        }) {
            0
        } else {
            args[place]
        },
{
    let (at, count) = batch_extent(number, args)->0;
    refused_batches_are_emptied(memory, number, args, at, 0, count, protected, probe@);
}

} // verus!

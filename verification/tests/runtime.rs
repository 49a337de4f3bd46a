//! The runtime's own state: its environment, counters, callbacks and call routes.

use liteinst_runtime::registers::HookContext;
use liteinst_runtime::rpc::TrustedChannel;
use liteinst_runtime::runtime::clock::Boundary;
use liteinst_runtime::runtime::clock::ClockError;
use liteinst_runtime::runtime::clock::Creation;
use liteinst_runtime::runtime::clock::RcbClock;
use liteinst_runtime::runtime::descriptors::Protection;
use liteinst_runtime::runtime::dispatch::clone_is_fork_like;
use liteinst_runtime::runtime::dispatch::compatibility_event_channel_is_intact;
use liteinst_runtime::runtime::dispatch::complete_context;
use liteinst_runtime::runtime::dispatch::context_event;
use liteinst_runtime::runtime::dispatch::failure_detail;
use liteinst_runtime::runtime::dispatch::fallback_entry;
use liteinst_runtime::runtime::dispatch::forward_nested_tool_syscall;
use liteinst_runtime::runtime::dispatch::guard_syscall;
use liteinst_runtime::runtime::dispatch::guest_progress_allowed;
use liteinst_runtime::runtime::dispatch::masked_entry;
use liteinst_runtime::runtime::dispatch::nested_tool_callback;
use liteinst_runtime::runtime::dispatch::patched_entry;
use liteinst_runtime::runtime::dispatch::process_syscall;
use liteinst_runtime::runtime::dispatch::protect_runtime_control;
use liteinst_runtime::runtime::dispatch::returned_in_child;
use liteinst_runtime::runtime::dispatch::rng_snapshot_allowed;
use liteinst_runtime::runtime::dispatch::settled_result;
use liteinst_runtime::runtime::dispatch::stage_is_written;
use liteinst_runtime::runtime::dispatch::tool_callback_active;
use liteinst_runtime::runtime::dispatch::set_result;
use liteinst_runtime::runtime::dispatch::trace_event;
use liteinst_runtime::runtime::dispatch::trap_site;
use liteinst_runtime::runtime::dispatch::write_compatibility_event;
use liteinst_runtime::runtime::dispatch::Callbacks;
use liteinst_runtime::runtime::dispatch::Circumstances;
use liteinst_runtime::runtime::dispatch::CurrentEventGuard;
use liteinst_runtime::runtime::dispatch::DispatchRoute;
use liteinst_runtime::runtime::dispatch::GuardedRoute;
use liteinst_runtime::runtime::dispatch::LiteinstDispatcher;
use liteinst_runtime::runtime::dispatch::NestedRoute;
use liteinst_runtime::runtime::dispatch::Path;
use liteinst_runtime::runtime::dispatch::ProcessRoute;
use liteinst_runtime::runtime::dispatch::SiteStep;
use liteinst_runtime::runtime::dispatch::SyscallEvent;
use liteinst_runtime::runtime::dispatch::ToolCallbackGuard;
use liteinst_runtime::runtime::dispatch::WriteStep;
use liteinst_runtime::runtime::dispatch::TOOL_COMPAT;
use liteinst_runtime::runtime::dispatch::TOOL_REVERIE;
use liteinst_runtime::runtime::dispatch::UNSET_RESULT;
use liteinst_runtime::runtime::environment::alt_stack_from_env_value;
use liteinst_runtime::runtime::environment::alt_stack_suffices;
use liteinst_runtime::runtime::environment::initialize_from_environment;
use liteinst_runtime::runtime::environment::owns_context;
use liteinst_runtime::runtime::environment::process_forks_from_env_value;
use liteinst_runtime::runtime::environment::stage_stream_from_env_value;
use liteinst_runtime::runtime::environment::ALT_STACK_ENV;
use liteinst_runtime::runtime::environment::IN_GUEST_STAGE_STREAM_ENV;
use liteinst_runtime::runtime::environment::PROCESS_FORK_ENV;
use liteinst_runtime::runtime::environment::TOOL_ENV;
use liteinst_runtime::runtime::fallback::fallback_dispatch_count;
use liteinst_runtime::runtime::fallback::fallback_syscall_count;
use liteinst_runtime::runtime::fallback::record_fallback_dispatch;
use liteinst_runtime::runtime::fallback::reset_fallback_observability;
use liteinst_runtime::runtime::fallback::FallbackCounters;
use liteinst_runtime::runtime::install::PatchPublication;
use liteinst_runtime::runtime::instructions::refused_at;
use liteinst_runtime::runtime::instructions::refused_bytes;
use liteinst_runtime::runtime::instructions::InstructionSubscriptions;
use liteinst_runtime::runtime::line::emit_in_guest_stage;
use liteinst_runtime::runtime::line::emit_instruction_refusal_stage;
use liteinst_runtime::runtime::line::StackLine;
use liteinst_runtime::runtime::maps::RuntimeArena;
use liteinst_runtime::runtime::signals::SignalPolicy;
use liteinst_runtime::runtime::sites::site_hash;
use liteinst_runtime::runtime::sites::SiteState;
use liteinst_runtime::runtime::sites::SiteTable;
use liteinst_runtime::runtime::sites::MAX_PATCH_SITES;
use liteinst_runtime::runtime_domain::Domain;
use liteinst_runtime::syscall_mode::ModeState;

/// Memory of which nothing can be read.
fn nothing(_: u64, _: usize) -> Vec<u8> {
    Vec::new()
}

/// A tool's call under the rules that hold without any signal of the runtime.
fn nested(callback_active: bool, number: i64) -> NestedRoute {
    forward_nested_tool_syscall(
        callback_active,
        &TrustedChannel::default(),
        &Circumstances {
            fork_like: false,
            forks_allowed: true,
            signals: SignalPolicy {
                runtime_signals_configured: false,
                trace_configured: false,
                reserved: false,
                subscriptions: 0,
            },
        },
        number,
        &[0; 6],
        &[-1],
        &nothing,
    )
}

// Environment.

#[test]
fn alt_stack_defaults_to_the_shared_default_when_unset() {
    assert!(alt_stack_from_env_value(None).unwrap());
}

#[test]
fn alt_stack_parses_truthy_and_falsy_spellings() {
    for on in ["1", "true", "TRUE", "on", "On", "yes", "  yes  "] {
        assert!(
            alt_stack_from_env_value(Some(on)).unwrap(),
            "{on:?} should parse as alt-stack on"
        );
    }
    for off in ["0", "false", "FALSE", "off", "Off", "no", "  no  "] {
        assert!(
            !alt_stack_from_env_value(Some(off)).unwrap(),
            "{off:?} should parse as alt-stack off"
        );
    }
}

#[test]
fn alt_stack_rejects_unknown_values() {
    for bad in ["maybe", "2", "", "onoff"] {
        assert!(
            alt_stack_from_env_value(Some(bad)).is_err(),
            "{bad:?} must be rejected, not silently defaulted"
        );
    }
}

#[test]
fn alt_stack_env_is_distinct_from_the_other_selectors() {
    assert_eq!(ALT_STACK_ENV, "REVERIE_LITEINST_ALT_STACK");
    assert_ne!(ALT_STACK_ENV, "REVERIE_LITEINST_TOOL");
}

#[test]
fn white_space_is_unicode_and_letters_are_not() {
    assert_eq!(alt_stack_from_env_value(Some("\u{2003}ON\u{85}")), Ok(true));
    let refused = alt_stack_from_env_value(Some("\u{ff4f}n")).unwrap_err();
    assert_eq!(refused.variable, ALT_STACK_ENV);
    assert_eq!(refused.value, "\u{ff4f}n");
}

#[test]
fn switches_are_zero_or_one() {
    assert_eq!(stage_stream_from_env_value(None), Ok(false));
    assert_eq!(stage_stream_from_env_value(Some("0")), Ok(false));
    assert_eq!(stage_stream_from_env_value(Some("1")), Ok(true));
    assert_eq!(
        stage_stream_from_env_value(Some("yes")).unwrap_err().variable,
        IN_GUEST_STAGE_STREAM_ENV
    );
    assert_eq!(process_forks_from_env_value(None, false), Ok(true));
    assert_eq!(process_forks_from_env_value(None, true), Ok(false));
    assert_eq!(process_forks_from_env_value(Some("0"), false), Ok(false));
    assert_eq!(
        process_forks_from_env_value(Some(" 1"), false)
            .unwrap_err()
            .variable,
        PROCESS_FORK_ENV
    );
    assert!(initialize_from_environment(None).is_ok());
    assert_eq!(
        initialize_from_environment(Some("strace"))
            .unwrap_err()
            .variable,
        TOOL_ENV
    );
}

#[test]
fn owned_runtimes_need_the_alternate_stack() {
    let none = InstructionSubscriptions::default();
    let rdtsc = InstructionSubscriptions {
        cpuid: false,
        rdtsc: true,
    };
    assert!(owns_context(true, rdtsc, false));
    assert!(owns_context(true, none, true));
    assert!(!owns_context(true, none, false));
    assert!(!owns_context(false, rdtsc, true));
    assert!(!alt_stack_suffices(true, false));
    assert!(alt_stack_suffices(true, true));
    assert!(alt_stack_suffices(false, false));
}

// Fallback counters.

#[test]
fn recording_a_fallback_bumps_total_and_the_matching_syscall() {
    let mut counters = FallbackCounters::new();
    let number: i64 = 402;

    counters.record(number);

    assert_eq!(counters.by_number(number), 1);
    assert_eq!(counters.total(), 1);
}

#[test]
fn out_of_range_syscall_numbers_count_in_the_total_only() {
    let mut counters = FallbackCounters::new();
    let huge = i64::from(i32::MAX);
    counters.record(huge);
    assert_eq!(counters.by_number(huge), 0);
    assert_eq!(counters.total(), 1);

    counters.record(-1);
    assert_eq!(counters.by_number(-1), 0);
    assert_eq!(counters.total(), 2);
}

#[test]
fn counts_are_those_of_the_calls() {
    let mut counters = FallbackCounters::new();
    for number in [3, 5, 3, 511, 512, -7, 3] {
        counters.record(number);
    }
    assert_eq!(counters.total(), 7);
    for (number, count) in [(3, 3), (5, 1), (511, 1), (512, 0), (-7, 0), (4, 0)] {
        assert_eq!(counters.by_number(number), count);
    }
}

#[test]
fn fallback_counter_reset_zeroes_total_and_per_number_counts() {
    let mut counters = FallbackCounters::new();
    let number: i64 = 404;
    counters.record(number);
    assert_eq!(counters.total(), 1);
    assert_eq!(counters.by_number(number), 1);

    counters.reset();

    assert_eq!(counters.total(), 0);
    assert_eq!(counters.by_number(number), 0);
}

#[test]
fn fork_child_reset_zeroes_per_site_counts_but_preserves_patch_state() {
    let mut table = SiteTable::new(1);
    let address = 0x4321_9000;
    let (site, _) = table.claim_site(address).unwrap();
    table.activate(site, 0x9000);
    for _ in 0..7 {
        table.record_trap(site);
    }
    for _ in 0..11 {
        table.record_fork_child_direct_hook(address);
    }
    assert_eq!(table.site(site).trap_count, 7);
    assert_eq!(table.site(site).hook_count, 11);

    table.reset_site_observability();

    assert_eq!(table.site(site).trap_count, 0);
    assert_eq!(table.site(site).hook_count, 0);
    assert_eq!(table.site(site).address, address);
    assert_eq!(table.site(site).state, SiteState::Active);
}

#[test]
fn fork_hook_runs_the_observability_reset() {
    let mut table = SiteTable::new(MAX_PATCH_SITES);
    let mut counters = FallbackCounters::new();
    let address = 0x7654_3000;
    let (site, claimed) = table.claim_site(address).unwrap();
    assert!(claimed);
    table.activate(site, 0x9000);
    for _ in 0..7 {
        table.record_trap(site);
    }
    for _ in 0..11 {
        table.record_fork_child_direct_hook(address);
    }
    record_fallback_dispatch(&mut counters, 405);
    assert!(fallback_dispatch_count(&counters) > 0);

    reset_fallback_observability(&mut counters, &mut table);

    assert_eq!(fallback_dispatch_count(&counters), 0);
    assert_eq!(table.site(site).trap_count, 0);
    assert_eq!(table.site(site).hook_count, 0);
    assert_eq!(table.site(site).address, address);
    assert_eq!(table.site(site).state, SiteState::Active);
    assert_eq!(fallback_syscall_count(&counters, 405), 0);
}

// Lines.

#[test]
fn stack_line_formats_signed_and_hex_values() {
    let mut line = StackLine::new();
    line.push_signed(-123);
    line.push_bytes(b" ");
    line.push_hex(0xdead_beef);
    assert_eq!(line.as_slice(), b"-123 deadbeef");
}

#[test]
fn numbers_at_their_limits_are_spelled_in_full() {
    let mut line = StackLine::new();
    line.push_signed(i64::MIN);
    line.push_text(" ");
    line.push_unsigned(u64::MAX);
    line.push_text(" ");
    line.push_hex(0);
    line.push_text(" ");
    line.push_hex_byte(0x0a);
    assert_eq!(
        line.as_slice(),
        b"-9223372036854775808 18446744073709551615 0 0a"
    );
}

#[test]
fn full_lines_keep_their_beginning() {
    let mut line = StackLine::new();
    line.push_bytes(&[b'a'; 190]);
    line.push_bytes(b"bcd");
    assert_eq!(line.as_slice().len(), 192);
    assert_eq!(&line.as_slice()[188..], b"aabc");
    line.push_unsigned(7);
    assert_eq!(&line.as_slice()[188..], b"aabc");
}

#[test]
fn reported_lines_are_exact() {
    let trace = trace_event(TOOL_COMPAT, 0x2a, 17, 39).unwrap();
    assert!(trace.checked);
    assert_eq!(
        trace.line.as_slice(),
        b"reverie-liteinst: tool=compat cookie=42 pid=17 syscall=39\n"
    );
    let trace = trace_event(TOOL_COMPAT, 0, 17, 39).unwrap();
    assert!(!trace.checked);
    assert_eq!(
        trace.line.as_slice(),
        b"reverie-liteinst: tool=compat syscall=39\n"
    );
    assert!(trace_event(TOOL_REVERIE, 0x2a, 17, 39).is_none());
    assert!(emit_in_guest_stage(false, 17, 18, b"installed").is_none());
    assert_eq!(
        emit_in_guest_stage(true, 17, 18, b"installed")
            .unwrap()
            .as_slice(),
        b"INFO reverie_liteinst::tool_host: [in-guest pid=17 tid=18] stage=installed\n"
    );
    let arena = RuntimeArena {
        mapping_start: 0x4000,
        mapping_end: 0x5000,
        mapping_name: b"true".to_vec(),
    };
    assert_eq!(refused_bytes(&arena, 0x4010), 8);
    assert_eq!(refused_bytes(&arena, 0x4ffe), 2);
    assert_eq!(refused_bytes(&arena, 0x5001), 0);
    let refusal = refused_at(&arena, 0x4010, 0x20, 0x30, &[0x0f, 0xa2]);
    assert!(emit_instruction_refusal_stage(false, 17, 18, b"deliver", &refusal).is_none());
    let line = emit_instruction_refusal_stage(true, 17, 18, b"deliver", &refusal).unwrap();
    assert_eq!(
        std::str::from_utf8(line.as_slice()).unwrap(),
        "INFO reverie_liteinst::tool_host: [in-guest pid=17 tid=18] stage=deliver \
         rip-offset=0x10 fault=0x20 rsp=0x30 map=true map-len=0x1000 bytes=0f-a2\n"
    );
}

// Sites.

#[test]
fn reused_address_claims_a_new_site_generation() {
    let mut table = SiteTable::new(MAX_PATCH_SITES);
    let address = 0x1234_5000;
    let (site, claimed) = table.claim_site(address).unwrap();
    assert!(claimed);
    assert_eq!(table.site(site).state, SiteState::Installing);
    table.activate(site, 0x9000);

    table.mark_site_range_stale(address - 0x100, 0x200, address + 0x100);
    assert_eq!(table.site(site).state, SiteState::Stale);
    assert_eq!(table.site(site).mapping_end, address + 0x100);

    let (same_site, claimed) = table.claim_site(address).unwrap();
    assert_eq!(site, same_site);
    assert!(claimed);
    assert_eq!(table.site(site).state, SiteState::Installing);
    table.fail(site);
    assert_eq!(table.site(site).state, SiteState::Fallback);
}

#[test]
fn colliding_sites_are_all_found_until_the_table_is_full() {
    let mut table = SiteTable::new(4);
    let addresses = [0x1000, 0x2000, 0x3000, 0x4001];
    for address in addresses {
        assert!(table.claim_site(address).unwrap().1);
    }
    for address in addresses {
        let slot = table.find_site(address).unwrap();
        assert_eq!(table.site(slot).address, address);
        assert_eq!(table.claim_site(address), Some((slot, false)));
    }
    assert_eq!(table.find_site(0x5000), None);
    assert_eq!(table.claim_site(0x5000), None);
    assert_eq!(trap_site(&mut table, 0x5000), SiteStep::Full);
    assert_eq!(SiteTable::new(0).claim_site(0x1000), None);
}

#[test]
fn sites_start_where_their_hash_points() {
    let address: u64 = 0x1234_5000;
    let expected = (address >> 1).wrapping_mul(0x9e37_79b9_7f4a_7c15) as usize % 4096;
    assert_eq!(site_hash(address, MAX_PATCH_SITES), expected);
    let mut table = SiteTable::new(MAX_PATCH_SITES);
    assert_eq!(table.claim_site(address), Some((expected, true)));
}

#[test]
fn mapping_changes_make_their_sites_stale() {
    let sites = |table: &SiteTable| {
        [0x1000_u64, 0x2000, 0x3000].map(|a| table.site(table.find_site(a).unwrap()))
    };
    let fresh = || {
        let mut table = SiteTable::new(64);
        for address in [0x1000_u64, 0x2000, 0x3000] {
            let (slot, _) = table.claim_site(address).unwrap();
            table.activate(slot, 0x9000);
        }
        table
    };
    let states = |table: &SiteTable| sites(table).map(|site| site.state);
    let ends = |table: &SiteTable| sites(table).map(|site| site.mapping_end);

    let mut table = fresh();
    table.observe_mapping_generation(libc::SYS_mmap, &[0, 0x1000, 0, 0, 0, 0], 0x2000);
    assert_eq!(
        states(&table),
        [SiteState::Active, SiteState::Stale, SiteState::Active]
    );
    assert_eq!(ends(&table), [0, 0x3000, 0]);

    let mut table = fresh();
    table.observe_mapping_generation(libc::SYS_munmap, &[0x1000, 0x2000, 0, 0, 0, 0], 0);
    assert_eq!(
        states(&table),
        [SiteState::Stale, SiteState::Stale, SiteState::Active]
    );

    let mut table = fresh();
    table.observe_mapping_generation(
        libc::SYS_mremap,
        &[0x1000, 0x1000, 0x800, 0, 0, 0],
        0x3000,
    );
    assert_eq!(
        states(&table),
        [SiteState::Stale, SiteState::Active, SiteState::Stale]
    );
    assert_eq!(ends(&table), [0, 0, 0x3800]);

    let mut table = fresh();
    table.observe_mapping_generation(libc::SYS_mmap, &[0, 0x1000, 0, 0, 0, 0], -1);
    table.observe_mapping_generation(libc::SYS_mprotect, &[0x1000, 0x2000, 0, 0, 0, 0], 0);
    assert_eq!(states(&table), [SiteState::Active; 3]);
}

#[test]
fn statistics_list_the_sites_that_were_reached() {
    let mut table = SiteTable::new(64);
    let (slot, _) = table.claim_site(0x1000).unwrap();
    table.claim_site(0x2000).unwrap();
    table.record_code(slot, 2, 3);
    table.record_trap(slot);
    table.activate(slot, 0x9000);
    table.record_fork_child_direct_hook(0x1000);
    table.record_fork_child_direct_hook(0x7000);
    assert_eq!(table.site_counts(0x1000), (1, 1));
    assert_eq!(table.site_counts(0x7000), (0, 0));
    let (hooks, sites) = table.submit_process_stats();
    assert_eq!(hooks, 1);
    assert_eq!(sites.len(), 1);
    assert_eq!(
        (
            sites[0].rip,
            sites[0].patched,
            sites[0].instruction_length,
            sites[0].straddle_after
        ),
        (0x1000, true, 2, 3)
    );
}

#[test]
fn only_the_first_trap_installs() {
    let mut table = SiteTable::new(64);
    let SiteStep::Install(slot) = trap_site(&mut table, 0x1000) else {
        panic!("the first trap claims the site");
    };
    assert_eq!(trap_site(&mut table, 0x1000), SiteStep::Settle(slot));
    assert_eq!(table.site(slot).trap_count, 2);
    assert_eq!(patched_entry(Some((SiteState::Active, 0x9000))), Some(0x9000));
    assert_eq!(patched_entry(Some((SiteState::Active, 0))), None);
    assert_eq!(patched_entry(Some((SiteState::Fallback, 0x9000))), None);
    assert_eq!(patched_entry(None), None);
}

// Dispatch.

#[test]
fn disabled_dispatch_does_not_classify_fallback_sites() {
    let table = SiteTable::new(MAX_PATCH_SITES);
    let dispatcher = LiteinstDispatcher::new(false, PatchPublication::Concurrent);
    assert_eq!(dispatcher.record_fallback_stats(&table, 0xdead_beef), None);
}

#[test]
fn enabled_dispatch_tells_straddlers_apart() {
    let mut table = SiteTable::new(64);
    let dispatcher = LiteinstDispatcher::new(true, PatchPublication::Concurrent);
    let (slot, _) = table.claim_site(0x1000).unwrap();
    table.record_code(slot, 2, 1);
    table.claim_site(0x2000).unwrap();
    assert_eq!(
        dispatcher.record_fallback_stats(&table, 0x1000),
        Some(Path::StraddlerFallback)
    );
    assert_eq!(
        dispatcher.record_fallback_stats(&table, 0x2000),
        Some(Path::OtherFallback)
    );
    assert_eq!(
        dispatcher.record_fallback_stats(&table, 0xdead_beef),
        Some(Path::OtherFallback)
    );
}

#[test]
fn trapped_calls_take_one_route() {
    let dispatcher = LiteinstDispatcher::new(true, PatchPublication::Concurrent);
    let args = [libc::SIGCHLD as u64, 0, 0, 0, 0, 0];
    let route = |active, sud_only, user, mask, mode, number| {
        let mut modes = ModeState {
            sud_only,
            ..ModeState::default()
        };
        let (path, route) =
            dispatcher.dispatch(&mut modes, active, user, mask, mode, number, &args);
        assert_eq!(modes.stats.validated_sud, u64::from(user));
        assert_eq!(
            path,
            if active {
                Path::NestedSigsys
            } else {
                Path::Sigsys
            }
        );
        route
    };
    let number = libc::SYS_getpid;
    assert_eq!(
        route(true, true, false, None, TOOL_COMPAT, number),
        DispatchRoute::Nested
    );
    assert_eq!(
        route(false, true, false, Some(1), TOOL_COMPAT, number),
        DispatchRoute::Exit(126)
    );
    assert_eq!(
        route(false, true, true, None, TOOL_COMPAT, number),
        DispatchRoute::Exit(125)
    );
    assert_eq!(
        route(false, true, true, Some(1), TOOL_COMPAT, number),
        DispatchRoute::Masked(1)
    );
    for forked in [libc::SYS_clone, libc::SYS_wait4] {
        assert_eq!(
            route(false, false, false, None, TOOL_COMPAT, forked),
            DispatchRoute::Process
        );
        assert_eq!(
            route(false, false, false, None, TOOL_REVERIE, forked),
            DispatchRoute::Site
        );
    }
    assert_eq!(
        route(false, false, false, None, TOOL_COMPAT, number),
        DispatchRoute::Site
    );
}

#[test]
fn entries_that_were_not_prepared_are_errors() {
    let mut modes = ModeState::default();
    assert_eq!(masked_entry(&mut modes, None), Err(125));
    assert_eq!(modes.stats.deferred_sud, 0);
    assert_eq!(masked_entry(&mut modes, Some(0x9000)), Ok(0x9000));
    assert_eq!(modes.stats.deferred_sud, 1);
    assert_eq!(fallback_entry(TOOL_REVERIE, Some(0x9000)), Ok(0x9000));
    assert_eq!(fallback_entry(TOOL_REVERIE, None), Err(libc::EOPNOTSUPP));
    assert_eq!(
        fallback_entry(TOOL_COMPAT, Some(0x9000)),
        Err(libc::EOPNOTSUPP)
    );
}

#[test]
fn clone_accepts_only_fork_like_flags() {
    let bookkeeping =
        (libc::CLONE_CHILD_CLEARTID | libc::CLONE_CHILD_SETTID | libc::CLONE_PARENT_SETTID) as u64;
    assert!(clone_is_fork_like(libc::SIGCHLD as u64, 0));
    assert!(clone_is_fork_like(libc::SIGCHLD as u64 | bookkeeping, 0));
    assert!(!clone_is_fork_like(libc::SIGCHLD as u64, 1));
    assert!(!clone_is_fork_like(0, 0));
    assert!(!clone_is_fork_like(libc::SIGUSR1 as u64, 0));

    for rejected in [
        libc::CLONE_VM,
        libc::CLONE_VFORK,
        libc::CLONE_THREAD,
        libc::CLONE_SETTLS,
        libc::CLONE_SIGHAND,
        libc::CLONE_FILES,
        libc::CLONE_FS,
        libc::CLONE_PARENT,
        libc::CLONE_NEWCGROUP,
        libc::CLONE_NEWIPC,
        libc::CLONE_NEWNET,
        libc::CLONE_NEWNS,
        libc::CLONE_NEWPID,
        libc::CLONE_NEWUSER,
        libc::CLONE_NEWUTS,
    ] {
        assert!(
            !clone_is_fork_like(libc::SIGCHLD as u64 | rejected as u64, 0),
            "accepted unsafe clone flag {rejected:#x}"
        );
    }
}

// Callbacks.

fn event(number: i64, args: [u64; 6], instruction_pointer: u64) -> SyscallEvent {
    SyscallEvent {
        owned_binding: None,
        exit: None,
        number,
        args,
        instruction_pointer,
        result: UNSET_RESULT,
        context: 0,
    }
}

#[test]
fn owned_exit_event_scope_leaves_callback_and_restores_outer_event() {
    let _outer = event(libc::SYS_getpid, [0; 6], 0x4000);
    let inner = event(
        libc::SYS_exit_group,
        [130, 11, 22, 33, 44, 55],
        0x5000,
    );
    let (outer_pointer, inner_pointer) = (0x100, 0x200);
    let mut callbacks = Callbacks::default();
    assert!(!nested_tool_callback(&callbacks));
    let previous = callbacks.event;
    let outer_scope = CurrentEventGuard::enter(&mut callbacks, outer_pointer);
    {
        let callback = ToolCallbackGuard::enter(&mut callbacks);
        let inner_scope = CurrentEventGuard::enter(&mut callbacks, inner_pointer);
        assert!(nested_tool_callback(&callbacks));
        assert_eq!(callbacks.event, inner_pointer);
        assert_eq!(inner.args, [130, 11, 22, 33, 44, 55]);
        inner_scope.leave(&mut callbacks);
        callback.leave(&mut callbacks);
    }
    assert!(!nested_tool_callback(&callbacks));
    assert_eq!(callbacks.event, outer_pointer);
    assert_eq!(inner.result, UNSET_RESULT);
    outer_scope.leave(&mut callbacks);
    assert_eq!(callbacks.event, previous);
    assert!(!nested_tool_callback(&callbacks));
}

/// What a handler of the clock finds inside the scopes of the clock and its own.
fn with_clocked_preload<Output>(
    domain: &mut Domain,
    body: impl FnOnce(&mut Domain) -> Output,
) -> Output {
    domain.enter();
    domain.enter();
    let output = body(domain);
    domain.leave();
    domain.leave();
    output
}

#[test]
fn clocked_preload_origin_preserves_actual_callback_authority() {
    let mut domain = Domain::default();
    let mut callbacks = Callbacks::default();
    with_clocked_preload(&mut domain, |domain| {
        let origin = |domain: &Domain, callbacks: &Callbacks| {
            domain.interrupted_runtime_in_clocked_preload_handler(nested_tool_callback(callbacks))
        };
        assert_eq!(origin(domain, &callbacks), Some(false));
        {
            let callback = ToolCallbackGuard::enter(&mut callbacks);
            assert_eq!(origin(domain, &callbacks), Some(true));
            assert_eq!(
                nested(tool_callback_active(&callbacks), libc::SYS_getpid),
                NestedRoute::Guarded
            );
            assert_eq!(
                guard_syscall(libc::SYS_getpid, &[0; 6], &[-1], &[-1], &nothing),
                GuardedRoute::Forward([0; 6])
            );
            with_clocked_preload(domain, |domain| {
                assert_eq!(origin(domain, &callbacks), Some(true));
            });
            callback.leave(&mut callbacks);
        }
        assert_eq!(origin(domain, &callbacks), Some(false));
    });
    assert!(!tool_callback_active(&callbacks));
    assert!(!domain.allocation_active());
}

#[test]
fn preload_handler_origin_uses_interrupted_domain_not_signal_mask() {
    let mut domain = Domain::default();
    let origin = |domain: &Domain| domain.interrupted_runtime_in_clocked_preload_handler(false);
    assert_eq!(origin(&domain), None);
    with_clocked_preload(&mut domain, |domain| {
        assert_eq!(origin(domain), Some(false));
        with_clocked_preload(domain, |domain| {
            assert_eq!(origin(domain), Some(true));
        });
        assert_eq!(origin(domain), Some(false));
    });
    {
        domain.enter();
        assert_eq!(origin(&domain), None);
        with_clocked_preload(&mut domain, |domain| {
            assert_eq!(origin(domain), Some(true));
        });
        domain.leave();
    }
    assert!(!domain.allocation_active());
}

#[test]
fn requires_callback_scope_and_retains_process_signal_control_guards() {
    let refused = |errno: i32| NestedRoute::Answer(-i64::from(errno));
    assert_eq!(nested(false, libc::SYS_getpid), refused(libc::EPERM));
    assert_eq!(nested(true, libc::SYS_getpid), NestedRoute::Guarded);
    for (number, expected) in [
        (libc::SYS_clone, libc::ENOTSUP),
        (libc::SYS_execve, libc::ENOTSUP),
        (libc::SYS_rt_sigaction, libc::EPERM),
        (libc::SYS_rt_sigprocmask, libc::EPERM),
        (libc::SYS_sigaltstack, libc::EPERM),
        (libc::SYS_ppoll, libc::EPERM),
    ] {
        assert_eq!(nested(true, number), refused(expected));
    }
    assert_eq!(nested(false, libc::SYS_getpid), refused(libc::EPERM));
}

#[test]
fn allocations_are_active_inside_either_scope() {
    let mut domain = Domain::default();
    assert!(!domain.installation_active() && !domain.allocation_active());
    domain.installation_enter();
    assert!(domain.installation_active());
    domain.installation_leave();
    domain.allocation_enter();
    assert!(domain.allocation_active());
    domain.allocation_leave();
    domain.enter();
    assert!(domain.allocation_active() && domain.terminal_clock_scope());
    domain.enter();
    assert!(!domain.terminal_clock_scope());
}

#[test]
fn progress_is_asked_between_callbacks_with_the_clock_stopped() {
    let idle = Callbacks::default();
    assert!(guest_progress_allowed(Boundary::Paused, &idle, true));
    assert!(!guest_progress_allowed(Boundary::Paused, &idle, false));
    assert!(!guest_progress_allowed(Boundary::Counting, &idle, true));
    assert!(!guest_progress_allowed(Boundary::Inactive, &idle, true));
    for busy in [
        Callbacks {
            active: true,
            event: 0,
        },
        Callbacks {
            active: false,
            event: 1,
        },
    ] {
        assert!(!guest_progress_allowed(Boundary::Paused, &busy, true));
    }
    assert!(rng_snapshot_allowed(Boundary::Paused));
    assert!(!rng_snapshot_allowed(Boundary::Counting));
}

// Events.

#[test]
fn events_carry_their_registers_and_complete_them() {
    let mut context = HookContext {
        rax: libc::SYS_openat as u64,
        rdi: 1,
        rsi: 2,
        rdx: 3,
        r10: 4,
        r8: 5,
        r9: 6,
        instruction_pointer: 0x4000,
        rflags: 0x246,
        ..HookContext::default()
    };
    let event = context_event(&context, None, None, 0x77);
    assert_eq!(event.number, libc::SYS_openat);
    assert_eq!(event.args, [1, 2, 3, 4, 5, 6]);
    assert_eq!((event.instruction_pointer, event.context), (0x4000, 0x77));
    assert_eq!(event.result, UNSET_RESULT);
    assert_eq!(
        context_event(&context, Some(libc::SYS_time), None, 0).number,
        libc::SYS_time
    );
    complete_context(&mut context, -i64::from(libc::EPERM));
    assert_eq!(context.rax as i64, -i64::from(libc::EPERM));
    assert_eq!((context.rcx, context.r11), (0x4002, 0x246));
    assert_eq!(settled_result(UNSET_RESULT), -i64::from(libc::ENOSYS));
    assert_eq!(settled_result(7), 7);
    assert_eq!(set_result(UNSET_RESULT), None);
    assert_eq!(set_result(7), Some(7));
}

#[test]
fn control_of_processes_and_signals_stays_with_the_runtime() {
    let args = [1, 1, 0, 0, 0, 0];
    assert_eq!(
        protect_runtime_control(libc::SYS_fork, &args, true, false, true),
        Some(-i64::from(libc::EOPNOTSUPP))
    );
    for (number, supported) in [
        (libc::SYS_getpid, false),
        (libc::SYS_sigaltstack, true),
        (libc::SYS_rt_sigprocmask, true),
    ] {
        assert_eq!(
            protect_runtime_control(number, &args, false, true, supported),
            Some(-i64::from(libc::EPERM))
        );
    }
    for number in [libc::SYS_sigaltstack, libc::SYS_rt_sigprocmask] {
        assert_eq!(
            protect_runtime_control(number, &[0; 6], false, true, true),
            None
        );
    }
}

#[test]
fn guest_calls_take_one_route() {
    let route = |mode, cookie, number, args: &[u64; 6], control| {
        process_syscall(mode, cookie, number, args, control, 7, &[-1])
    };
    let none = [0; 6];
    let refuse = |errno: i32, trace| ProcessRoute::Refuse {
        result: -i64::from(errno),
        trace,
    };
    for number in [libc::SYS_execve, libc::SYS_execveat] {
        assert_eq!(
            route(TOOL_COMPAT, false, number, &none, None),
            refuse(libc::EOPNOTSUPP, true)
        );
        assert_eq!(
            route(TOOL_REVERIE, false, number, &none, None),
            refuse(libc::EOPNOTSUPP, false)
        );
    }
    assert_eq!(
        route(TOOL_REVERIE, false, libc::SYS_getpid, &none, None),
        ProcessRoute::Tool
    );
    assert_eq!(
        route(TOOL_REVERIE, false, libc::SYS_fork, &none, Some(-1)),
        refuse(libc::EPERM, false)
    );
    assert_eq!(
        route(TOOL_COMPAT, true, libc::SYS_close, &[7, 0, 0, 0, 0, 0], None),
        ProcessRoute::Channel(Protection::Answer(0))
    );
    assert_eq!(
        route(TOOL_COMPAT, true, libc::SYS_write, &[7, 0, 0, 0, 0, 0], None),
        ProcessRoute::Channel(Protection::Answer(-i64::from(libc::EBADF)))
    );
    for number in [
        libc::SYS_setpgid,
        libc::SYS_setsid,
        libc::SYS_setns,
        libc::SYS_unshare,
    ] {
        assert_eq!(
            route(TOOL_COMPAT, true, number, &none, None),
            refuse(libc::EPERM, true)
        );
    }
    let thread = [libc::CLONE_VM as u64, 0, 0, 0, 0, 0];
    assert_eq!(
        route(TOOL_COMPAT, true, libc::SYS_clone, &thread, None),
        refuse(libc::EPERM, true)
    );
    assert_eq!(
        route(1, true, libc::SYS_clone, &thread, None),
        refuse(libc::EOPNOTSUPP, true)
    );
    for (number, before) in [
        (libc::SYS_exit, true),
        (libc::SYS_exit_group, true),
        (libc::SYS_fork, true),
        (libc::SYS_getpid, false),
    ] {
        assert_eq!(
            route(TOOL_COMPAT, true, number, &none, None),
            ProcessRoute::Forward {
                trace_before: before,
                trace_after: !before
            }
        );
    }
    assert!(returned_in_child(true, 0));
    assert!(!returned_in_child(true, 17));
    assert!(!returned_in_child(false, 0));
}

#[test]
fn full_channels_are_waited_for_so_often() {
    let again = -i64::from(libc::EAGAIN);
    assert_eq!(write_compatibility_event(0, 40, 40), WriteStep::Done);
    assert_eq!(write_compatibility_event(19, again, 40), WriteStep::Wait);
    assert_eq!(
        write_compatibility_event(0, -i64::from(libc::EINTR), 40),
        WriteStep::Wait
    );
    assert_eq!(
        write_compatibility_event(20, again, 40),
        WriteStep::Fail(121)
    );
    assert_eq!(write_compatibility_event(0, 39, 40), WriteStep::Fail(121));
    assert_eq!(
        write_compatibility_event(0, -i64::from(libc::EPIPE), 40),
        WriteStep::Fail(121)
    );
    assert_eq!(stage_is_written(40, 40), Ok(()));
    assert_eq!(stage_is_written(39, 40), Err(123));
    assert!(compatibility_event_channel_is_intact(0, (1, 2), (1, 2)));
    assert!(!compatibility_event_channel_is_intact(0, (1, 3), (1, 2)));
    assert!(!compatibility_event_channel_is_intact(-9, (1, 2), (1, 2)));
    assert_eq!(failure_detail(Some(libc::EIO), 3), ("io-errno", 5));
    assert_eq!(failure_detail(None, 3), ("io-error-kind", 3));
}

// The clock.

#[test]
fn every_optional_rcb_setup_error_takes_the_real_unavailable_path() {
    let owner = 17;
    // EACCES, EPERM, ENODEV, EOPNOTSUPP, EINVAL, EMFILE, ENFILE, EBUSY and EIO are one
    // to the clock: it was not made.
    for _ in 0..9 {
        let mut clock = RcbClock::default();
        clock
            .initialize_rcb_clock(Boundary::Inactive, owner)
            .unwrap();
        clock.initialized(Creation::Failed, false).unwrap();
        assert!(!clock.present);
        assert!(clock.unavailable);
        assert_eq!(clock.owner, owner);
    }
}

#[test]
fn callbacks_take_no_guest_time_on_this_clock() {
    let mut clock = RcbClock::default();
    assert!(clock.is_foreign(17));
    clock.initialize_rcb_clock(Boundary::Inactive, 17).unwrap();
    clock
        .initialized(
            Creation::Created {
                sample: Ok(0),
                published: true,
            },
            true,
        )
        .unwrap();
    let boundary = Boundary::Inactive;
    clock.enter_rcb_handler(boundary, Ok(Some(100))).unwrap();
    clock.enter_rcb_handler(boundary, Ok(Some(110))).unwrap();
    assert_eq!(clock.read_guest_rcb_clock(boundary, Ok(Some(150))), Ok(100));
    assert_eq!(clock.leave_rcb_handler(boundary), Ok(false));
    assert_eq!(clock.leave_rcb_handler(boundary), Ok(true));
    clock.deduct_callback(Ok(Some(160))).unwrap();
    assert_eq!(clock.deduction, 60);
    assert_eq!(clock.read_guest_rcb_clock(boundary, Ok(Some(165))), Ok(105));
}

#[test]
fn clock_errors_say_what_is_wrong() {
    let mut clock = RcbClock::default();
    assert_eq!(
        clock.initialize_rcb_clock(Boundary::Paused, 17),
        Err(ClockError::RebindActive)
    );
    assert_eq!(
        clock.initialize_rcb_clock(Boundary::Inactive, 0),
        Err(ClockError::OwnerUnknown)
    );
    assert_eq!(
        clock.initialized(Creation::Failed, true),
        Err(ClockError::CreateFailed)
    );
    let unpublished = Creation::Created {
        sample: Ok(0),
        published: false,
    };
    assert_eq!(
        clock.initialized(unpublished, true),
        Err(ClockError::PublishFailed)
    );
    assert_eq!(clock.initialized(unpublished, false), Ok(()));
    let counting = Boundary::Counting;
    assert_eq!(
        clock.enter_rcb_handler(counting, Ok(None)),
        Err(ClockError::EnteredBeforeExclusion)
    );
    assert_eq!(
        clock.leave_rcb_handler(counting),
        Err(ClockError::RestartedBeforeTeardown)
    );
    assert_eq!(
        clock.read_guest_rcb_clock(counting, Ok(None)),
        Err(ClockError::ReadOutsideExclusion)
    );
    assert_eq!(
        clock.leave_rcb_handler(Boundary::Inactive),
        Err(ClockError::DepthUnderflow)
    );
    assert_eq!(
        clock.read_guest_rcb_clock(Boundary::Paused, Ok(None)),
        Err(ClockError::Unavailable)
    );
    assert_eq!(
        clock.read_guest_rcb_clock(Boundary::Inactive, Ok(None)),
        Err(ClockError::Unsupported)
    );
    assert_eq!(
        clock.enter_rcb_handler(Boundary::Inactive, Err(5)),
        Err(ClockError::Read(5))
    );
    assert_eq!(clock.deduct_callback(Err(5)), Err(ClockError::Read(5)));
    assert_eq!(clock.leave_rcb_handler(Boundary::Paused), Ok(false));
    assert_eq!(
        ClockError::DepthUnderflow.text(),
        Some("LiteInst RCB handler depth underflow")
    );
}

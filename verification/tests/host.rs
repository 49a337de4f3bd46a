//! What the runtime makes of its host: mappings, patches, signals and descriptors.

use liteinst_runtime::instruction_event::Kind;
use liteinst_runtime::registers::HookContext;
use liteinst_runtime::registers::REG_RAX;
use liteinst_runtime::registers::REG_RCX;
use liteinst_runtime::registers::REG_RDX;
use liteinst_runtime::registers::REG_RIP;
use liteinst_runtime::runtime::descriptors::close_range_preserving_event_fd;
use liteinst_runtime::runtime::descriptors::forward_kernel_args;
use liteinst_runtime::runtime::descriptors::invalid_range_result;
use liteinst_runtime::runtime::descriptors::protect_compatibility_event_channel;
use liteinst_runtime::runtime::descriptors::protect_coordinator_channel;
use liteinst_runtime::runtime::descriptors::syscall_targets_event_fd;
use liteinst_runtime::runtime::descriptors::CloseRange;
use liteinst_runtime::runtime::descriptors::CoordinatorSlot;
use liteinst_runtime::runtime::descriptors::Protection;
use liteinst_runtime::runtime::install::accept_page_size;
use liteinst_runtime::runtime::install::check_candidate;
use liteinst_runtime::runtime::install::claim_vdso_site;
use liteinst_runtime::runtime::install::finish_installation;
use liteinst_runtime::runtime::install::install_site_hook;
use liteinst_runtime::runtime::install::locate_syscall_site;
use liteinst_runtime::runtime::install::patch_publication;
use liteinst_runtime::runtime::install::publication_number;
use liteinst_runtime::runtime::install::replaced_bytes;
use liteinst_runtime::runtime::install::text_pages;
use liteinst_runtime::runtime::install::vdso_callback;
use liteinst_runtime::runtime::install::InstallError;
use liteinst_runtime::runtime::install::InstallLock;
use liteinst_runtime::runtime::install::InstallOutcome;
use liteinst_runtime::runtime::install::InstallStep;
use liteinst_runtime::runtime::install::Installation;
use liteinst_runtime::runtime::install::PatchPublication;
use liteinst_runtime::runtime::install::ProtectionError;
use liteinst_runtime::runtime::install::Snapshot;
use liteinst_runtime::runtime::install::VdsoHook;
use liteinst_runtime::runtime::install::VdsoSiteError;
use liteinst_runtime::runtime::instructions::classify_fault;
use liteinst_runtime::runtime::instructions::execute_native_fault_instruction;
use liteinst_runtime::runtime::instructions::execute_native_instruction;
use liteinst_runtime::runtime::instructions::instruction_is_subscribed;
use liteinst_runtime::runtime::instructions::instruction_scope;
use liteinst_runtime::runtime::instructions::nested_hook_stage;
use liteinst_runtime::runtime::instructions::resume_fault;
use liteinst_runtime::runtime::instructions::scope_restores;
use liteinst_runtime::runtime::instructions::scope_token;
use liteinst_runtime::runtime::instructions::subscription_bits;
use liteinst_runtime::runtime::instructions::FaultVerdict;
use liteinst_runtime::runtime::instructions::InstructionSubscriptions;
use liteinst_runtime::runtime::instructions::NativeResult;
use liteinst_runtime::runtime::maps::arena_for;
use liteinst_runtime::runtime::maps::discover_arena_aliases;
use liteinst_runtime::runtime::maps::executable_mappings;
use liteinst_runtime::runtime::maps::parse_number;
use liteinst_runtime::runtime::maps::read_runtime_maps;
use liteinst_runtime::runtime::maps::RuntimeArena;
use liteinst_runtime::runtime::signals::arm_mask;
use liteinst_runtime::runtime::signals::enable_instruction_faulting;
use liteinst_runtime::runtime::signals::handler_flags;
use liteinst_runtime::runtime::signals::install_instruction_signal_handler;
use liteinst_runtime::runtime::signals::owned_action;
use liteinst_runtime::runtime::signals::preflight_instruction_faulting;
use liteinst_runtime::runtime::signals::preflight_next;
use liteinst_runtime::runtime::signals::prepare_disposition;
use liteinst_runtime::runtime::signals::prepare_guest_signal_state;
use liteinst_runtime::runtime::signals::readback_matches;
use liteinst_runtime::runtime::signals::signal_action_supported;
use liteinst_runtime::runtime::signals::Control;
use liteinst_runtime::runtime::signals::ControlUnavailable;
use liteinst_runtime::runtime::signals::Disposition;
use liteinst_runtime::runtime::signals::HandlerPlan;
use liteinst_runtime::runtime::signals::KernelSigaction;
use liteinst_runtime::runtime::signals::Preflight;
use liteinst_runtime::runtime::signals::SignalError;
use liteinst_runtime::runtime::signals::SignalPolicy;
use liteinst_runtime::runtime::signals::SignalPreparation;
use liteinst_runtime::runtime::signals::SignalStep;
use liteinst_runtime::runtime::sites::SiteState;
use liteinst_runtime::runtime::sites::SiteTable;
use liteinst_runtime::syscall_mode::syscall_mode_stats;
use liteinst_runtime::syscall_mode::ModeState;
use liteinst_runtime::syscall_mode::SyscallMode;

// Mappings.

const MAPS: &str = "\
00400000-00480000 r-xp 00000000 08:01 42 /usr/bin/true
00480000-00481000 rw-p 00080000 08:01 42                 /usr/bin/true
7f0000000000-7f0000080000 rw-s 00000000 00:01 77 /memfd:arena (deleted)
7f0000100000-7f0000180000 r-xs 00000000 00:01 77 /memfd:arena (deleted)
not a mapping
7fff00000000-7fff00001000 r-xp 00000000 00:00 0
";

#[test]
fn maps_are_read_line_by_line() {
    let maps = read_runtime_maps(MAPS.as_bytes());
    assert_eq!(maps.len(), 5);
    assert_eq!((maps[0].start, maps[0].end), (0x40_0000, 0x48_0000));
    assert_eq!((maps[1].offset, maps[1].inode), (0x8_0000, 42));
    assert_eq!(maps[2].device, b"00:01");
    assert_eq!(
        (
            maps[2].readable,
            maps[2].writable,
            maps[2].executable,
            maps[2].shared
        ),
        (true, true, false, true)
    );
    assert_eq!(
        (
            maps[3].readable,
            maps[3].writable,
            maps[3].executable,
            maps[3].shared
        ),
        (true, false, true, true)
    );
    for broken in [
        "",
        "0040-0048 r-xp 0 08:01",
        "0040_0048 r-xp 0 08:01 42",
        "0040-00g8 r-xp 0 08:01 42",
        "0040-0048 r-xp 0 08:01 4a",
        "10000000000000000-0 r-xp 0 08:01 42",
    ] {
        assert!(read_runtime_maps(broken.as_bytes()).is_empty(), "{broken}");
    }
}

#[test]
fn executable_mappings_are_named_by_their_last_component() {
    let maps = executable_mappings(MAPS.as_bytes());
    let names: Vec<&[u8]> = maps.iter().map(|map| map.name.as_slice()).collect();
    assert_eq!(
        names,
        [&b"true"[..], b"memfd:arena", b"[anonymous]"]
    );
    assert_eq!((maps[2].start, maps[2].end), (0x7fff_0000_0000, 0x7fff_0000_1000));
    let spaced = "1000-2000 r-xp 0 08:01 42 /opt/a\u{a0}b\n2000-2000 r-xp 0 08:01 42 /x\n";
    let maps = executable_mappings(spaced.as_bytes());
    assert_eq!(maps.len(), 1);
    assert_eq!(maps[0].name, b"a");
    let wide = "1000-2000\u{3000}r-xp\u{2003}0\u{85}08:01\u{1680}42\u{205f}/opt/c\u{e9}\n";
    let maps = executable_mappings(wide.as_bytes());
    assert_eq!(maps[0].name, "c\u{e9}".as_bytes());
}

#[test]
fn numbers_have_a_base_a_sign_and_a_size() {
    assert_eq!(parse_number(b"ff", 16), Some(255));
    assert_eq!(parse_number(b"+FF", 16), Some(255));
    assert_eq!(parse_number(b"ff", 10), None);
    assert_eq!(parse_number(b"18446744073709551615", 10), Some(u64::MAX));
    assert_eq!(parse_number(b"18446744073709551616", 10), None);
    assert_eq!(parse_number(b"", 10), None);
    assert_eq!(parse_number(b"+", 10), None);
    assert_eq!(parse_number(b"-1", 10), None);
}

#[test]
fn arenas_are_the_one_new_pair_of_views() {
    let after = read_runtime_maps(MAPS.as_bytes());
    assert_eq!(discover_arena_aliases(&[], &after), Ok((2, 3)));
    assert_eq!(discover_arena_aliases(&after, &after), Err(0));
    let twice = MAPS.replace(
        "not a mapping\n",
        "7f0000200000-7f0000280000 rw-s 00000000 00:01 77 /memfd:arena\n",
    );
    let after = read_runtime_maps(twice.as_bytes());
    assert_eq!(discover_arena_aliases(&[], &after), Err(2));
}

#[test]
fn arenas_serve_what_they_hold_and_reach() {
    let arena = |start, end| RuntimeArena {
        mapping_start: start,
        mapping_end: end,
        mapping_name: Vec::new(),
    };
    let arenas = [arena(0x1000, 0x2000), arena(0x1000, 0x3000)];
    assert_eq!(arena_for(&arenas, 0x1000, &[true, true]), Some(0));
    assert_eq!(arena_for(&arenas, 0x1000, &[false, true]), Some(1));
    assert_eq!(arena_for(&arenas, 0x2000, &[true, true]), Some(1));
    assert_eq!(arena_for(&arenas, 0x3000, &[true, true]), None);
}

// Patches.

#[test]
fn pages_hold_the_whole_patch() {
    assert_eq!(accept_page_size(4096), Some(4096));
    assert_eq!(accept_page_size(4095), None);
    assert_eq!(accept_page_size(0), None);
    assert_eq!(accept_page_size(-1), None);
    assert_eq!(text_pages(0x1010, 4096), Ok((0x1000, 0x1000)));
    assert_eq!(text_pages(0x1ff9, 4096), Ok((0x1000, 0x2000)));
    assert_eq!(text_pages(0x1ff8, 4096), Ok((0x1000, 0x1000)));
    assert_eq!(text_pages(0x1000, 0), Err(ProtectionError::PageSizeUnknown));
    assert_eq!(
        text_pages(u64::MAX - 7, 4096),
        Err(ProtectionError::AddressOverflow)
    );
    assert_eq!(
        text_pages(u64::MAX - 8, 4096),
        Err(ProtectionError::RangeOverflow)
    );
}

#[test]
fn installations_start_under_their_lock() {
    let mut lock = InstallLock { held: false };
    let mut table = SiteTable::new(1);
    table.claim_site(0x1000).unwrap();
    let start = |sud_only, lock: &mut InstallLock, table: &mut SiteTable, end| {
        let mut modes = ModeState {
            sud_only,
            ..ModeState::default()
        };
        let started = install_site_hook(
            &mut modes,
            lock,
            table,
            0,
            end,
            PatchPublication::Quiescent,
            true,
        );
        assert_eq!(modes.stats.patch_attempts, 1);
        started
    };
    assert_eq!(
        start(true, &mut lock, &mut table, Some(0x2000)),
        Err(InstallError::PatchingDisabled)
    );
    assert_eq!(
        start(false, &mut lock, &mut table, None),
        Err(InstallError::NoArena)
    );
    assert_eq!(table.site(0).mapping_end, 0);
    assert_eq!(
        start(false, &mut lock, &mut table, Some(0x1007)),
        Err(InstallError::MappingEnd)
    );
    assert_eq!(table.site(0).mapping_end, 0x1007);
    assert!(!lock.held);
    table.record_mapping_end(0, 0x1000);
    let (installation, snapshot) =
        start(false, &mut lock, &mut table, Some(0x2000)).unwrap();
    assert_eq!(table.site(0).mapping_end, 0x2000);
    assert!(lock.held);
    assert_eq!(installation.step, InstallStep::Inspect);
    assert_eq!(
        snapshot,
        Snapshot {
            mapping_end: 0x2000,
            available: 64
        }
    );
    assert_eq!(
        start(false, &mut lock, &mut table, Some(0x2000)),
        Err(InstallError::Busy)
    );
    lock.unlock_installation();
    table.record_mapping_end(0, 0x1010);
    let (_, snapshot) = start(false, &mut lock, &mut table, Some(0x2000)).unwrap();
    assert_eq!(
        snapshot,
        Snapshot {
            mapping_end: 0x1010,
            available: 16
        }
    );
}

#[test]
fn finished_installations_settle_their_site() {
    for (step, state, hook, installed) in [
        (InstallStep::Installed, SiteState::Active, 0x9000, true),
        (InstallStep::Failed, SiteState::Fallback, 0, false),
    ] {
        let mut modes = ModeState::default();
        let mut lock = InstallLock { held: true };
        let mut table = SiteTable::new(1);
        table.claim_site(0x1000).unwrap();
        let over = Installation {
            step,
            ..installation(PatchPublication::Quiescent, true)
        };
        assert_eq!(
            finish_installation(over, &mut modes, &mut lock, &mut table, 0, 0x9000),
            installed
        );
        assert!(!lock.held);
        assert_eq!((table.site(0).state, table.site(0).hook), (state, hook));
        assert_eq!(modes.stats.installed_patches, u64::from(installed));
    }
}

fn installation(publication: PatchPublication, manage_protection: bool) -> Installation {
    Installation {
        publication,
        manage_protection,
        step: InstallStep::Inspect,
    }
}

#[test]
fn successful_installations_go_through_every_step() {
    for (publication, managed, expected) in [
        (
            PatchPublication::Concurrent,
            true,
            &[
                InstallStep::Budget,
                InstallStep::Unprotect,
                InstallStep::Attempt(1),
                InstallStep::Activate,
                InstallStep::Protect,
                InstallStep::Installed,
            ][..],
        ),
        (
            PatchPublication::Quiescent,
            false,
            &[
                InstallStep::Attempt(1),
                InstallStep::Activate,
                InstallStep::Installed,
            ],
        ),
    ] {
        let mut installation = installation(publication, managed);
        for step in expected {
            installation.advance(InstallOutcome::Succeeded);
            assert_eq!(installation.step, *step);
        }
    }
}

#[test]
fn conflicts_with_the_guard_are_tried_again_so_often() {
    let mut installation = installation(PatchPublication::Quiescent, true);
    installation.advance(InstallOutcome::Succeeded);
    installation.advance(InstallOutcome::Succeeded);
    for attempt in 1..16 {
        assert_eq!(installation.step, InstallStep::Attempt(attempt));
        installation.advance(InstallOutcome::GuardConflict);
    }
    assert_eq!(installation.step, InstallStep::Attempt(16));
    installation.advance(InstallOutcome::GuardConflict);
    assert_eq!(installation.step, InstallStep::Abandon);
    installation.advance(InstallOutcome::Succeeded);
    assert_eq!(installation.step, InstallStep::Failed);
}

#[test]
fn candidates_start_with_the_expected_instruction() {
    assert_eq!(check_candidate(&[0x0f, 0x05, 0x90], &[0x0f, 0x05]), Ok(()));
    assert_eq!(
        check_candidate(&[0x0f], &[0x0f, 0x05]),
        Err(InstallError::OtherInstruction)
    );
    assert_eq!(
        check_candidate(&[0x0f, 0x34], &[0x0f, 0x05]),
        Err(InstallError::OtherInstruction)
    );
    assert_eq!(replaced_bytes(2), 2);
    assert_eq!(replaced_bytes(7), 5);
    for publication in [PatchPublication::Quiescent, PatchPublication::Concurrent] {
        assert_eq!(
            patch_publication(publication_number(publication)),
            publication
        );
    }
}

#[test]
fn vdso_calls_have_hooks_and_sites_of_their_own() {
    for (number, hook) in [
        (libc::SYS_time, VdsoHook::Time),
        (libc::SYS_clock_gettime, VdsoHook::ClockGettime),
        (libc::SYS_getcpu, VdsoHook::Getcpu),
        (libc::SYS_gettimeofday, VdsoHook::Gettimeofday),
        (libc::SYS_clock_getres, VdsoHook::ClockGetres),
    ] {
        assert_eq!(vdso_callback(number), Ok(hook));
    }
    assert_eq!(vdso_callback(libc::SYS_read), Err(libc::SYS_read));
    let mut table = SiteTable::new(1);
    assert_eq!(claim_vdso_site(&mut table, 0x1000), Ok(0));
    assert_eq!(
        claim_vdso_site(&mut table, 0x1000),
        Err(VdsoSiteError::ClaimedTwice)
    );
    assert_eq!(
        claim_vdso_site(&mut table, 0x2000),
        Err(VdsoSiteError::TableFull)
    );
}

#[test]
fn system_calls_stand_before_or_at_their_resume_address() {
    let code = [0x90, 0x90, 0x0f, 0x05, 0x0f, 0x05, 0x90];
    let read = |address: u64, length: usize| {
        let start = (address - 0x1000) as usize;
        code.get(start..start + length)
            .map(|bytes| bytes.to_vec())
            .unwrap_or_default()
    };
    let end = Some(0x1007);
    assert_eq!(locate_syscall_site(0x1004, end, end, &read), Some(0x1002));
    assert_eq!(locate_syscall_site(0x1002, end, end, &read), Some(0x1002));
    assert_eq!(locate_syscall_site(0x1004, None, end, &read), Some(0x1004));
    assert_eq!(locate_syscall_site(0x1004, None, None, &read), None);
    assert_eq!(
        locate_syscall_site(0x1004, Some(0x1003), Some(0x1005), &read),
        None
    );
    assert_eq!(locate_syscall_site(0x1003, end, end, &read), None);
}

// Instructions.

#[test]
fn scopes_put_back_what_they_changed() {
    for (selected, cpuid, tsc, restored) in [
        (0, 9, 9, (None, None)),
        (1, 1, 9, (None, Some(1))),
        (1, 0, 9, (None, Some(0))),
        (2, 9, 2, (Some(2), None)),
        (3, 1, 1, (Some(1), Some(1))),
    ] {
        let token = scope_token(selected, cpuid, tsc).unwrap();
        assert_eq!(scope_restores(token), Some(restored));
    }
    assert_eq!(scope_token(4, 0, 1), None);
    assert_eq!(scope_token(1, 2, 1), None);
    assert_eq!(scope_token(2, 0, 0), None);
    assert_eq!(scope_token(2, 0, 3), None);
    assert_eq!(scope_restores(32), None);
    assert_eq!(scope_restores(2), None);
    assert_eq!(scope_restores(26), None);
    assert_eq!(
        [Kind::Cpuid, Kind::Rdtsc, Kind::Rdtscp].map(instruction_scope),
        [1, 2, 2]
    );
}

#[test]
fn subscriptions_select_their_instructions() {
    for (cpuid, rdtsc, bits) in [
        (false, false, 0),
        (true, false, 1),
        (false, true, 2),
        (true, true, 3),
    ] {
        assert_eq!(
            subscription_bits(InstructionSubscriptions { cpuid, rdtsc }),
            bits
        );
        assert_eq!(instruction_is_subscribed(bits, Kind::Cpuid), cpuid);
        assert_eq!(instruction_is_subscribed(bits, Kind::Rdtsc), rdtsc);
        assert_eq!(instruction_is_subscribed(bits, Kind::Rdtscp), rdtsc);
    }
}

#[test]
fn native_results_reach_the_registers() {
    let mut context = HookContext::default();
    execute_native_instruction(
        &mut context,
        NativeResult::Cpuid {
            eax: 1,
            ebx: 2,
            ecx: 3,
            edx: u32::MAX,
        },
    );
    assert_eq!(
        (context.rax, context.rbx, context.rcx, context.rdx),
        (1, 2, 3, 0xffff_ffff)
    );
    execute_native_instruction(&mut context, NativeResult::Rdtsc(0x1234_5678_9abc_def0));
    assert_eq!(
        (context.rax, context.rdx, context.rcx),
        (0x9abc_def0, 0x1234_5678, 3)
    );
    let mut registers = [0_i64; 23];
    registers[REG_RIP] = 0x4000;
    execute_native_fault_instruction(
        &mut registers,
        NativeResult::Rdtscp {
            value: 0xffff_ffff_0000_0001,
            aux: 7,
        },
        3,
    );
    assert_eq!(
        (registers[REG_RAX], registers[REG_RDX], registers[REG_RCX]),
        (1, 0xffff_ffff, 7)
    );
    assert_eq!(registers[REG_RIP], 0x4003);
    registers[REG_RIP] = i64::MAX;
    execute_native_fault_instruction(&mut registers, NativeResult::Rdtsc(0), 2);
    assert_eq!(registers[REG_RIP], i64::MAX);
}

#[test]
fn faults_are_judged_in_order() {
    let arena = RuntimeArena {
        mapping_start: 0x1000,
        mapping_end: 0x2000,
        mapping_name: Vec::new(),
    };
    let cpuid = [0x0f, 0xa2, 0x90];
    let judge = |signal, context, arena, address, bits, active| {
        classify_fault(signal, context, arena, address, &cpuid, bits, active)
    };
    assert_eq!(
        judge(libc::SIGTRAP, true, Some(&arena), 0x1000, 3, false),
        FaultVerdict::Deliver("instruction-sigsegv-invalid-context")
    );
    assert_eq!(
        judge(libc::SIGSEGV, false, Some(&arena), 0x1000, 3, false),
        FaultVerdict::Deliver("instruction-sigsegv-invalid-context")
    );
    assert_eq!(
        judge(libc::SIGSEGV, true, None, 0x1000, 3, false),
        FaultVerdict::Deliver("instruction-sigsegv-no-reachable-arena")
    );
    assert_eq!(
        judge(libc::SIGSEGV, true, Some(&arena), 0x1fff, 3, false),
        FaultVerdict::Unrecognized
    );
    assert_eq!(
        judge(libc::SIGSEGV, true, Some(&arena), 0x1000, 2, false),
        FaultVerdict::Deliver("instruction-sigsegv-unsubscribed")
    );
    assert_eq!(
        judge(libc::SIGSEGV, true, Some(&arena), 0x1000, 1, true),
        FaultVerdict::Native(Kind::Cpuid, "nested-instruction-fault-native-cpuid")
    );
    assert_eq!(
        judge(libc::SIGSEGV, true, Some(&arena), 0x1ffe, 1, false),
        FaultVerdict::Claim(Kind::Cpuid)
    );
    assert_eq!(
        nested_hook_stage(Kind::Rdtscp),
        "nested-instruction-native-rdtscp"
    );
    assert_eq!(
        resume_fault(None),
        Err("instruction-sigsegv-site-table-full")
    );
    assert_eq!(
        resume_fault(Some((SiteState::Fallback, 0x9000))),
        Err("instruction-sigsegv-site-install-failed")
    );
    assert_eq!(
        resume_fault(Some((SiteState::Active, 0))),
        Err("instruction-sigsegv-hook-missing")
    );
    assert_eq!(resume_fault(Some((SiteState::Active, 0x9000))), Ok(0x9000));
}

// Signals.

#[test]
fn dispositions_are_kept_reset_or_refused() {
    let handler = 0x4000;
    for signal in [libc::SIGKILL, libc::SIGSTOP] {
        assert_eq!(
            prepare_disposition(signal, handler, true, 0),
            Disposition::Skip
        );
    }
    for quiet in [libc::SIG_DFL as u64, libc::SIG_IGN as u64] {
        assert_eq!(
            prepare_disposition(libc::SIGUSR1, quiet, true, 0),
            Disposition::Keep
        );
    }
    assert_eq!(
        prepare_disposition(libc::SIGUSR1, handler, false, 0),
        Disposition::Reset
    );
    assert_eq!(
        prepare_disposition(libc::SIGUSR1, handler, true, 0),
        Disposition::Refuse(SignalError::ExistingHandler(libc::SIGUSR1))
    );
    assert_eq!(
        prepare_disposition(
            libc::SIGUSR1,
            libc::SIG_IGN as u64,
            true,
            1 << (libc::SIGUSR1 - 1)
        ),
        Disposition::Refuse(SignalError::DispositionConflict)
    );
}

#[test]
fn preparation_visits_every_signal_that_can_be_changed() {
    let preparation = SignalPreparation {
        sud_only: true,
        runtime_signals: 0,
        runtime_signals_configured: false,
    };
    let (mask, mut step) =
        prepare_guest_signal_state(&preparation, InstructionSubscriptions::default(), false, 1);
    assert_eq!(mask, 1);
    let mut visited = Vec::new();
    while let SignalStep::Query(signal) = step {
        visited.push(signal);
        step = preparation.advance(step, 0, libc::SIG_DFL as u64);
    }
    let expected: Vec<i32> = (1..=64)
        .filter(|signal| *signal != libc::SIGKILL && *signal != libc::SIGSTOP)
        .collect();
    assert_eq!(visited, expected);
    assert_eq!(step, SignalStep::Arm(!(1 << (libc::SIGSYS - 1))));
    assert_eq!(preparation.advance(step, 0, 0), SignalStep::Ready);
    assert_eq!(
        preparation.advance(step, -22, 0),
        SignalStep::Failed(libc::EINVAL)
    );
    assert_eq!(
        preparation.advance(SignalStep::Query(10), -22, 0),
        SignalStep::Failed(libc::EINVAL)
    );
    assert_eq!(
        preparation.advance(SignalStep::Query(10), 0, 0x4000),
        SignalStep::Refused(SignalError::ExistingHandler(10))
    );
    let patching = SignalPreparation {
        sud_only: false,
        ..preparation
    };
    assert_eq!(
        patching.advance(SignalStep::Query(10), 0, 0x4000),
        SignalStep::Reset(10)
    );
    assert_eq!(
        patching.advance(SignalStep::Reset(10), 0, 0),
        SignalStep::Query(11)
    );
    assert_eq!(
        patching.advance(SignalStep::Query(64), 0, 0),
        SignalStep::Ready
    );
}

#[test]
fn blocked_signals_of_the_runtime_are_refused_or_let_through() {
    let bit = |signal: i32| 1_u64 << (signal - 1);
    let both = bit(libc::SIGSYS) | bit(libc::SIGSEGV);
    let owned = SignalPreparation {
        sud_only: true,
        runtime_signals: bit(libc::SIGUSR2),
        runtime_signals_configured: true,
    };
    let none = InstructionSubscriptions::default();
    let cpuid = InstructionSubscriptions {
        cpuid: true,
        rdtsc: false,
    };
    for (subscriptions, trace, mask) in [
        (none, false, bit(libc::SIGSYS)),
        (none, false, bit(libc::SIGUSR2)),
        (cpuid, false, bit(libc::SIGSEGV)),
        (none, true, bit(libc::SIGSEGV)),
    ] {
        let (kept, step) = prepare_guest_signal_state(&owned, subscriptions, trace, mask);
        assert_eq!(kept, mask);
        assert_eq!(step, SignalStep::Refused(SignalError::OwnedSignalBlocked));
    }
    let (_, step) = prepare_guest_signal_state(&owned, none, false, bit(libc::SIGSEGV));
    assert_eq!(step, SignalStep::Query(1));
    let patching = SignalPreparation {
        sud_only: false,
        ..owned
    };
    let (kept, step) = prepare_guest_signal_state(&patching, cpuid, false, both | 1);
    assert_eq!((kept, step), (1, SignalStep::Query(1)));
    let (kept, _) = prepare_guest_signal_state(&patching, none, false, both | 1);
    assert_eq!(kept, bit(libc::SIGSEGV) | 1);
    assert_eq!(arm_mask(true, true), None);
    assert_eq!(arm_mask(false, false), None);
}

#[test]
fn guests_install_no_handlers() {
    let policy = SignalPolicy {
        runtime_signals_configured: false,
        trace_configured: false,
        reserved: false,
        subscriptions: 0,
    };
    let with = |handler: u64| move |_: u64, _: usize| handler.to_le_bytes().to_vec();
    let args = [libc::SIGSEGV as u64, 0x1000, 0, 0, 0, 0];
    let number = libc::SYS_rt_sigaction;
    assert!(signal_action_supported(&policy, number, &args, &with(0)));
    assert!(signal_action_supported(&policy, number, &args, &with(1)));
    assert!(!signal_action_supported(&policy, number, &args, &with(2)));
    assert!(!signal_action_supported(
        &policy,
        number,
        &args,
        &|_, _| vec![0; 7]
    ));
    assert!(signal_action_supported(
        &policy,
        number,
        &[libc::SIGSEGV as u64, 0, 0, 0, 0, 0],
        &with(2)
    ));
    for refused in [
        SignalPolicy {
            reserved: true,
            ..policy
        },
        SignalPolicy {
            subscriptions: 1,
            ..policy
        },
    ] {
        assert!(!signal_action_supported(&refused, number, &args, &with(0)));
    }
    for waiting in [
        libc::SYS_rt_sigsuspend,
        libc::SYS_pselect6,
        libc::SYS_ppoll,
        libc::SYS_epoll_pwait,
        libc::SYS_epoll_pwait2,
        333,
    ] {
        assert!(signal_action_supported(&policy, waiting, &args, &with(0)));
        for owned in [
            SignalPolicy {
                runtime_signals_configured: true,
                ..policy
            },
            SignalPolicy {
                trace_configured: true,
                ..policy
            },
        ] {
            assert!(!signal_action_supported(&owned, waiting, &args, &with(0)));
        }
    }
}

#[test]
fn installed_actions_read_back_without_what_cannot_be_masked() {
    let action = owned_action(0x4000, 0x5000);
    assert_eq!(action.flags, 0x0c00_0004);
    assert_eq!(action.mask, u64::MAX);
    let unmaskable = 1 << (libc::SIGKILL - 1) | 1 << (libc::SIGSTOP - 1);
    let installed = KernelSigaction {
        mask: !unmaskable,
        ..action
    };
    assert!(readback_matches(0, &installed, &action));
    assert!(!readback_matches(-22, &installed, &action));
    assert!(!readback_matches(0, &action, &action));
    assert!(!readback_matches(
        0,
        &KernelSigaction {
            handler: 0x4001,
            ..installed
        },
        &action
    ));
    assert_eq!(
        handler_flags(true),
        (libc::SA_SIGINFO | libc::SA_ONSTACK) as u64
    );
    assert_eq!(handler_flags(false), libc::SA_SIGINFO as u64);
    let cpuid = InstructionSubscriptions {
        cpuid: true,
        rdtsc: false,
    };
    assert_eq!(
        install_instruction_signal_handler(InstructionSubscriptions::default(), true, true),
        (0, HandlerPlan::Nothing)
    );
    assert_eq!(
        install_instruction_signal_handler(cpuid, true, true),
        (1, HandlerPlan::Owned)
    );
    assert_eq!(
        install_instruction_signal_handler(cpuid, false, false),
        (1, HandlerPlan::Patching(libc::SA_SIGINFO as u64))
    );
}

#[test]
fn preflights_undo_their_probes() {
    let both = InstructionSubscriptions {
        cpuid: true,
        rdtsc: true,
    };
    let mut step = preflight_instruction_faulting(both);
    for (result, value, next) in [
        (1, 0, Preflight::ProbeCpuid(1)),
        (0, 0, Preflight::RestoreCpuid(1)),
        (0, 0, Preflight::QueryTsc),
        (0, 2, Preflight::ProbeTsc(2)),
        (0, 9, Preflight::RestoreTsc(2)),
        (0, 0, Preflight::Done),
    ] {
        step = preflight_next(both, step, result, value);
        assert_eq!(step, next);
    }
    let unavailable = |control| {
        Preflight::Unavailable(ControlUnavailable {
            control,
            errno: libc::ENODEV,
        })
    };
    for (step, control) in [
        (Preflight::QueryCpuid, "CPUID faulting"),
        (Preflight::ProbeCpuid(1), "CPUID faulting"),
        (Preflight::QueryTsc, "TSC faulting"),
        (Preflight::ProbeTsc(1), "TSC faulting"),
    ] {
        assert_eq!(
            preflight_next(both, step, -i64::from(libc::ENODEV), 0),
            unavailable(control)
        );
    }
    assert_eq!(
        preflight_next(both, Preflight::RestoreCpuid(1), -5, 0),
        Preflight::Terminal {
            operation: "restore-ARCH_SET_CPUID",
            result: -5
        }
    );
    assert_eq!(
        preflight_next(both, Preflight::RestoreTsc(1), -5, 0),
        Preflight::Terminal {
            operation: "restore-PR_SET_TSC",
            result: -5
        }
    );
    assert_eq!(
        preflight_instruction_faulting(InstructionSubscriptions::default()),
        Preflight::Done
    );
    assert_eq!(
        enable_instruction_faulting(both),
        [Control::Cpuid, Control::Tsc]
    );
}

#[test]
fn signal_errors_name_their_signal() {
    assert!(SignalError::ExistingHandler(10).text().contains("10"));
    assert_ne!(
        SignalError::OwnedSignalBlocked.text(),
        SignalError::DispositionConflict.text()
    );
}

// Descriptors.

#[test]
fn closing_a_range_goes_round_the_reserved() {
    let plan = |first, last, flags| {
        close_range_preserving_event_fd(&[first, last, flags, 0, 0, 0], 7, &[9, 8, -1])
    };
    assert_eq!(
        plan(3, 20, 0),
        CloseRange::Plan {
            unshare: false,
            flags: 0,
            pieces: vec![(3, 6), (10, 20)]
        }
    );
    assert_eq!(
        plan(7, 9, 6),
        CloseRange::Plan {
            unshare: true,
            flags: 4,
            pieces: vec![]
        }
    );
    assert_eq!(
        plan(8, u64::from(u32::MAX), 4),
        CloseRange::Plan {
            unshare: false,
            flags: 4,
            pieces: vec![(10, u64::from(u32::MAX))]
        }
    );
    assert_eq!(plan(3, 20, 1), CloseRange::Invalid);
    assert_eq!(plan(3, 20, 8), CloseRange::Invalid);
    assert_eq!(invalid_range_result(), -i64::from(libc::EINVAL));
}

#[test]
fn operands_that_name_a_descriptor_are_found() {
    let targets = |number, args: [u64; 6]| syscall_targets_event_fd(number, &args, 7);
    assert!(targets(libc::SYS_write, [7, 0, 0, 0, 0, 0]));
    assert!(targets(libc::SYS_write, [7 | 1 << 32, 0, 0, 0, 0, 0]));
    assert!(!targets(libc::SYS_write, [8, 7, 7, 7, 7, 7]));
    assert!(targets(libc::SYS_dup2, [3, 7, 0, 0, 0, 0]));
    assert!(targets(libc::SYS_splice, [3, 0, 7, 0, 0, 0]));
    assert!(!targets(libc::SYS_splice, [3, 7, 0, 0, 0, 0]));
    let shared = libc::MAP_SHARED as u64;
    let anonymous = libc::MAP_ANONYMOUS as u64;
    assert!(targets(libc::SYS_mmap, [0, 0, 0, shared, 7, 0]));
    assert!(!targets(libc::SYS_mmap, [0, 0, 0, anonymous, 7, 0]));
    assert!(!targets(libc::SYS_getpid, [7; 6]));
}

#[test]
fn protected_descriptors_are_invisible() {
    let protect = |number, args: [u64; 6]| {
        protect_coordinator_channel(number, &args, &[-1, 7], &|_, _| Vec::new())
    };
    assert_eq!(
        protect(libc::SYS_close, [7, 0, 0, 0, 0, 0]),
        Protection::Answer(0)
    );
    assert_eq!(
        protect(libc::SYS_read, [7, 0, 0, 0, 0, 0]),
        Protection::Answer(-i64::from(libc::EBADF))
    );
    assert_eq!(
        protect(libc::SYS_close_range, [0, 9, 0, 0, 0, 0]),
        Protection::Close(CloseRange::Plan {
            unshare: false,
            flags: 0,
            pieces: vec![(0, 6), (8, 9)]
        })
    );
    assert_eq!(
        protect(libc::SYS_read, [8, 0, 0, 0, 0, 0]),
        Protection::Pass
    );
    assert_eq!(
        protect_compatibility_event_channel(
            libc::SYS_close,
            &[7 | 1 << 32, 0, 0, 0, 0, 0],
            7,
            &[-1]
        ),
        Protection::Pass
    );
}

#[test]
fn directories_that_are_protected_reach_the_kernel_as_none() {
    let forward = |number, args: [u64; 6]| forward_kernel_args(number, &args, &[7, -1]);
    let unchanged = [7, 1, 7, 1, 7, 1];
    assert_eq!(
        forward(libc::SYS_openat, unchanged),
        [u64::MAX, 1, 7, 1, 7, 1]
    );
    assert_eq!(
        forward(libc::SYS_renameat, unchanged),
        [u64::MAX, 1, u64::MAX, 1, 7, 1]
    );
    assert_eq!(forward(libc::SYS_read, unchanged), unchanged);
    let current = [libc::AT_FDCWD as u64, 1, 3, 0, 0, 0];
    assert_eq!(forward(libc::SYS_linkat, current), current);
    let negative = [u64::MAX, 1, 3, 0, 0, 0];
    assert_eq!(forward(libc::SYS_openat, negative), negative);
}

#[test]
fn slots_report_what_they_hold() {
    let mut slot = CoordinatorSlot::default();
    slot.reserve_coordinator_fd(5).unwrap();
    let conflict = slot.reserve_coordinator_fd(6).unwrap_err();
    assert_eq!(
        conflict.text(),
        "coordinator FD changed concurrently: expected -1, observed 5"
    );
    let conflict = slot.replace_coordinator_fd(4, 6).unwrap_err();
    assert_eq!((conflict.expected, conflict.observed), (4, 5));
    slot.replace_coordinator_fd(5, 6).unwrap();
    assert_eq!(slot.fd, 6);
}

// The mode.

#[test]
fn nothing_is_patched_without_patching() {
    let mut mode = ModeState::default();
    assert!(!mode.sud_only());
    assert!(mode.planning().is_ok() && mode.patching().is_ok() && mode.vdso_rewrite().is_ok());
    mode.installed();
    mode.select(SyscallMode::UserDispatchWithoutPatching);
    assert!(mode.sud_only());
    mode.record_sud();
    mode.record_sud();
    mode.record_deferred();
    for refused in [mode.planning(), mode.patching(), mode.vdso_rewrite()] {
        assert_eq!(
            refused.unwrap_err().text(),
            "guest patching is disabled in SUD-only mode"
        );
    }
    let stats = syscall_mode_stats(&mode);
    assert_eq!((stats.validated_sud, stats.deferred_sud), (2, 1));
    assert_eq!(stats.installed_patches, 1);
    assert_eq!(
        (
            stats.planning_attempts,
            stats.patch_attempts,
            stats.vdso_rewrite_attempts
        ),
        (2, 2, 2)
    );
    mode.select(SyscallMode::SeccompWithPatching);
    assert!(!mode.sud_only());
}

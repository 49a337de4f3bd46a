use liteinst_runtime::owned_context::enter_runtime;
use liteinst_runtime::owned_context::exit;
use liteinst_runtime::owned_context::exit::Binding;
use liteinst_runtime::owned_context::exit::BrokenCallback;
use liteinst_runtime::owned_context::exit::Outcome;
use liteinst_runtime::owned_context::native_step::fetch_with;
use liteinst_runtime::owned_context::native_step::History;
use liteinst_runtime::owned_context::native_step::HistoryError;
use liteinst_runtime::owned_context::native_step::NativeState;
use liteinst_runtime::owned_context::stack::check_size;
use liteinst_runtime::owned_context::stack::AllocationError;
use liteinst_runtime::owned_context::stack::StackAllocation;
use liteinst_runtime::owned_context::tls;
use liteinst_runtime::owned_context::Phase;

fn binding() -> Binding {
    Binding {
        owner: 5,
        generation: 7,
        number: libc::SYS_exit_group,
        site: 0x4000,
    }
}

#[test]
fn exit_requests_retain_kernel_operation_and_all_argument_bits() {
    for number in [libc::SYS_exit, libc::SYS_exit_group] {
        for status in [
            0,
            1,
            119,
            125,
            126,
            130,
            255,
            256,
            u64::MAX,
            0x9876_5432_0000_0007,
        ] {
            let args = [status, 11, 22, 33, 44, 55];
            let request = exit::authorize(Some(binding()), 5, 5, 5, 1, number, args).unwrap();
            assert_eq!(request.number, number);
            assert_eq!(request.args, args);
            assert!(request.matches(binding()));
        }
    }
}

#[test]
fn exit_requests_require_owned_binding_and_sole_root_tool_state() {
    for (root, tid, pid, states) in [
        (6, 5, 5, 1),
        (5, 6, 5, 1),
        (5, 5, 6, 1),
        (5, 5, 5, 0),
        (5, 5, 5, 2),
    ] {
        assert!(
            exit::authorize(
                Some(binding()),
                root,
                tid,
                pid,
                states,
                libc::SYS_exit,
                [0; 6]
            )
            .is_err()
        );
    }
    assert!(exit::authorize(None, 5, 5, 5, 1, libc::SYS_exit_group, [0; 6]).is_err());
    for invalid in [
        Binding {
            owner: 0,
            ..binding()
        },
        Binding {
            generation: 0,
            ..binding()
        },
        Binding {
            site: 0,
            ..binding()
        },
    ] {
        assert!(exit::authorize(Some(invalid), 5, 5, 5, 1, libc::SYS_exit, [0; 6]).is_err());
    }
    assert!(exit::authorize(Some(binding()), 5, 5, 5, 1, libc::SYS_write, [0; 6]).is_err());
}

#[test]
fn exit_consumption_rejects_every_stale_binding_field() {
    let request = exit::authorize(Some(binding()), 5, 5, 5, 1, libc::SYS_exit, [0; 6]).unwrap();
    for other in [
        Binding {
            owner: 6,
            ..binding()
        },
        Binding {
            generation: 8,
            ..binding()
        },
        Binding {
            number: libc::SYS_getpid,
            ..binding()
        },
        Binding {
            site: 0x4002,
            ..binding()
        },
    ] {
        assert!(!request.matches(other));
    }
}

#[test]
fn exits_use_up_the_binding_and_anything_else_returns() {
    let authorized = || {
        exit::authorize(Some(binding()), 5, 5, 5, 1, libc::SYS_exit, [3; 6]).unwrap()
    };
    assert_eq!(
        exit::finish_dispatch(Some(authorized()), None, false),
        Ok(Outcome::Exit(authorized()))
    );
    for (result, bound) in [(Some(0), false), (None, true)] {
        let broken = exit::finish_dispatch(Some(authorized()), result, bound).unwrap_err();
        assert_eq!(broken.stage(), "owned-exit/outcome");
    }
    assert_eq!(
        exit::finish_dispatch(None, Some(-9), true),
        Ok(Outcome::Returned(-9))
    );
    let broken = exit::finish_dispatch(None, None, true).unwrap_err();
    assert_eq!(broken, BrokenCallback::Unset);
    assert_eq!(broken.stage(), "owned-syscall/unset-result");
    assert!(exit::operation(libc::SYS_exit_group));
    assert!(!exit::operation(libc::SYS_write));
}

#[test]
fn unit_support_has_no_tls_owner_or_provider_access() {
    let before = tls::State {
        private: [0; 2],
        guest: [0; 2],
        owner: 0,
        phase: 0,
        deferred: 0,
    };
    for operation in 0x1001..=0x1004 {
        assert_eq!(
            tls::execute_with(before, 51, Phase::Runtime, operation, 0x1000, || {
                panic!("unavailable TLS reached provider")
            }),
            Err("TLS owner/continuation unavailable")
        );
    }
}

#[test]
fn retained_return_owner_changes_only_after_verified_kernel_success() {
    for (operation, index) in [(0x1002, 0), (0x1001, 1)] {
        let before = tls_initial();
        let mut control = before;
        let mut after = before;
        after.guest[index] = 0x2000;
        assert_eq!(
            tls::publish(
                &mut control,
                before,
                operation,
                0x2000,
                tls::Observation {
                    result: 0,
                    guest: after.guest
                }
            ),
            Ok(0)
        );
        assert_eq!(control, after);
        assert!(
            tls::publish(
                &mut control,
                before,
                operation,
                0x2000,
                tls::Observation {
                    result: 0,
                    guest: after.guest
                }
            )
            .is_err()
        );
        assert_eq!(control, after);
    }
}

#[test]
fn failed_and_inconsistent_results_never_change_retained_owner() {
    let before = tls_initial();
    let mut control = before;
    for operation in 0x1001..=0x1004 {
        assert_eq!(
            tls::publish(
                &mut control,
                before,
                operation,
                0x2000,
                tls::Observation {
                    result: -i64::from(libc::EFAULT),
                    guest: before.guest
                }
            ),
            Ok(-i64::from(libc::EFAULT))
        );
        assert_eq!(control, before);
        assert!(
            tls::publish(
                &mut control,
                before,
                operation,
                0x2000,
                tls::Observation {
                    result: -i64::from(libc::EFAULT),
                    guest: [0x2000, 0x2000]
                }
            )
            .is_err()
        );
        assert_eq!(control, before);
    }
}

fn tls_initial() -> tls::State {
    tls::State {
        private: [0x9000, 0xa000],
        guest: [0, 0],
        owner: 51,
        phase: 2,
        deferred: 1,
    }
}

#[test]
fn set_success_changes_only_selected_guest_base() {
    for (operation, index) in [(0x1001, 1), (0x1002, 0)] {
        for argument in [0, 0x1000, 0x2000, 0x4000, 0xa000] {
            let before = tls_initial();
            let mut guest = before.guest;
            guest[index] = argument;
            let observed = tls::execute_with(
                before,
                51,
                Phase::Runtime,
                operation,
                argument,
                || tls::Observation { result: 0, guest },
            )
            .unwrap();
            assert_eq!(observed.guest, guest);
            assert_eq!(before.private, [0x9000, 0xa000]);
            let mut wrong = before.guest;
            wrong[index] = argument ^ 1;
            assert!(
                tls::completion(
                    before,
                    operation,
                    argument,
                    tls::Observation {
                        result: 0,
                        guest: wrong
                    }
                )
                .is_err()
            );
        }
    }
}

#[test]
fn kernel_failures_leave_guest_bases_and_exact_errno_unchanged() {
    for operation in 0x1001..=0x1004 {
        for result in [
            -i64::from(libc::EPERM),
            -i64::from(libc::EFAULT),
            -i64::from(libc::EINTR),
            -4095,
        ] {
            let expected = tls::Observation {
                result,
                guest: tls_initial().guest,
            };
            assert_eq!(
                tls::execute_with(
                    tls_initial(),
                    51,
                    Phase::Runtime,
                    operation,
                    0x1000,
                    || expected
                ),
                Ok(expected)
            );
            assert!(
                tls::completion(
                    tls_initial(),
                    operation,
                    0x1000,
                    tls::Observation {
                        result,
                        guest: [0x1000, 0]
                    }
                )
                .is_err()
            );
        }
    }
}

#[test]
fn get_uses_kernel_output_without_adopting_private_bases() {
    for operation in [0x1003, 0x1004] {
        let mut before = tls_initial();
        before.guest = [0x1100, 0x1200];
        assert_eq!(
            tls::execute_with(before, 51, Phase::Runtime, operation, 0x17fc, || {
                tls::Observation {
                    result: 0,
                    guest: before.guest,
                }
            })
            .unwrap()
            .guest,
            before.guest
        );
        assert!(
            tls::completion(
                before,
                operation,
                0x17fc,
                tls::Observation {
                    result: 0,
                    guest: before.private
                }
            )
            .is_err()
        );
    }
}

#[test]
fn ownership_and_lifecycle_refuse_before_provider() {
    let mut cases = vec![
        (tls_initial(), 52, Phase::Runtime),
        (tls_initial(), -1, Phase::Runtime),
    ];
    for phase in [
        Phase::Idle,
        Phase::Captured,
        Phase::Returning,
        Phase::Failed,
    ] {
        cases.push((tls_initial(), 51, phase));
    }
    for field in 0..5 {
        let mut changed = tls_initial();
        match field {
            0 => changed.phase = 0,
            1 => changed.deferred = 0,
            2 => changed.owner = 0,
            3 => changed.private[0] = 0,
            _ => changed.guest[0] = changed.private[0],
        }
        cases.push((changed, 51, Phase::Runtime));
    }
    for (state, tid, phase) in cases {
        assert!(
            tls::execute_with(state, tid, phase, 0x1002, 0x1000, || panic!(
                "provider must not run"
            ))
            .is_err()
        );
    }
}

#[test]
fn unsupported_modes_never_reach_kernel() {
    for operation in [0, 0x1011, 0x1012, 0x1022, 0x1023, 0x3001, u64::MAX] {
        assert!(
            tls::execute_with(
                tls_initial(),
                51,
                Phase::Runtime,
                operation,
                0x1000,
                || panic!("unsupported operation reached kernel")
            )
            .is_err()
        );
    }
}

#[test]
fn only_private_fs_collision_is_refused_before_kernel_base_validation() {
    for operation in [0x1001, 0x1002] {
        for address in [0, 0x1000, 0x4000, 0xa000, 1 << 47, u64::MAX] {
            assert!(tls::request(tls_initial(), operation, address).is_ok());
        }
    }
    assert!(tls::request(tls_initial(), 0x1001, 0x9000).is_ok());
    assert_eq!(
        tls::request(tls_initial(), 0x1002, 0x9000),
        Err("guest/private FS identity collision")
    );
    assert!(
        tls::execute_with(
            tls_initial(),
            51,
            Phase::Runtime,
            0x1002,
            0x9000,
            || panic!("private FS collision reached provider")
        )
        .is_err()
    );
}

#[test]
fn get_fault_results_are_not_replaced_by_userspace_mappedness_checks() {
    for operation in [0x1003, 0x1004] {
        for address in [0, 0xfff, 0x1ff9, 0x2000, u64::MAX - 3] {
            let observed = tls::Observation {
                result: -i64::from(libc::EFAULT),
                guest: tls_initial().guest,
            };
            assert_eq!(
                tls::execute_with(
                    tls_initial(),
                    51,
                    Phase::Runtime,
                    operation,
                    address,
                    || observed
                ),
                Ok(observed)
            );
        }
    }
}

#[test]
fn unexplained_success_or_error_does_not_publish_state() {
    for result in [1, 42, -4096, i64::MIN] {
        assert!(
            tls::completion(
                tls_initial(),
                0x1002,
                0x1000,
                tls::Observation {
                    result,
                    guest: [0x1000, 0]
                }
            )
            .is_err()
        );
    }
    assert!(
        tls::completion(
            tls_initial(),
            0x1002,
            0x1000,
            tls::Observation {
                result: 0,
                guest: [0x1000, 0x2000]
            }
        )
        .is_err()
    );
}

#[test]
fn bases_are_told_to_the_owner_alone() {
    let mut state = tls_initial();
    state.guest = [0x1100, 0x1200];
    assert_eq!(tls::bases(state, 51, Phase::Runtime), Ok([0x1100, 0x1200]));
    assert!(tls::bases(state, 52, Phase::Runtime).is_err());
    assert!(tls::bases(state, 51, Phase::Idle).is_err());
    assert!(tls::owned(state, 51, Phase::Runtime));
}

#[test]
fn one_thread_phase_transitions_and_stale_dispatch_rejection() {
    let mut phase = Phase::Captured;
    assert!(enter_runtime(&mut phase));
    assert_eq!(phase, Phase::Runtime);
    for stale in [
        Phase::Idle,
        Phase::Runtime,
        Phase::Returning,
        Phase::Failed,
        Phase::Terminating,
    ] {
        phase = stale;
        assert!(!enter_runtime(&mut phase));
    }
    phase = Phase::Captured;
    assert!(enter_runtime(&mut phase));
    phase = Phase::Returning;
    assert_eq!(phase, Phase::Returning);
}

#[test]
fn exact_zeroed_geometry_and_release() {
    let allocation = StackAllocation::allocate(1024 * 1024, 0x7000_0010).unwrap();
    let range = allocation.range();
    assert_eq!(range.len(), 1024 * 1024);
    assert_eq!(range.start % 16, 0);
    assert_eq!(range.start, 0x7000_0010);
    assert_eq!(allocation.leak(), range);
}

#[test]
fn invalid_and_failed_allocations_are_fallible() {
    assert!(StackAllocation::allocate(0, 0).is_err());
    assert!(StackAllocation::allocate(usize::MAX, 0).is_err());
    let error = StackAllocation::allocate(4096, 0).unwrap_err();
    assert_eq!(error, AllocationError::OutOfMemory);
    assert_eq!(check_size(0), Err(AllocationError::InvalidSize));
    assert_eq!(check_size(isize::MAX as usize - 15), Ok(()));
    assert_eq!(
        check_size(isize::MAX as usize - 14),
        Err(AllocationError::InvalidSize)
    );
}

#[test]
fn fetch_reads_only_admitted_bytes_and_joins_adjacent_ranges() {
    for (ranges, expected) in [
        (vec![0x1000..0x1001], 1),
        (vec![0x1000..0x1001, 0x1002..0x1003], 1),
        (vec![0x1000..0x1001, 0x1001..0x100f], 15),
    ] {
        let observed = std::cell::RefCell::new(Vec::new());
        let (_, length) = fetch_with(&ranges, 0x1000, |address| {
            observed.borrow_mut().push(address);
            0x90
        })
        .unwrap();
        assert_eq!(length, expected);
        assert_eq!(
            observed.into_inner(),
            (0x1000..0x1000 + expected as u64).collect::<Vec<_>>()
        );
    }
    assert!(fetch_with(&[0..u64::MAX], u64::MAX, |_| panic!("unadmitted read")).is_none());
}

#[test]
fn nothing_is_read_where_nothing_is_admitted() {
    assert!(fetch_with(&[0..16], 0, |_| panic!("read at zero")).is_none());
    assert!(fetch_with(&[], 0x1000, |_| panic!("read without a range")).is_none());
    assert!(fetch_with(&[0x1001..0x1010], 0x1000, |_| panic!("read behind a gap")).is_none());
    let end = 1_u64 << 47;
    let (bytes, length) = fetch_with(&[0..u64::MAX], end - 2, |address| {
        assert!(address < end);
        0x90
    })
    .unwrap();
    assert_eq!(length, 2);
    assert_eq!(bytes[..3], [0x90, 0x90, 0]);
}

#[test]
fn insufficient_history_is_terminal_and_preserves_the_prefix() {
    let mut history = History::new(80).unwrap();
    history.append([1; 8], &[2; 16]).unwrap();
    let prefix = history.bytes().to_vec();
    assert!(history.append([3; 8], &[4]).is_none());
    assert!(history.failed());
    assert!(history.append([5; 8], &[]).is_none());
    assert_eq!(history.bytes(), prefix);
    assert_eq!(history.records(), 1);
}

#[test]
fn histories_have_a_sensible_size() {
    assert_eq!(History::new(63).unwrap_err(), HistoryError::InvalidInput);
    assert_eq!(
        History::new(0x400_0001).unwrap_err(),
        HistoryError::InvalidInput
    );
    assert!(History::new(64).unwrap().bytes().is_empty());
    assert!(NativeState::new(0).unwrap().history.is_none());
    assert_eq!(NativeState::new(1).unwrap_err(), HistoryError::InvalidInput);
    let mut history = History::new(81).unwrap();
    history.append([0x0102_0304_0506_0708; 8], &[9; 17]).unwrap();
    assert_eq!(history.bytes()[..8], [8, 7, 6, 5, 4, 3, 2, 1]);
    assert_eq!(history.bytes()[64..], [9; 17]);
}

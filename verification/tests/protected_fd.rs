//! Descriptors that guests pass through memory.

use std::collections::BTreeMap;

use liteinst_runtime::protected_fd::batch_args;
use liteinst_runtime::protected_fd::check;
use liteinst_runtime::protected_fd::indirect_result;
use liteinst_runtime::protected_fd::offset;
use liteinst_runtime::protected_fd::sendmsg_refusal;
use liteinst_runtime::protected_fd::sendmsg_validation_args;
use liteinst_runtime::protected_fd::validation_result;
use liteinst_runtime::protected_fd::Batch;
use liteinst_runtime::runtime::descriptors::protect_coordinator_channel;
use liteinst_runtime::runtime::descriptors::Protection;
use liteinst_runtime::runtime::dispatch::guard_syscall;
use liteinst_runtime::runtime::dispatch::GuardedRoute;

/// A guest's memory, one byte at a time.
#[derive(Default)]
struct Guest {
    bytes: BTreeMap<u64, u8>,
}

impl Guest {
    fn put(&mut self, address: u64, bytes: &[u8]) {
        for (index, byte) in bytes.iter().enumerate() {
            self.bytes.insert(address + index as u64, *byte);
        }
    }

    fn put_words(&mut self, address: u64, words: &[u64]) {
        for (index, word) in words.iter().enumerate() {
            self.put(address + 8 * index as u64, &word.to_le_bytes());
        }
    }

    fn put_halves(&mut self, address: u64, words: &[u32]) {
        for (index, word) in words.iter().enumerate() {
            self.put(address + 4 * index as u64, &word.to_le_bytes());
        }
    }

    /// The bytes that can be read from `address` on, up to `length` of them.
    fn read(&self, address: u64, length: usize) -> Vec<u8> {
        (0..length as u64)
            .map_while(|index| self.bytes.get(&address.checked_add(index)?).copied())
            .collect()
    }
}

const MESSAGE: u64 = 0x1000;
const CONTROL: u64 = 0x2000;

/// A message with one control record that hands `descriptors` over.
fn rights(guest: &mut Guest, message: u64, control: u64, descriptors: &[i32]) {
    let length = 16 + 4 * descriptors.len() as u64;
    let room = length.next_multiple_of(8);
    guest.put_words(control, &vec![0; room as usize / 8]);
    guest.put_words(control, &[length]);
    guest.put_halves(
        control + 8,
        &[libc::SOL_SOCKET as u32, libc::SCM_RIGHTS as u32],
    );
    for (index, fd) in descriptors.iter().enumerate() {
        guest.put_halves(control + 16 + 4 * index as u64, &[*fd as u32]);
    }
    guest.put_words(message, &[0, 0, 0, 0, control, room, 0]);
}

#[test]
fn guest_log_scm_rights_checks_only_transferred_descriptors() {
    for fd in [201_i32, 202] {
        let mut guest = Guest::default();
        rights(&mut guest, MESSAGE, CONTROL, &[fd]);
        let result = indirect_result(
            libc::SYS_sendmsg,
            &[10, MESSAGE, 0, 0, 0, 0],
            &[202],
            &|address, length| guest.read(address, length),
        );
        assert_eq!(
            result,
            if fd == 202 {
                Some(-i64::from(libc::EBADF))
            } else {
                None
            }
        );
    }
}

#[test]
fn guest_log_aio_and_ring_registration_neighboring_fds() {
    let context = 0x9000;
    let nothing = Guest::default();
    for fd in [201_i32, 202] {
        let expected = if fd == 202 {
            Some(-i64::from(libc::EBADF))
        } else {
            None
        };
        let mut guest = Guest::default();
        let mut request = [0_u32; 16];
        request[5] = fd as u32;
        guest.put_halves(0x3000, &request);
        guest.put_words(0x4000, &[0x3000]);
        let refused = match batch_args(
            libc::SYS_io_submit,
            &[context, 1, 0x4000, 0, 0, 0],
            &[202],
            &|address, length| guest.read(address, length),
        ) {
            Batch::Forward(args) => {
                assert_eq!(args, [context, 1, 0x4000, 0, 0, 0]);
                None
            }
            Batch::Validate(args) => {
                assert_eq!(args, [context, 0, 0x4000, 0, 0, 0]);
                Some(validation_result(0))
            }
        };
        assert_eq!(refused, expected);
        guest.put_halves(0x5000, &[fd as u32, -1_i32 as u32, -2_i32 as u32]);
        assert_eq!(
            indirect_result(
                libc::SYS_io_uring_register,
                &[10, 2, 0x5000, 3, 0, 0],
                &[202],
                &|address, length| guest.read(address, length),
            ),
            expected
        );
        assert_eq!(
            indirect_result(
                libc::SYS_io_uring_register,
                &[10, 0, 0, 0, 0, 0],
                &[202],
                &|address, length| guest.read(address, length),
            ),
            None
        );
    }
    assert_eq!(
        indirect_result(
            libc::SYS_sendmsg,
            &[10, 1, 0, 0, 0, 0],
            &[202],
            &|address, length| nothing.read(address, length),
        ),
        Some(-i64::from(libc::EFAULT))
    );
}

/// Sends through a pointer that cannot be read, where the kernel itself answers the
/// validation with `native`.
fn bad_pointer(descriptor: i32, native: i64) {
    let nothing = Guest::default();
    for pointer in [0, 1, usize::MAX as u64] {
        let args = [descriptor as u64, pointer, 0, 0, 0, 0];
        let route = guard_syscall(
            libc::SYS_sendmsg,
            &args,
            &[202],
            &[202],
            &|address, length| nothing.read(address, length),
        );
        match route {
            GuardedRoute::Protect(Protection::Validate {
                args: probe,
                refusal,
            }) => {
                assert_eq!(probe, sendmsg_validation_args(&args));
                assert_eq!(
                    sendmsg_refusal(refusal, native),
                    native,
                    "msghdr={pointer:#x}"
                );
            }
            other => panic!("{other:?}"),
        }
    }
}

#[test]
fn invalid_fd_before_bad_pointer() {
    bad_pointer(-1, -i64::from(libc::EBADF));
}

#[test]
fn regular_file_before_bad_pointer() {
    bad_pointer(5, -i64::from(libc::ENOTSOCK));
}

#[test]
fn socket_bad_pointer() {
    let args = [
        37,
        0x1234,
        (libc::MSG_DONTWAIT | libc::MSG_NOSIGNAL) as u64,
        4,
        5,
        6,
    ];
    let probe = sendmsg_validation_args(&args);
    assert_eq!(probe, [args[0], usize::MAX as u64, args[2], 0, 0, 0]);
    let address = usize::try_from(probe[1]).unwrap();
    assert!(
        address
            .checked_add(std::mem::size_of::<libc::msghdr>())
            .is_none(),
        "validation msghdr must overflow the address space: {address:#x}"
    );
    bad_pointer(37, -i64::from(libc::EFAULT));
}

#[test]
fn protected_rights_are_refused_as_the_kernel_refuses_the_destination() {
    let mut guest = Guest::default();
    rights(&mut guest, MESSAGE, CONTROL, &[202]);
    let args = [10, MESSAGE, 0, 0, 0, 0];
    match protect_coordinator_channel(libc::SYS_sendmsg, &args, &[202], &|address, length| {
        guest.read(address, length)
    }) {
        Protection::Validate {
            args: probe,
            refusal,
        } => {
            assert_eq!(probe, [10, u64::MAX, 0, 0, 0, 0]);
            assert_eq!(refusal, -i64::from(libc::EBADF));
            // A socket: the probe itself faults, and the refusal stands.
            assert_eq!(
                sendmsg_refusal(refusal, -i64::from(libc::EFAULT)),
                -i64::from(libc::EBADF)
            );
            // Anything else: the kernel's own complaint comes first.
            assert_eq!(
                sendmsg_refusal(refusal, -i64::from(libc::ENOTSOCK)),
                -i64::from(libc::ENOTSOCK)
            );
        }
        other => panic!("{other:?}"),
    }
}

#[test]
fn batches_are_cut_before_the_first_protected_entry() {
    let mut guest = Guest::default();
    for (index, fd) in [5, 6, 202, 7].into_iter().enumerate() {
        let index = index as u64;
        rights(
            &mut guest,
            MESSAGE + 64 * index,
            CONTROL + 64 * index,
            &[fd],
        );
    }
    let read = |address, length| guest.read(address, length);
    let args = [10, MESSAGE, 4, 0, 0, 0];
    assert!(matches!(
        batch_args(libc::SYS_sendmmsg, &args, &[202], &read),
        Batch::Forward([10, MESSAGE, 2, 0, 0, 0])
    ));
    assert!(matches!(
        batch_args(libc::SYS_sendmmsg, &args, &[5], &read),
        Batch::Validate([10, MESSAGE, 0, 0, 0, 0])
    ));
    assert!(matches!(
        batch_args(libc::SYS_sendmmsg, &args, &[-1], &read),
        Batch::Forward([10, MESSAGE, 4, 0, 0, 0])
    ));
    assert!(matches!(
        batch_args(libc::SYS_write, &args, &[202], &read),
        Batch::Forward([10, MESSAGE, 4, 0, 0, 0])
    ));
}

#[test]
fn validations_keep_the_kernels_error() {
    assert_eq!(
        validation_result(-i64::from(libc::ENOTSOCK)),
        -i64::from(libc::ENOTSOCK)
    );
    assert_eq!(validation_result(0), -i64::from(libc::EBADF));
}

#[test]
fn single_descriptors_and_offsets_are_checked() {
    assert_eq!(check(202, &[201, 202]), Err(libc::EBADF));
    assert_eq!(check(200, &[201, 202]), Ok(()));
    assert_eq!(check(-1, &[-1]), Ok(()));
    assert_eq!(offset(0x1000, 3, 64), Ok(0x10c0));
    assert_eq!(offset(u64::MAX, 1, 8), Err(libc::EFAULT));
    assert_eq!(offset(0, u64::MAX, 8), Err(libc::EFAULT));
}

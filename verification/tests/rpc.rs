//! Coordinator connections, the resources that they hold, and their addresses.

use liteinst_runtime::rpc::allows_channel_io;
use liteinst_runtime::rpc::current_id;
use liteinst_runtime::rpc::resources::AcquireError;
use liteinst_runtime::rpc::resources::Drain;
use liteinst_runtime::rpc::resources::Resources;
use liteinst_runtime::rpc::stream::closed;
use liteinst_runtime::rpc::stream::native_result;
use liteinst_runtime::rpc::stream::publish;
use liteinst_runtime::rpc::stream::socket_address;
use liteinst_runtime::rpc::stream::SocketName;
use liteinst_runtime::rpc::ChannelIoGuard;
use liteinst_runtime::rpc::CoordinatorRpc;
use liteinst_runtime::rpc::Reconnect;
use liteinst_runtime::rpc::TrustedChannel;
use liteinst_runtime::runtime::descriptors::protect_coordinator_channel;
use liteinst_runtime::runtime::descriptors::CoordinatorSlot;
use liteinst_runtime::runtime::descriptors::Protection;

fn protected(slot: &CoordinatorSlot, fd: i32) -> bool {
    protect_coordinator_channel(
        libc::SYS_read,
        &[fd as u64, 0, 0, 0, 0, 0],
        &[slot.fd],
        &|_, _| Vec::new(),
    ) == Protection::Answer(-i64::from(libc::EBADF))
}

#[test]
fn bootstrap_connect_error_retires_published_resource() {
    let mut resources: Resources<u32> = Resources::new();
    let mut slot = CoordinatorSlot::default();
    let lease = resources.acquire().unwrap();
    let fd = 5;
    let published = publish(&mut slot, fd);
    assert!(published && protected(&slot, fd));
    let error = native_result(-i64::from(libc::ENOENT)).unwrap_err();
    assert_eq!(error, libc::ENOENT);
    closed(&mut resources, &lease, &mut slot, fd, published, 0);
    assert_eq!(resources.release(lease), None);
    assert!(!protected(&slot, fd));
    assert_eq!(resources.active(), 0);
    resources.close();
    assert!(matches!(resources.drain(1), Drain::Finished(Ok(()))));
}

#[test]
fn resource_terminal_lease_is_separate_and_wake_is_outside_lock() {
    let mut resources: Resources<u32> = Resources::new();
    let pending = resources.acquire().unwrap();
    let terminal = resources.acquire().unwrap();
    resources.close();
    assert!(matches!(resources.drain(1), Drain::Pending(None)));
    assert_eq!(resources.release(pending), None);
    assert_eq!(resources.active(), 1);
    assert!(matches!(resources.drain(2), Drain::Pending(Some(1))));
    let woken = resources.release(terminal);
    assert_eq!(woken, Some(2));
    assert_eq!(resources.active(), 0);
    assert!(resources.acquire().is_err());
    assert!(matches!(resources.drain(3), Drain::Finished(Ok(()))));
}

#[test]
fn failed_resource_cleanup_is_not_successful_drain() {
    let mut resources: Resources<u32> = Resources::new();
    let pending = resources.acquire().unwrap();
    resources.failed(&pending, libc::EIO);
    assert!(resources.acquire().is_err());
    resources.close();
    resources.release(pending);
    assert!(matches!(
        resources.drain(1),
        Drain::Finished(Err(libc::EIO))
    ));
}

#[test]
fn leases_run_out_and_open_resources_do_not_drain() {
    let mut resources: Resources<u32> = Resources::new();
    assert!(matches!(resources.drain(1), Drain::Open));
    resources.active = usize::MAX;
    assert!(matches!(resources.acquire(), Err(AcquireError::Exhausted)));
    resources.active = 0;
    resources.close();
    assert!(matches!(resources.acquire(), Err(AcquireError::Closed)));
}

#[test]
fn failed_closes_poison_the_resources_and_free_the_slot() {
    let mut resources: Resources<u32> = Resources::new();
    let mut slot = CoordinatorSlot::default();
    let lease = resources.acquire().unwrap();
    assert!(publish(&mut slot, 5));
    closed(
        &mut resources,
        &lease,
        &mut slot,
        5,
        true,
        -i64::from(libc::EBADF),
    );
    assert_eq!(resources.failure, Some(libc::EBADF));
    resources.release(lease);
    resources.close();
    assert!(matches!(
        resources.drain(1),
        Drain::Finished(Err(libc::EBADF))
    ));
}

#[test]
fn a_taken_slot_is_not_published_over() {
    let mut slot = CoordinatorSlot::default();
    assert!(publish(&mut slot, 5));
    assert!(!publish(&mut slot, 6));
    assert!(protected(&slot, 5) && !protected(&slot, 6));
}

#[test]
fn native_results_split_into_counts_and_errors() {
    assert_eq!(native_result(17), Ok(17));
    assert_eq!(native_result(0), Ok(0));
    assert_eq!(native_result(-1), Err(libc::EPERM));
}

#[test]
fn socket_addresses_have_the_kernels_layout() {
    let (address, length) = socket_address(SocketName::Path(b"/run/x"));
    assert_eq!(&address[..2], &(libc::AF_UNIX as u16).to_le_bytes());
    assert_eq!(&address[2..9], b"/run/x\0");
    assert_eq!(length, 2 + 6 + 1);
    let (address, length) = socket_address(SocketName::Abstract(b"hidden"));
    assert_eq!(&address[2..9], b"\0hidden");
    assert_eq!(length, 2 + 1 + 6);
    assert_eq!(
        address.len(),
        std::mem::size_of::<libc::sockaddr_un>()
    );
}

#[test]
fn channel_io_is_allowed_inside_its_guard_only() {
    let mut channel = TrustedChannel::default();
    assert!(!allows_channel_io(&channel, libc::SYS_write, 5));
    let guard = ChannelIoGuard::enter(&mut channel, 5);
    for number in [libc::SYS_read, libc::SYS_write] {
        assert!(allows_channel_io(&channel, number, 5));
        assert!(!allows_channel_io(&channel, number, 6));
    }
    assert!(!allows_channel_io(&channel, libc::SYS_close, 5));
    let inner = ChannelIoGuard::enter(&mut channel, 6);
    assert!(!allows_channel_io(&channel, libc::SYS_write, 5));
    inner.leave(&mut channel);
    assert!(allows_channel_io(&channel, libc::SYS_write, 5));
    guard.leave(&mut channel);
    assert!(!allows_channel_io(&channel, libc::SYS_write, 5));
}

#[test]
fn identities_are_positive() {
    assert_eq!(current_id(7), Some(7));
    assert_eq!(current_id(0), None);
    assert_eq!(current_id(-1), None);
}

#[test]
fn children_reconnect_before_they_are_served() {
    let mut slot = CoordinatorSlot { fd: 5 };
    let mut rpc = CoordinatorRpc::connect(10, 10, 5);
    assert_eq!((rpc.raw_fd(), rpc.identity()), (5, (10, 10)));
    assert_eq!(
        rpc.reconnect_after_fork(Some(10), Some(10)),
        Reconnect::Keep
    );
    rpc.note_fork_in_child();
    assert!(rpc.must_identify());
    assert_eq!(
        rpc.reconnect_after_fork(Some(11), Some(11)),
        Reconnect::Connect { pid: 11, tid: 11 }
    );
    assert_eq!(rpc.reconnected(&mut slot, 11, 11, Some(6)), Ok(()));
    assert_eq!((rpc.raw_fd(), rpc.identity(), slot.fd), (6, (11, 11), 6));
    assert!(rpc.retire().is_ok());
    assert!(rpc.retire().is_err());
}

#[test]
fn children_without_an_identity_or_a_connection_end() {
    let mut rpc = CoordinatorRpc::connect(10, 10, 5);
    rpc.note_fork_in_child();
    assert_eq!(
        rpc.reconnect_after_fork(None, Some(11)),
        Reconnect::Fatal(122)
    );
    let mut rpc = CoordinatorRpc::connect(10, 10, 5);
    let mut slot = CoordinatorSlot { fd: 5 };
    rpc.note_fork_in_child();
    rpc.reconnect_after_fork(Some(11), Some(11));
    assert_eq!(rpc.reconnected(&mut slot, 11, 11, None), Err(123));
}

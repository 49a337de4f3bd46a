//! What the coordinator connection promises.

use vstd::prelude::*;

use crate::rpc::allows_channel_io;
use crate::rpc::current_id;
use crate::rpc::AlreadyRetired;
use crate::rpc::ChannelIoGuard;
use crate::rpc::CoordinatorRpc;
use crate::rpc::Reconnect;
use crate::rpc::TrustedChannel;
use crate::runtime::descriptors::CoordinatorSlot;

verus! {

/// Trust in a descriptor lasts for its scope, and the scope puts back what was trusted before.
pub proof fn trust_lasts_for_its_scope(
    channel: &mut TrustedChannel,
    inside: &mut TrustedChannel,
    fd: i32,
    guard: ChannelIoGuard,
)
    requires
        call_ensures(ChannelIoGuard::enter, (channel, fd), guard),
        *old(inside) == *final(channel),
        call_ensures(ChannelIoGuard::leave, (guard, inside), ()),
    ensures
        final(channel).fd == fd,
        final(inside).fd == old(channel).fd,
{
}

/// Channel I/O is a read, a write, or their socket and vector forms, on the very descriptor
/// that is trusted.
pub proof fn only_the_trusted_descriptor_is_free(
    channel: TrustedChannel,
    number: i64,
    fd: i32,
    result: bool,
)
    requires
        call_ensures(allows_channel_io, (&channel, number, fd), result),
    ensures
        result <==> fd >= 0 && fd == channel.fd && (number == 0 || number == 1 || number == 19
            || number == 20 || number == 44 || number == 45 || number == 46 || number == 47),
{
}

/// An identity is a positive number.
pub proof fn identities_are_positive(result: i64, id: Option<i32>)
    requires
        result <= i32::MAX,
        call_ensures(current_id, (result,), id),
    ensures
        id is Some <==> result > 0,
        id matches Some(id) ==> id == result,
{
}

/// A fresh connection is its process's own, and says so.
pub proof fn fresh_connections_are_their_own(
    pid: i32,
    tid: i32,
    fd: i32,
    rpc: CoordinatorRpc,
    raw: i32,
    identity: (i32, i32),
    forked: bool,
)
    requires
        call_ensures(CoordinatorRpc::connect, (pid, tid, fd), rpc),
        call_ensures(CoordinatorRpc::raw_fd, (&rpc,), raw),
        call_ensures(CoordinatorRpc::identity, (&rpc,), identity),
        call_ensures(CoordinatorRpc::must_identify, (&rpc,), forked),
    ensures
        raw == fd,
        identity.0 == pid,
        identity.1 == tid,
        !forked,
        rpc.connection == Some(pid),
{
}

/// A forked child keeps a connection that is its own, connects anew under its own identity where
/// it is its parent's, and ends where it does not know who it is; without a fork nothing is to
/// be done. Either way the fork is dealt with.
pub proof fn forked_children_connect_anew(
    forked: &mut CoordinatorRpc,
    rpc: &mut CoordinatorRpc,
    pid: Option<i32>,
    tid: Option<i32>,
    must: bool,
    reconnect: Reconnect,
)
    requires
        call_ensures(CoordinatorRpc::note_fork_in_child, (forked,), ()),
        *old(rpc) == *final(forked),
        call_ensures(CoordinatorRpc::must_identify, (&*old(rpc),), must),
        call_ensures(CoordinatorRpc::reconnect_after_fork, (rpc, pid, tid), reconnect),
    ensures
        must,
        *final(forked) == (CoordinatorRpc { forked: true, ..*old(forked) }),
        *final(rpc) == (CoordinatorRpc { forked: false, ..*old(forked) }),
        reconnect is Keep <==> pid is Some && old(forked).connection == pid,
        reconnect is Connect <==> pid is Some && old(forked).connection is Some
            && old(forked).connection != pid && tid is Some,
        reconnect matches Reconnect::Connect { pid: new_pid, tid: new_tid } ==> pid == Some(new_pid)
            && tid == Some(new_tid),
        reconnect matches Reconnect::Fatal(status) ==> status == 122,
{
}

/// Without a fork a connection is kept.
pub proof fn unforked_connections_are_kept(
    rpc: &mut CoordinatorRpc,
    pid: Option<i32>,
    tid: Option<i32>,
    reconnect: Reconnect,
)
    requires
        !old(rpc).forked,
        call_ensures(CoordinatorRpc::reconnect_after_fork, (rpc, pid, tid), reconnect),
    ensures
        reconnect is Keep,
        *final(rpc) == *old(rpc),
{
}

/// A connection is given up once.
pub proof fn connections_are_retired_once(
    rpc: &mut CoordinatorRpc,
    again: &mut CoordinatorRpc,
    first: Result<(), AlreadyRetired>,
    second: Result<(), AlreadyRetired>,
)
    requires
        call_ensures(CoordinatorRpc::retire, (rpc,), first),
        *old(again) == *final(rpc),
        call_ensures(CoordinatorRpc::retire, (again,), second),
    ensures
        first is Ok <==> old(rpc).connection is Some,
        final(rpc).connection is None,
        first is Ok ==> final(rpc).fd == -1,
        second is Err,
        *final(again) == *final(rpc),
        final(rpc).pid == old(rpc).pid,
        final(rpc).tid == old(rpc).tid,
{
}

/// A child's own connection takes the place of its parent's, in the protected slot as well; where
/// none was made, or the slot is another's, the process ends.
pub proof fn reconnections_take_the_slot(
    rpc: &mut CoordinatorRpc,
    slot: &mut CoordinatorSlot,
    pid: i32,
    tid: i32,
    new_fd: Option<i32>,
    result: Result<(), i32>,
)
    requires
        call_ensures(CoordinatorRpc::reconnected, (rpc, slot, pid, tid, new_fd), result),
    ensures
        result is Ok <==> new_fd is Some && old(slot).fd == old(rpc).fd,
        result is Ok ==> {
            &&& Some(final(slot).fd) == new_fd
            &&& Some(final(rpc).fd) == new_fd
            &&& final(rpc).connection == Some(pid)
            &&& final(rpc).pid == pid
            &&& final(rpc).tid == tid
        },
        result is Err ==> result == Err::<(), i32>(123i32) && final(slot).fd == old(slot).fd
            && final(rpc).connection == old(rpc).connection && final(rpc).pid == old(rpc).pid,
        final(rpc).forked == old(rpc).forked,
{
}

} // verus!

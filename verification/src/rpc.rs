//! The coordinator connection: which thread may use it, and how a forked child gets
//! one of its own.

pub mod laws;
pub mod resources;
pub mod stream;

use vstd::prelude::*;

use crate::runtime::descriptors::CoordinatorSlot;
use crate::sys::SYS_READ;
use crate::sys::SYS_READV;
use crate::sys::SYS_RECVFROM;
use crate::sys::SYS_RECVMSG;
use crate::sys::SYS_SENDMSG;
use crate::sys::SYS_SENDTO;
use crate::sys::SYS_WRITE;
use crate::sys::SYS_WRITEV;

verus! {

/// The status of a process that lost its identity.
pub const IDENTITY_FAILURE_STATUS: i32 = 122;

/// The status of a process that lost its coordinator.
pub const COORDINATOR_FAILURE_STATUS: i32 = 123;

// ---------------------------------------------------------------------------
// Channel I/O
// ---------------------------------------------------------------------------

/// The descriptor on which a thread may do channel I/O, negative without one.
#[derive(Clone, Copy, Debug, PartialEq, Eq, Structural)]
pub struct TrustedChannel {
    pub fd: i32,
}

impl Default for TrustedChannel {
    fn default() -> (channel: Self)
        ensures
            channel.fd == -1,
    {
        TrustedChannel { fd: -1 }
    }
}

/// Remembers the descriptor that was trusted before.
#[derive(Debug)]
pub struct ChannelIoGuard {
    pub previous: i32,
}

impl ChannelIoGuard {
    pub fn enter(channel: &mut TrustedChannel, fd: i32) -> (guard: Self)
        ensures
            guard.previous == old(channel).fd,
            final(channel).fd == fd,
    {
        let previous: i32 = channel.fd;
        channel.fd = fd;
        ChannelIoGuard { previous }
    }

    pub fn leave(self, channel: &mut TrustedChannel)
        ensures
            final(channel).fd == self.previous,
    {
        channel.fd = self.previous;
    }
}

/// Calls that move bytes over a channel.
pub open spec fn moves_bytes(number: i64) -> bool {
    ||| number == SYS_READ
    ||| number == SYS_READV
    ||| number == SYS_WRITE
    ||| number == SYS_WRITEV
    ||| number == SYS_SENDTO
    ||| number == SYS_RECVFROM
    ||| number == SYS_SENDMSG
    ||| number == SYS_RECVMSG
}

pub open spec fn is_channel_io(channel: TrustedChannel, number: i64, fd: i32) -> bool {
    fd >= 0 && channel.fd == fd && moves_bytes(number)
}

/// Whether a call is channel I/O of the thread that is trusted with the descriptor.
pub fn allows_channel_io(channel: &TrustedChannel, number: i64, fd: i32) -> (result: bool)
    ensures
        result == is_channel_io(*channel, number, fd),
{
    fd >= 0 && channel.fd == fd && (number == SYS_READ || number == SYS_READV || number == SYS_WRITE
        || number == SYS_WRITEV || number == SYS_SENDTO || number == SYS_RECVFROM || number
        == SYS_SENDMSG || number == SYS_RECVMSG)
}

// ---------------------------------------------------------------------------
// Connections
// ---------------------------------------------------------------------------

/// The identity that the kernel reports, if it reports one.
pub fn current_id(result: i64) -> (id: Option<i32>)
    ensures
        id == if result <= 0 {
            None
        } else {
            Some(result as i32)
        },
{
    if result <= 0 {
        None
    } else {
        Some(result as i32)
    }
}

/// The connection of a process to its coordinator.
#[derive(Clone, Copy, Debug, PartialEq, Eq, Structural)]
pub struct CoordinatorRpc {
    /// The process that the connection was made for, without one once it is retired.
    pub connection: Option<i32>,
    pub fd: i32,
    pub pid: i32,
    pub tid: i32,
    /// The process was forked since its last call.
    pub forked: bool,
}

/// A connection that was given up already.
#[derive(Clone, Copy, Debug, PartialEq, Eq, Structural)]
pub struct AlreadyRetired;

/// What a forked child has to do before its next call.
#[derive(Clone, Copy, Debug, PartialEq, Eq, Structural)]
pub enum Reconnect {
    /// Nothing: the connection is its own.
    Keep,
    /// Connect anew, as this process and thread.
    Connect { pid: i32, tid: i32 },
    /// End the process with this status.
    Fatal(i32),
}

pub open spec fn reconnection(
    rpc: CoordinatorRpc,
    pid: Option<i32>,
    tid: Option<i32>,
) -> Reconnect {
    if !rpc.forked {
        Reconnect::Keep
    } else {
        match (pid, rpc.connection) {
            (Some(pid), Some(owner)) => if owner == pid {
                Reconnect::Keep
            } else {
                match tid {
                    Some(tid) => Reconnect::Connect { pid, tid },
                    None => Reconnect::Fatal(IDENTITY_FAILURE_STATUS),
                }
            },
            _ => Reconnect::Fatal(IDENTITY_FAILURE_STATUS),
        }
    }
}

impl CoordinatorRpc {
    /// A fresh connection.
    pub fn connect(pid: i32, tid: i32, fd: i32) -> (rpc: Self)
        ensures
            rpc == (CoordinatorRpc { connection: Some(pid), fd, pid, tid, forked: false }),
    {
        CoordinatorRpc { connection: Some(pid), fd, pid, tid, forked: false }
    }

    pub fn raw_fd(&self) -> (fd: i32)
        ensures
            fd == self.fd,
    {
        self.fd
    }

    pub fn identity(&self) -> (identity: (i32, i32))
        ensures
            identity == (self.pid, self.tid),
    {
        (self.pid, self.tid)
    }

    /// Records that this process is a freshly forked child, whose connection still is its
    /// parent's.
    pub fn note_fork_in_child(&mut self)
        ensures
            *final(self) == (CoordinatorRpc { forked: true, ..*old(self) }),
    {
        self.forked = true;
    }

    /// Gives the connection up, once.
    pub fn retire(&mut self) -> (result: Result<(), AlreadyRetired>)
        ensures
            old(self).connection is Some ==> result is Ok && *final(self) == (CoordinatorRpc {
                connection: None,
                fd: -1i32,
                ..*old(self)
            }),
            old(self).connection is None ==> result is Err && *final(self) == *old(self),
    {
        if self.connection.is_none() {
            return Err(AlreadyRetired);
        }
        self.connection = None;
        self.fd = -1;
        Ok(())
    }

    /// Whether a call has to find out first who makes it. Without a fork it has not.
    pub fn must_identify(&self) -> (result: bool)
        ensures
            result == self.forked,
    {
        self.forked
    }

    /// Decides what a forked child has to do. The fork is forgotten.
    pub fn reconnect_after_fork(&mut self, pid: Option<i32>, tid: Option<i32>) -> (reconnect:
        Reconnect)
        ensures
            reconnect == reconnection(*old(self), pid, tid),
            *final(self) == (CoordinatorRpc { forked: false, ..*old(self) }),
    {
        if !self.forked {
            return Reconnect::Keep;
        }
        self.forked = false;
        let pid: i32 = match pid {
            Some(pid) => pid,
            None => return Reconnect::Fatal(IDENTITY_FAILURE_STATUS),
        };
        let owner: i32 = match self.connection {
            Some(owner) => owner,
            None => return Reconnect::Fatal(IDENTITY_FAILURE_STATUS),
        };
        if owner == pid {
            return Reconnect::Keep;
        }
        match tid {
            Some(tid) => Reconnect::Connect { pid, tid },
            None => Reconnect::Fatal(IDENTITY_FAILURE_STATUS),
        }
    }

    /// Takes the child's own connection: its descriptor takes the place of the
    /// parent's in the protected slot. Nothing where no connection was made or the slot
    /// holds another descriptor: then the process ends with the status.
    pub fn reconnected(
        &mut self,
        slot: &mut CoordinatorSlot,
        pid: i32,
        tid: i32,
        new_fd: Option<i32>,
    ) -> (result: Result<(), i32>)
        ensures
            new_fd is None ==> result == Err::<(), i32>(COORDINATOR_FAILURE_STATUS)
                && *final(self) == *old(self) && *final(slot) == *old(slot),
            new_fd is Some && old(slot).fd != old(self).fd ==> result == Err::<(), i32>(
                COORDINATOR_FAILURE_STATUS,
            ) && *final(self) == (CoordinatorRpc { fd: new_fd->0, ..*old(self) }) && *final(slot)
                == *old(slot),
            new_fd is Some && old(slot).fd == old(self).fd ==> result == Ok::<(), i32>(())
                && final(slot).fd == new_fd->0 && *final(self) == (CoordinatorRpc {
                connection: Some(pid),
                fd: new_fd->0,
                pid,
                tid,
                ..*old(self)
            }),
    {
        let new_fd: i32 = match new_fd {
            Some(new_fd) => new_fd,
            None => return Err(COORDINATOR_FAILURE_STATUS),
        };
        let old_fd: i32 = self.fd;
        self.fd = new_fd;
        match slot.replace_coordinator_fd(old_fd, new_fd) {
            Ok(()) => {},
            Err(_) => return Err(COORDINATOR_FAILURE_STATUS),
        }
        self.connection = Some(pid);
        self.pid = pid;
        self.tid = tid;
        Ok(())
    }
}

/// A forked child never speaks over its parent's connection: it keeps a connection
/// only if that was made for its own process.
pub proof fn children_never_use_the_parents_connection(
    rpc: CoordinatorRpc,
    pid: i32,
    tid: Option<i32>,
)
    requires
        rpc.forked,
    ensures
        reconnection(rpc, Some(pid), tid) == Reconnect::Keep ==> rpc.connection == Some(pid),
{
}

} // verus!

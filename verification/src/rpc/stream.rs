//! The stream below the coordinator connection.

use vstd::prelude::*;

pub mod laws;

use crate::rpc::resources::Lease;
use crate::rpc::resources::Resources;
use crate::runtime::descriptors::CoordinatorSlot;
use crate::sys::EIO;

verus! {

/// The family of local sockets.
pub const AF_UNIX: u16 = 1;

/// Bytes of a local socket's address.
pub const ADDRESS_SIZE: usize = 110;

/// Where the name of a local socket stands in its address.
pub const NAME_OFFSET: usize = 2;

/// What the kernel returned: a count, or an error.
pub fn native_result(result: i64) -> (outcome: Result<usize, i32>)
    requires
        result > i64::MIN,
    ensures
        outcome == if result < 0 {
            Err::<usize, i32>((-result) as i32)
        } else {
            Ok(result as usize)
        },
{
    if result < 0 {
        Err((-result) as i32)
    } else {
        Ok(result as usize)
    }
}

/// The name of a local socket: a path, or a name without one.
#[derive(Clone, Copy, Debug)]
pub enum SocketName<'a> {
    Path(&'a [u8]),
    Abstract(&'a [u8]),
}

pub open spec fn name_bytes(name: SocketName<'_>) -> Seq<u8> {
    match name {
        SocketName::Path(bytes) => bytes@,
        SocketName::Abstract(bytes) => bytes@,
    }
}

/// Where the bytes of a name start: behind a zero if it is abstract.
pub open spec fn name_start(name: SocketName<'_>) -> int {
    NAME_OFFSET + (if name is Abstract {
        1int
    } else {
        0
    })
}

/// The address of a local socket: its family, then its name, and zeros behind it. What
/// does not fit is cut off.
pub open spec fn address_bytes(name: SocketName<'_>) -> Seq<u8> {
    let start = name_start(name);
    Seq::new(
        ADDRESS_SIZE as nat,
        |i: int|
            if i == 0 {
                AF_UNIX as u8
            } else if start <= i < start + name_bytes(name).len() {
                name_bytes(name)[i - start]
            } else {
                0
            },
    )
}

/// The address of a local socket, and its length: the name and one byte for its zero.
pub fn socket_address(name: SocketName<'_>) -> (address: ([u8; 110], usize))
    requires
        name_bytes(name).len() <= usize::MAX - NAME_OFFSET - 1,
    ensures
        (address.0)@ == address_bytes(name),
        address.1 == NAME_OFFSET + name_bytes(name).len() + 1,
{
    let bytes: &[u8];
    let start: usize;
    match name {
        SocketName::Path(path) => {
            bytes = path;
            start = NAME_OFFSET;
        },
        SocketName::Abstract(label) => {
            bytes = label;
            start = NAME_OFFSET + 1;
        },
    }
    let mut address: [u8; 110] = [0;110];
    address[0] = AF_UNIX as u8;
    let room: usize = ADDRESS_SIZE - start;
    let count: usize = if bytes.len() < room {
        bytes.len()
    } else {
        room
    };
    let mut index: usize = 0;
    while index < count
        invariant
            index <= count,
            count <= bytes.len(),
            start + count <= 110,
            2 <= start <= 3,
            forall|i: int|
                0 <= i < 110 ==> #[trigger] address@[i] == if i == 0 {
                    AF_UNIX as u8
                } else if start <= i < start + index {
                    bytes@[i - start]
                } else {
                    0
                },
        decreases count - index,
    {
        address[start + index] = bytes[index];
        index = index + 1;
    }
    assert(address@ =~= address_bytes(name));
    (address, NAME_OFFSET + bytes.len() + 1)
}

/// Follows the closing of a stream. A close that failed, or a protected slot that was
/// taken by another descriptor, is recorded as the failure of its resource.
pub fn closed<W>(
    resources: &mut Resources<W>,
    lease: &Lease,
    slot: &mut CoordinatorSlot,
    fd: i32,
    published: bool,
    result: i64,
)
    requires
        result > i64::MIN,
    ensures
        ({
            let conflict = published && old(slot).fd != fd;
            &&& final(slot).fd == if published && !conflict {
                -1i32
            } else {
                old(slot).fd
            }
            &&& *final(resources) == (Resources {
                failure: match old(resources).failure {
                    Some(first) => Some(first),
                    None => if result < 0 {
                        Some((-result) as i32)
                    } else if conflict {
                        Some(EIO)
                    } else {
                        None
                    },
                },
                ..*old(resources)
            })
        }),
{
    match native_result(result) {
        Ok(_) => {},
        Err(errno) => resources.failed(lease, errno),
    }
    if published {
        match slot.replace_coordinator_fd(fd, -1) {
            Ok(()) => {},
            Err(_) => resources.failed(lease, EIO),
        }
    }
}

/// Opens a stream's published life: the protected slot is reserved for its descriptor
/// before it connects. Nothing where the slot is taken.
pub fn publish(slot: &mut CoordinatorSlot, fd: i32) -> (published: bool)
    ensures
        published == (old(slot).fd == -1),
        final(slot).fd == if published {
            fd
        } else {
            old(slot).fd
        },
{
    match slot.reserve_coordinator_fd(fd) {
        Ok(()) => true,
        Err(_) => false,
    }
}

} // verus!

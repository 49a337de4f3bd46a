//! What the stream below the connection promises.

use vstd::prelude::*;

use crate::rpc::resources::Lease;
use crate::rpc::resources::Resources;
use crate::rpc::stream::closed;
use crate::rpc::stream::native_result;
use crate::rpc::stream::publish;
use crate::rpc::stream::socket_address;
use crate::rpc::stream::SocketName;
use crate::runtime::descriptors::CoordinatorSlot;

verus! {

/// The kernel's reply is a count or the number of an error.
pub proof fn replies_are_counts_or_errors(result: i64, outcome: Result<usize, i32>)
    requires
        i32::MIN < result <= i32::MAX,
        call_ensures(native_result, (result,), outcome),
    ensures
        outcome is Ok <==> result >= 0,
        outcome matches Ok(count) ==> count == result,
        outcome matches Err(errno) ==> errno == -result,
{
}

/// An address holds the family, then the name, behind a zero if it is abstract, and zeros to its
/// end; its length counts the name and one byte.
pub proof fn addresses_hold_their_name(
    name: SocketName<'_>,
    bytes: &[u8],
    address: ([u8; 110], usize),
    index: int,
)
    requires
        name == SocketName::Path(bytes) || name == SocketName::Abstract(bytes),
        bytes@.len() <= usize::MAX - 3,
        call_ensures(socket_address, (name,), address),
    ensures
        (address.0)@[0] == 1,
        (address.0)@[1] == 0,
        address.1 == bytes@.len() + 3,
        name is Path && 0 <= index < bytes@.len() && index + 2 < 110 ==> (address.0)@[index + 2]
            == bytes@[index],
        name is Abstract && 0 <= index < bytes@.len() && index + 3 < 110 ==> (address.0)@[index + 3]
            == bytes@[index],
        name is Abstract ==> (address.0)@[2] == 0,
        name is Path && bytes@.len() <= index && index + 2 < 110 ==> (address.0)@[index + 2] == 0,
        name is Abstract && bytes@.len() <= index && index + 3 < 110 ==> (address.0)@[index + 3] == 0,
{
}

/// The slot is reserved for one stream at a time, and freed by the stream that holds it; a close
/// that failed, or a slot that is another's, is the failure of the resource, if it is the first.
pub proof fn closed_streams_free_their_slot<W>(
    published: &mut CoordinatorSlot,
    slot: &mut CoordinatorSlot,
    resources: &mut Resources<W>,
    lease: Lease,
    fd: i32,
    is_published: bool,
    reserved: bool,
    result: i64,
)
    requires
        i32::MIN < result <= i32::MAX,
        call_ensures(publish, (published, fd), reserved),
        call_ensures(closed::<W>, (resources, &lease, slot, fd, is_published, result), ()),
    ensures
        reserved <==> old(published).fd == -1,
        reserved ==> final(published).fd == fd,
        !reserved ==> final(published).fd == old(published).fd,
        is_published && old(slot).fd == fd ==> final(slot).fd == -1,
        !is_published || old(slot).fd != fd ==> final(slot).fd == old(slot).fd,
        old(resources).failure is Some ==> final(resources).failure == old(resources).failure,
        old(resources).failure is None && result < 0 ==> (final(resources).failure matches Some(
            errno,
        ) && errno == -result),
        old(resources).failure is None && result >= 0 ==> (final(resources).failure is Some
            <==> is_published && old(slot).fd != fd),
        old(resources).failure is None && result >= 0 && is_published && old(slot).fd != fd
            ==> final(resources).failure == Some(5i32),
        *final(resources) == (Resources { failure: final(resources).failure, ..*old(resources) }),
{
}

} // verus!

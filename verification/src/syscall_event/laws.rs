//! What classifying a dispatched system call promises.

use std::ops::Range;

use vstd::prelude::*;

use crate::syscall_event::backed_returning;
use crate::syscall_event::injectable;
use crate::syscall_event::observable;
use crate::syscall_event::Metadata;
use crate::syscall_event::SyscallEvent;

verus! {

/// The effects that the private fixture backs, by number: read, close, fstat, getpid and
/// openat.
pub open spec fn fixture_backs(number: i64) -> bool {
    match number {
        0 | 3 | 5 | 39 | 257 => true,
        _ => false,
    }
}

/// The further effects that may be injected, by number.
pub open spec fn kernel_takes(number: i64) -> bool {
    match number {
        // write, lseek, pread64, pwrite64, readv, writev, access
        1 | 8 | 17 | 18 | 19 | 20 | 21 => true,
        // dup, socket, sendto, recvfrom, bind, getsockname
        32 | 41 | 44 | 45 | 49 | 51 => true,
        // fsync, ftruncate, getcwd, rename, mkdir, rmdir, unlink, symlink
        74 | 77 | 79 | 82 | 83 | 84 | 87 | 88 => true,
        // getppid, statfs, gettid, getdents64, set_tid_address
        110 | 137 | 186 | 217 | 218 => true,
        // inotify_add_watch, newfstatat, unlinkat, renameat, linkat
        254 | 262 | 263 | 264 | 265 => true,
        // set_robust_list, pipe2, inotify_init1, preadv, pwritev
        273 | 293 | 294 | 295 | 296 => true,
        _ => false,
    }
}

/// Which effects are backed, injected and observed is settled by the number alone; every
/// native number may be observed, and no number with the mark of another ABI.
pub proof fn numbers_settle_the_effect(
    number: i64,
    backed: bool,
    injected: bool,
    observed: bool,
)
    requires
        call_ensures(backed_returning, (number,), backed),
        call_ensures(injectable, (number,), injected),
        call_ensures(observable, (number,), observed),
    ensures
        backed <==> fixture_backs(number),
        injected <==> fixture_backs(number) || kernel_takes(number),
        observed <==> 0 <= number < 0x4000_0000,
        backed ==> injected,
        injected ==> observed,
{
    if 0 <= number <= i32::MAX {
        let narrow = number as i32;
        assert(0 <= narrow ==> ((narrow & 0x4000_0000 == 0) == (narrow < 0x4000_0000)))
            by (bit_vector);
    }
}

/// An event is decoded exactly from a signal of user dispatch, for this architecture and a
/// native number, whose address is behind a system call instruction in its mapping and in
/// the register where that instruction leaves it. The event says all three.
pub proof fn events_are_decoded_from_their_frame(
    info: Metadata,
    registers: [i64; 23],
    bytes: &[u8],
    mapping: Range<u64>,
    event: Option<SyscallEvent>,
    accepted: Option<SyscallEvent>,
)
    requires
        call_ensures(SyscallEvent::decode, (info, &registers, bytes, &mapping), event),
        call_ensures(SyscallEvent::accept, (info, &registers, bytes, &mapping), accepted),
    ensures
        accepted == event,
        event is Some <==> {
            let resume = registers@[16] as u64;
            &&& info.signal == 31 && info.code == 2 && info.arch == 0xc000_003e
            &&& 0 <= info.number < 0x4000_0000
            &&& info.call_address == resume
            &&& registers@[14] as u64 == resume
            &&& 2 < resume < 0x8000_0000_0000
            &&& mapping.start + 2 <= resume < mapping.end
            &&& bytes@.len() >= 2 && bytes@[0] == 0x0f && bytes@[1] == 0x05
        },
        event matches Some(event) ==> event.number == info.number && event.resume
            == info.call_address && event.site + 2 == info.call_address,
{
    let narrow = info.number;
    assert(0 <= narrow ==> ((narrow & 0x4000_0000 == 0) == (narrow < 0x4000_0000)))
        by (bit_vector);
}

} // verus!

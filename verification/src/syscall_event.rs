//! Native entry classification, separate from kernel effect permission.

use std::ops::Range;

use vstd::prelude::*;

pub mod laws;

use crate::registers::REG_RCX;
use crate::registers::REG_RIP;
use crate::startup::USER_END;
use crate::sys::SYS_ACCESS;
use crate::sys::SYS_BIND;
use crate::sys::SYS_CLOSE;
use crate::sys::SYS_DUP;
use crate::sys::SYS_FSTAT;
use crate::sys::SYS_FSYNC;
use crate::sys::SYS_FTRUNCATE;
use crate::sys::SYS_GETCWD;
use crate::sys::SYS_GETDENTS64;
use crate::sys::SYS_GETPID;
use crate::sys::SYS_GETPPID;
use crate::sys::SYS_GETSOCKNAME;
use crate::sys::SYS_GETTID;
use crate::sys::SYS_INOTIFY_ADD_WATCH;
use crate::sys::SYS_INOTIFY_INIT1;
use crate::sys::SYS_LINKAT;
use crate::sys::SYS_LSEEK;
use crate::sys::SYS_MKDIR;
use crate::sys::SYS_NEWFSTATAT;
use crate::sys::SYS_OPENAT;
use crate::sys::SYS_PIPE2;
use crate::sys::SYS_PREAD64;
use crate::sys::SYS_PREADV;
use crate::sys::SYS_PWRITE64;
use crate::sys::SYS_PWRITEV;
use crate::sys::SYS_READ;
use crate::sys::SYS_READV;
use crate::sys::SYS_RECVFROM;
use crate::sys::SYS_RENAME;
use crate::sys::SYS_RENAMEAT;
use crate::sys::SYS_RMDIR;
use crate::sys::SYS_SENDTO;
use crate::sys::SYS_SET_ROBUST_LIST;
use crate::sys::SYS_SET_TID_ADDRESS;
use crate::sys::SYS_SOCKET;
use crate::sys::SYS_STATFS;
use crate::sys::SYS_SYMLINK;
use crate::sys::SYS_UNLINK;
use crate::sys::SYS_UNLINKAT;
use crate::sys::SYS_WRITE;
use crate::sys::SYS_WRITEV;
use crate::sys::SIGSYS;

verus! {

pub const SYS_USER_DISPATCH: i32 = 2;

pub const AUDIT_ARCH_X86_64: u32 = 0xc000_003e;

/// The bit that marks an x32 system call.
pub const X32_BIT: i32 = 0x4000_0000;

/// What the kernel reports about a dispatched system call.
#[derive(Clone, Copy, Debug)]
pub struct Metadata {
    pub signal: i32,
    pub errno: i32,
    pub code: i32,
    pub padding: i32,
    pub call_address: u64,
    pub number: i32,
    pub arch: u32,
}

#[derive(Clone, Copy, Debug, PartialEq, Eq, Structural)]
pub struct SyscallEvent {
    pub number: i64,
    pub site: u64,
    pub resume: u64,
}

/// A number that is neither negative nor carries the x32 bit.
pub open spec fn is_native_number(number: i32) -> bool {
    number >= 0 && number & X32_BIT == 0
}

/// The returning effects of the private fixture.
pub open spec fn is_backed_returning(number: i64) -> bool {
    ||| number == SYS_GETPID
    ||| number == SYS_READ
    ||| number == SYS_OPENAT
    ||| number == SYS_FSTAT
    ||| number == SYS_CLOSE
}

/// The effects that may be injected into the kernel.
pub open spec fn is_injectable(number: i64) -> bool {
    ||| is_backed_returning(number)
    ||| number == SYS_GETTID
    ||| number == SYS_GETPPID
    ||| number == SYS_ACCESS
    ||| number == SYS_UNLINK
    ||| number == SYS_MKDIR
    ||| number == SYS_RENAME
    ||| number == SYS_RENAMEAT
    ||| number == SYS_RMDIR
    ||| number == SYS_NEWFSTATAT
    ||| number == SYS_INOTIFY_INIT1
    ||| number == SYS_INOTIFY_ADD_WATCH
    ||| number == SYS_PIPE2
    ||| number == SYS_GETCWD
    ||| number == SYS_STATFS
    ||| number == SYS_GETDENTS64
    ||| number == SYS_SOCKET
    ||| number == SYS_BIND
    ||| number == SYS_GETSOCKNAME
    ||| number == SYS_SENDTO
    ||| number == SYS_RECVFROM
    ||| number == SYS_DUP
    ||| number == SYS_LINKAT
    ||| number == SYS_UNLINKAT
    ||| number == SYS_SYMLINK
    ||| number == SYS_PREAD64
    ||| number == SYS_SET_TID_ADDRESS
    ||| number == SYS_SET_ROBUST_LIST
    ||| number == SYS_LSEEK
    ||| number == SYS_FSYNC
    ||| number == SYS_FTRUNCATE
    ||| number == SYS_WRITE
    ||| number == SYS_WRITEV
    ||| number == SYS_PWRITEV
    ||| number == SYS_PWRITE64
    ||| number == SYS_READV
    ||| number == SYS_PREADV
}

/// The numbers that a dispatched entry may carry.
pub open spec fn is_observable(number: i64) -> bool {
    i32::MIN <= number <= i32::MAX && is_native_number(number as i32)
}

fn native_number(number: i32) -> (result: bool)
    ensures
        result == is_native_number(number),
{
    number >= 0 && number & X32_BIT == 0
}

pub fn backed_returning(number: i64) -> (result: bool)
    ensures
        result == is_backed_returning(number),
{
    number == SYS_GETPID || number == SYS_READ || number == SYS_OPENAT || number == SYS_FSTAT
        || number == SYS_CLOSE
}

pub fn injectable(number: i64) -> (result: bool)
    ensures
        result == is_injectable(number),
{
    backed_returning(number) || number == SYS_GETTID || number == SYS_GETPPID
        || number == SYS_ACCESS || number == SYS_UNLINK || number == SYS_MKDIR
        || number == SYS_RENAME || number == SYS_RENAMEAT || number == SYS_RMDIR
        || number == SYS_NEWFSTATAT || number == SYS_INOTIFY_INIT1
        || number == SYS_INOTIFY_ADD_WATCH || number == SYS_PIPE2 || number == SYS_GETCWD
        || number == SYS_STATFS || number == SYS_GETDENTS64 || number == SYS_SOCKET
        || number == SYS_BIND || number == SYS_GETSOCKNAME || number == SYS_SENDTO
        || number == SYS_RECVFROM || number == SYS_DUP || number == SYS_LINKAT
        || number == SYS_UNLINKAT || number == SYS_SYMLINK || number == SYS_PREAD64
        || number == SYS_SET_TID_ADDRESS || number == SYS_SET_ROBUST_LIST || number == SYS_LSEEK
        || number == SYS_FSYNC || number == SYS_FTRUNCATE || number == SYS_WRITE
        || number == SYS_WRITEV || number == SYS_PWRITEV || number == SYS_PWRITE64
        || number == SYS_READV || number == SYS_PREADV
}

pub fn observable(number: i64) -> (result: bool)
    ensures
        result == is_observable(number),
{
    i32::MIN as i64 <= number && number <= i32::MAX as i64 && native_number(number as i32)
}

/// The shape of a dispatched system call: the signal and its provenance, the
/// architecture, a native number, a resume address two bytes past a nonzero site,
/// both inside one mapping below the canonical boundary, `syscall` at the site, and
/// the continuation in the register where the instruction leaves it.
pub open spec fn is_syscall_frame(
    info: Metadata,
    registers: Seq<i64>,
    bytes: Seq<u8>,
    mapping: Range<u64>,
) -> bool {
    let resume = registers[REG_RIP as int] as u64;
    &&& info.signal == SIGSYS
    &&& info.code == SYS_USER_DISPATCH
    &&& info.arch == AUDIT_ARCH_X86_64
    &&& info.call_address == resume
    &&& is_native_number(info.number)
    &&& 2 < resume < USER_END
    &&& mapping.start <= resume - 2
    &&& resume < mapping.end
    &&& bytes.len() >= 2 && bytes[0] == 0x0f && bytes[1] == 0x05
    &&& registers[REG_RCX as int] as u64 == resume
}

/// The event of a frame with that shape.
pub open spec fn frame_event(
    info: Metadata,
    registers: Seq<i64>,
    bytes: Seq<u8>,
    mapping: Range<u64>,
) -> Option<SyscallEvent> {
    let resume = registers[REG_RIP as int] as u64;
    if is_syscall_frame(info, registers, bytes, mapping) {
        Some(
            SyscallEvent {
                number: info.number as i64,
                site: (resume - 2) as u64,
                resume,
            },
        )
    } else {
        None
    }
}

impl SyscallEvent {
    /// Decodes a structurally valid frame, asking nothing about whether the
    /// operation is supported. A decoded event permits neither kernel injection
    /// nor a guest return.
    pub fn decode(
        info: Metadata,
        registers: &[i64; 23],
        bytes: &[u8],
        mapping: &Range<u64>,
    ) -> (event: Option<Self>)
        ensures
            event == frame_event(info, registers@, bytes@, *mapping),
    {
        let resume: u64 = registers[REG_RIP] as u64;
        if resume < 2 {
            return None;
        }
        let site: u64 = resume - 2;
        if info.signal == SIGSYS && info.code == SYS_USER_DISPATCH && info.arch
            == AUDIT_ARCH_X86_64 && info.call_address == resume && native_number(info.number) && site
            != 0 && resume < USER_END && mapping.start <= site && site < mapping.end
            && mapping.start <= resume && resume < mapping.end && bytes.len() >= 2 && bytes[0] == 0x0f
            && bytes[1] == 0x05 && registers[REG_RCX] as u64 == resume {
            Some(SyscallEvent { number: info.number as i64, site, resume })
        } else {
            None
        }
    }

    /// Admits an entry for owned dispatch.
    pub fn accept(
        info: Metadata,
        registers: &[i64; 23],
        bytes: &[u8],
        mapping: &Range<u64>,
    ) -> (event: Option<Self>)
        ensures
            event == frame_event(info, registers@, bytes@, *mapping),
    {
        Self::decode(info, registers, bytes, mapping)
    }
}

/// Every backed effect may be injected, and every injectable number may be
/// observed; the x32 twin of an injectable number may be neither.
pub proof fn effect_sets_are_nested(number: i64)
    ensures
        is_backed_returning(number) ==> is_injectable(number),
        is_injectable(number) ==> is_observable(number),
        is_injectable(number) ==> !is_injectable((number + X32_BIT) as i64),
        is_injectable(number) ==> !is_observable((number + X32_BIT) as i64),
        number < 0 ==> !is_injectable(number) && !is_observable(number),
{
    if 0 <= number < 0x4000_0000 {
        let low = number as i32;
        assert(low & 0x4000_0000 == 0) by (bit_vector)
            requires
                0 <= low < 0x4000_0000,
        ;
        let twin = (number + X32_BIT) as i32;
        assert(twin & 0x4000_0000 != 0) by (bit_vector)
            requires
                0x4000_0000 <= twin,
        ;
    }
}

/// An event is decoded only from an entry whose number may be observed, and it
/// keeps that number, the address after the instruction and the address of it.
pub proof fn decoded_event_is_observable(
    info: Metadata,
    registers: Seq<i64>,
    bytes: Seq<u8>,
    mapping: Range<u64>,
)
    ensures
        frame_event(info, registers, bytes, mapping) matches Some(event) ==> {
            &&& is_observable(event.number)
            &&& event.number == info.number
            &&& event.resume == info.call_address
            &&& event.site + 2 == event.resume
        },
{
}

} // verus!

//! The runtime's own descriptors, which no system call of the guest reaches.

use vstd::prelude::*;

pub mod laws;
use vstd::string::StringExecFns;

use crate::protected_fd::indirect_outcome;
use crate::protected_fd::indirect_result;
use crate::protected_fd::reads;
use crate::protected_fd::sendmsg_validation_args;
use crate::protected_fd::total;
use crate::protected_fd::Memory;
use crate::sys::EBADF;
use crate::sys::EINVAL;
use crate::sys::SYS_BIND;
use crate::sys::SYS_CLOSE;
use crate::sys::SYS_CLOSE_RANGE;
use crate::sys::SYS_COPY_FILE_RANGE;
use crate::sys::SYS_DUP;
use crate::sys::SYS_DUP2;
use crate::sys::SYS_DUP3;
use crate::sys::SYS_FALLOCATE;
use crate::sys::SYS_FCNTL;
use crate::sys::SYS_FSTAT;
use crate::sys::SYS_FSYNC;
use crate::sys::SYS_FTRUNCATE;
use crate::sys::SYS_GETDENTS64;
use crate::sys::SYS_GETSOCKNAME;
use crate::sys::SYS_GETSOCKOPT;
use crate::sys::SYS_INOTIFY_ADD_WATCH;
use crate::sys::SYS_IOCTL;
use crate::sys::SYS_LINKAT;
use crate::sys::SYS_LSEEK;
use crate::sys::SYS_MMAP;
use crate::sys::SYS_NEWFSTATAT;
use crate::sys::SYS_OPENAT;
use crate::sys::SYS_PREAD64;
use crate::sys::SYS_PREADV;
use crate::sys::SYS_PREADV2;
use crate::sys::SYS_PWRITE64;
use crate::sys::SYS_PWRITEV;
use crate::sys::SYS_PWRITEV2;
use crate::sys::SYS_READ;
use crate::sys::SYS_READV;
use crate::sys::SYS_RECVFROM;
use crate::sys::SYS_RECVMMSG;
use crate::sys::SYS_RECVMSG;
use crate::sys::SYS_RENAMEAT;
use crate::sys::SYS_SENDFILE;
use crate::sys::SYS_SENDMMSG;
use crate::sys::SYS_SENDMSG;
use crate::sys::SYS_SENDTO;
use crate::sys::SYS_SETSOCKOPT;
use crate::sys::SYS_SHUTDOWN;
use crate::sys::SYS_SPLICE;
use crate::sys::SYS_TEE;
use crate::sys::SYS_UNLINKAT;
use crate::sys::SYS_VMSPLICE;
use crate::sys::SYS_WRITE;
use crate::sys::SYS_WRITEV;
use crate::text::append_signed;
use crate::text::signed_decimal;

verus! {

pub const CLOSE_RANGE_UNSHARE: u64 = 2;

pub const CLOSE_RANGE_CLOEXEC: u64 = 4;

pub const MAP_ANONYMOUS: u64 = 0x20;

// ---------------------------------------------------------------------------
// The coordinator's descriptor
// ---------------------------------------------------------------------------

/// The protected descriptor of the coordinator connection, negative without one.
#[derive(Clone, Copy, Debug, PartialEq, Eq, Structural)]
pub struct CoordinatorSlot {
    pub fd: i32,
}

impl Default for CoordinatorSlot {
    fn default() -> (slot: Self)
        ensures
            slot.fd == -1,
    {
        CoordinatorSlot { fd: -1 }
    }
}

/// The slot holds another descriptor than expected.
#[derive(Clone, Copy, Debug, PartialEq, Eq, Structural)]
pub struct SlotConflict {
    pub expected: i32,
    pub observed: i32,
}

impl SlotConflict {
    /// The conflict of a replacement in words.
    pub fn text(&self) -> (text: String)
        ensures
            text@ == "coordinator FD changed concurrently: expected "@ + signed_decimal(
                self.expected as int,
            ) + ", observed "@ + signed_decimal(self.observed as int),
    {
        let mut text = String::from_str("coordinator FD changed concurrently: expected ");
        append_signed(&mut text, self.expected);
        text.append(", observed ");
        append_signed(&mut text, self.observed);
        text
    }
}

impl CoordinatorSlot {
    /// Reserves the slot, once.
    pub fn reserve_coordinator_fd(&mut self, fd: i32) -> (result: Result<(), SlotConflict>)
        ensures
            old(self).fd == -1 ==> result is Ok && final(self).fd == fd,
            old(self).fd != -1 ==> result == Err::<(), SlotConflict>(
                SlotConflict { expected: -1i32, observed: old(self).fd },
            ) && *final(self) == *old(self),
    {
        self.replace_coordinator_fd(-1, fd)
    }

    /// Rebinds the slot, if it still holds the old descriptor.
    pub fn replace_coordinator_fd(&mut self, old_fd: i32, new_fd: i32) -> (result: Result<
        (),
        SlotConflict,
    >)
        ensures
            old(self).fd == old_fd ==> result is Ok && final(self).fd == new_fd,
            old(self).fd != old_fd ==> result == Err::<(), SlotConflict>(
                SlotConflict { expected: old_fd, observed: old(self).fd },
            ) && *final(self) == *old(self),
    {
        if self.fd != old_fd {
            return Err(SlotConflict { expected: old_fd, observed: self.fd });
        }
        self.fd = new_fd;
        Ok(())
    }
}

// ---------------------------------------------------------------------------
// Operands
// ---------------------------------------------------------------------------

/// The low half of an argument, which is all that the kernel reads of a descriptor.
pub open spec fn low(argument: u64) -> u64 {
    (argument % 0x1_0000_0000) as u64
}

/// Calls whose first argument is a descriptor.
pub open spec fn takes_one_descriptor(number: i64) -> bool {
    ||| number == SYS_READ
    ||| number == SYS_READV
    ||| number == SYS_PREAD64
    ||| number == SYS_PREADV
    ||| number == SYS_PREADV2
    ||| number == SYS_WRITE
    ||| number == SYS_WRITEV
    ||| number == SYS_PWRITE64
    ||| number == SYS_PWRITEV
    ||| number == SYS_PWRITEV2
    ||| number == SYS_VMSPLICE
    ||| number == SYS_LSEEK
    ||| number == SYS_FSYNC
    ||| number == SYS_FTRUNCATE
    ||| number == SYS_FALLOCATE
    ||| number == SYS_SHUTDOWN
    ||| number == SYS_SENDTO
    ||| number == SYS_RECVFROM
    ||| number == SYS_SENDMSG
    ||| number == SYS_RECVMSG
    ||| number == SYS_SENDMMSG
    ||| number == SYS_RECVMMSG
    ||| number == SYS_SETSOCKOPT
    ||| number == SYS_GETSOCKOPT
    ||| number == SYS_FCNTL
    ||| number == SYS_IOCTL
    ||| number == SYS_FSTAT
    ||| number == SYS_INOTIFY_ADD_WATCH
    ||| number == SYS_GETDENTS64
    ||| number == SYS_BIND
    ||| number == SYS_GETSOCKNAME
    ||| number == SYS_DUP
}

/// A call names a descriptor in one of its operands.
pub open spec fn targets(number: i64, args: Seq<u64>, fd: u64) -> bool {
    ||| takes_one_descriptor(number) && low(args[0]) == fd
    ||| (number == SYS_DUP2 || number == SYS_DUP3 || number == SYS_SENDFILE || number == SYS_TEE)
        && (low(args[0]) == fd || low(args[1]) == fd)
    ||| number == SYS_MMAP && args[3] / MAP_ANONYMOUS % 2 == 0 && low(args[4]) == fd
    ||| (number == SYS_SPLICE || number == SYS_COPY_FILE_RANGE) && (low(args[0]) == fd || low(
        args[2],
    ) == fd)
}

fn one_descriptor(number: i64) -> (result: bool)
    ensures
        result == takes_one_descriptor(number),
{
    number == SYS_READ || number == SYS_READV || number == SYS_PREAD64 || number == SYS_PREADV
        || number == SYS_PREADV2 || number == SYS_WRITE || number == SYS_WRITEV || number
        == SYS_PWRITE64 || number == SYS_PWRITEV || number == SYS_PWRITEV2 || number == SYS_VMSPLICE
        || number == SYS_LSEEK || number == SYS_FSYNC || number == SYS_FTRUNCATE || number
        == SYS_FALLOCATE || number == SYS_SHUTDOWN || number == SYS_SENDTO || number
        == SYS_RECVFROM || number == SYS_SENDMSG || number == SYS_RECVMSG || number == SYS_SENDMMSG
        || number == SYS_RECVMMSG || number == SYS_SETSOCKOPT || number == SYS_GETSOCKOPT || number
        == SYS_FCNTL || number == SYS_IOCTL || number == SYS_FSTAT || number
        == SYS_INOTIFY_ADD_WATCH || number == SYS_GETDENTS64 || number == SYS_BIND || number
        == SYS_GETSOCKNAME || number == SYS_DUP
}

/// Whether a call names one of the runtime's descriptors in a descriptor operand.
pub fn syscall_targets_event_fd(number: i64, args: &[u64; 6], event_fd: u64) -> (result: bool)
    ensures
        result == targets(number, args@, event_fd),
{
    let first: u64 = args[0] % 0x1_0000_0000;
    let second: u64 = args[1] % 0x1_0000_0000;
    let third: u64 = args[2] % 0x1_0000_0000;
    let fifth: u64 = args[4] % 0x1_0000_0000;
    if one_descriptor(number) {
        first == event_fd
    } else if number == SYS_DUP2 || number == SYS_DUP3 || number == SYS_SENDFILE || number
        == SYS_TEE {
        first == event_fd || second == event_fd
    } else if number == SYS_MMAP {
        args[3] / MAP_ANONYMOUS % 2 == 0 && fifth == event_fd
    } else if number == SYS_SPLICE || number == SYS_COPY_FILE_RANGE {
        first == event_fd || third == event_fd
    } else {
        false
    }
}

// ---------------------------------------------------------------------------
// Closing ranges
// ---------------------------------------------------------------------------

/// The least reserved descriptor of a range among the first `count`.
pub open spec fn least_reserved(reserved: Seq<u64>, count: nat, first: u64, last: u64) -> Option<
    u64,
>
    decreases count,
{
    if count == 0 {
        None
    } else {
        let fd = reserved[count - 1];
        let others = least_reserved(reserved, (count - 1) as nat, first, last);
        if first <= fd <= last && (others is None || fd < others->0) {
            Some(fd)
        } else {
            others
        }
    }
}

/// The pieces of a range between the reserved descriptors, in ascending order.
pub open spec fn pieces(reserved: Seq<u64>, first: u64, last: u64) -> Seq<(u64, u64)>
    decreases last + 1 - first,
    via pieces_shrink
{
    match least_reserved(reserved, reserved.len(), first, last) {
        None => if first <= last {
            seq![(first, last)]
        } else {
            Seq::empty()
        },
        Some(fd) => if fd >= u64::MAX {
            if first < fd {
                seq![(first, (fd - 1) as u64)]
            } else {
                Seq::empty()
            }
        } else if first < fd {
            seq![(first, (fd - 1) as u64)] + pieces(reserved, (fd + 1) as u64, last)
        } else {
            pieces(reserved, (fd + 1) as u64, last)
        },
    }
}

#[via_fn]
proof fn pieces_shrink(reserved: Seq<u64>, first: u64, last: u64) {
    least_is_in_range(reserved, reserved.len(), first, last);
}

proof fn least_is_in_range(reserved: Seq<u64>, count: nat, first: u64, last: u64)
    requires
        count <= reserved.len(),
    ensures
        least_reserved(reserved, count, first, last) matches Some(fd) ==> first <= fd <= last
            && reserved.contains(fd),
        forall|i: int|
            0 <= i < count && first <= #[trigger] reserved[i] <= last ==> least_reserved(
                reserved,
                count,
                first,
                last,
            ) is Some && (least_reserved(reserved, count, first, last)->0) <= reserved[i],
    decreases count,
{
    if count > 0 {
        least_is_in_range(reserved, (count - 1) as nat, first, last);
    }
}

fn find_least(reserved: &[u64], first: u64, last: u64) -> (least: Option<u64>)
    ensures
        least == least_reserved(reserved@, reserved@.len(), first, last),
{
    let mut least: Option<u64> = None;
    let mut index: usize = 0;
    while index < reserved.len()
        invariant
            index <= reserved.len(),
            least == least_reserved(reserved@, index as nat, first, last),
        decreases reserved.len() - index,
    {
        let fd: u64 = reserved[index];
        if first <= fd && fd <= last {
            least = match least {
                None => Some(fd),
                Some(other) => if fd < other {
                    Some(fd)
                } else {
                    Some(other)
                },
            };
        }
        index = index + 1;
    }
    least
}

fn split_range(reserved: &[u64], start: u64, last: u64) -> (ranges: Vec<(u64, u64)>)
    ensures
        ranges@ == pieces(reserved@, start, last),
{
    let mut ranges: Vec<(u64, u64)> = Vec::new();
    let mut first: u64 = start;
    assert(ranges@ + pieces(reserved@, start, last) =~= pieces(reserved@, start, last));
    loop
        invariant
            ranges@ + pieces(reserved@, first, last) == pieces(reserved@, start, last),
        decreases last + 1 - first,
    {
        proof {
            least_is_in_range(reserved@, reserved@.len(), first, last);
        }
        let ghost before = ranges@;
        match find_least(reserved, first, last) {
            None => {
                if first <= last {
                    ranges.push((first, last));
                }
                assert(ranges@ =~= before + pieces(reserved@, first, last));
                return ranges;
            },
            Some(fd) => {
                if first < fd {
                    ranges.push((first, fd - 1));
                }
                if fd == u64::MAX {
                    assert(ranges@ =~= before + pieces(reserved@, first, last));
                    return ranges;
                }
                assert(ranges@ + pieces(reserved@, (fd + 1) as u64, last) =~= before + pieces(
                    reserved@,
                    first,
                    last,
                ));
                first = fd + 1;
            },
        }
    }
}

/// How a range of descriptors is closed around the reserved ones.
#[derive(Debug, PartialEq, Eq)]
pub enum CloseRange {
    /// The flags are not ones that the kernel knows.
    Invalid,
    /// Unshare the table first, if asked for, then close each piece with these flags,
    /// up to the first that fails.
    Plan { unshare: bool, flags: u64, pieces: Vec<(u64, u64)> },
}

/// Flags that the kernel knows.
pub open spec fn flags_known(flags: u64) -> bool {
    flags == 0 || flags == CLOSE_RANGE_UNSHARE || flags == CLOSE_RANGE_CLOEXEC || flags
        == CLOSE_RANGE_UNSHARE + CLOSE_RANGE_CLOEXEC
}

pub open spec fn is_close_plan(plan: CloseRange, args: Seq<u64>, reserved: Seq<u64>) -> bool {
    match plan {
        CloseRange::Invalid => !flags_known(low(args[2])),
        CloseRange::Plan { unshare, flags, pieces: ranges } => {
            &&& flags_known(low(args[2]))
            &&& unshare == (low(args[2]) / CLOSE_RANGE_UNSHARE % 2 == 1)
            &&& flags == low(args[2]) - (if unshare {
                CLOSE_RANGE_UNSHARE as int
            } else {
                0
            })
            &&& ranges@ == pieces(reserved, low(args[0]), low(args[1]))
        },
    }
}

/// The descriptor as the kernel's numbers have it: a negative one is beyond any range.
pub open spec fn widened(fd: i32) -> u64 {
    fd as u64
}

pub open spec fn all_reserved(event_fd: u64, protected: Seq<i32>) -> Seq<u64> {
    seq![event_fd] + protected.map_values(|fd: i32| widened(fd))
}

fn reserve_all(event_fd: u64, protected: &[i32]) -> (reserved: Vec<u64>)
    ensures
        reserved@ == all_reserved(event_fd, protected@),
{
    let mut reserved: Vec<u64> = Vec::new();
    reserved.push(event_fd);
    let mut index: usize = 0;
    while index < protected.len()
        invariant
            index <= protected.len(),
            reserved.len() == index + 1,
            reserved@ == all_reserved(event_fd, protected@.take(index as int)),
        decreases protected.len() - index,
    {
        reserved.push(protected[index] as u64);
        index = index + 1;
        assert(reserved@ =~= all_reserved(event_fd, protected@.take(index as int)));
    }
    assert(protected@.take(index as int) =~= protected@);
    reserved
}

/// Plans the closing of a range around the event descriptor and the protected ones.
pub fn close_range_preserving_event_fd(
    args: &[u64; 6],
    event_fd: u64,
    protected: &[i32],
) -> (plan: CloseRange)
    ensures
        is_close_plan(plan, args@, all_reserved(event_fd, protected@)),
{
    let first: u64 = args[0] % 0x1_0000_0000;
    let last: u64 = args[1] % 0x1_0000_0000;
    let flags: u64 = args[2] % 0x1_0000_0000;
    if flags != 0 && flags != CLOSE_RANGE_UNSHARE && flags != CLOSE_RANGE_CLOEXEC && flags
        != CLOSE_RANGE_UNSHARE + CLOSE_RANGE_CLOEXEC {
        return CloseRange::Invalid;
    }
    let unshare: bool = flags / CLOSE_RANGE_UNSHARE % 2 == 1;
    let rest: u64 = if unshare {
        flags - CLOSE_RANGE_UNSHARE
    } else {
        flags
    };
    let reserved: Vec<u64> = reserve_all(event_fd, protected);
    CloseRange::Plan {
        unshare,
        flags: rest,
        pieces: split_range(reserved.as_slice(), first, last),
    }
}

/// The result of a plan whose flags are not known.
pub fn invalid_range_result() -> (result: i64)
    ensures
        result == -EINVAL,
{
    -(EINVAL as i64)
}

pub open spec fn covered(ranges: Seq<(u64, u64)>, fd: u64) -> bool {
    exists|i: int| 0 <= i < ranges.len() && (#[trigger] ranges[i]).0 <= fd <= ranges[i].1
}

/// Closing a range closes every descriptor of the range that is not reserved, and none
/// that is.
pub proof fn closing_spares_exactly_the_reserved(
    reserved: Seq<u64>,
    first: u64,
    last: u64,
    fd: u64,
)
    ensures
        covered(pieces(reserved, first, last), fd) <==> first <= fd <= last && !reserved.contains(
            fd,
        ),
    decreases last + 1 - first,
{
    least_is_in_range(reserved, reserved.len(), first, last);
    let ranges = pieces(reserved, first, last);
    if reserved.contains(fd) {
        let place = choose|i: int| 0 <= i < reserved.len() && reserved[i] == fd;
        assert(reserved[place] == fd);
    }
    match least_reserved(reserved, reserved.len(), first, last) {
        None => {
            if first <= last {
                assert(ranges[0] == (first, last));
            }
        },
        Some(least) => {
            if least < u64::MAX {
                let next = (least + 1) as u64;
                closing_spares_exactly_the_reserved(reserved, next, last, fd);
                let rest = pieces(reserved, next, last);
                if first < least {
                    assert(ranges[0] == (first, (least - 1) as u64));
                    assert(forall|i: int|
                        0 <= i < rest.len() ==> #[trigger] ranges[i + 1] == rest[i]);
                    if covered(rest, fd) {
                        let i = choose|i: int|
                            0 <= i < rest.len() && (#[trigger] rest[i]).0 <= fd <= rest[i].1;
                        assert(ranges[i + 1] == rest[i]);
                    }
                    if covered(ranges, fd) {
                        let i = choose|i: int|
                            0 <= i < ranges.len() && (#[trigger] ranges[i]).0 <= fd
                                <= ranges[i].1;
                        if i > 0 {
                            assert(rest[i - 1] == ranges[i]);
                        }
                    }
                }
            } else if first < least {
                assert(ranges[0] == (first, (least - 1) as u64));
            }
        },
    }
}

// ---------------------------------------------------------------------------
// Protection
// ---------------------------------------------------------------------------

/// What protecting the runtime's descriptors makes of a call.
#[derive(Debug, PartialEq, Eq)]
pub enum Protection {
    /// The call does not touch them.
    Pass,
    /// The call is answered.
    Answer(i64),
    /// A range is closed around them.
    Close(CloseRange),
    /// A message is refused; the kernel judges its destination with these arguments
    /// first.
    Validate { args: [u64; 6], refusal: i64 },
}

/// The first protected descriptor, from `index` on, that the call closes or names.
pub open spec fn first_touched(
    number: i64,
    args: Seq<u64>,
    protected: Seq<i32>,
    index: int,
) -> Option<i32>
    decreases protected.len() - index,
{
    if index >= protected.len() {
        None
    } else if protected[index] >= 0 && touches(number, args, widened(protected[index])) {
        Some(protected[index])
    } else {
        first_touched(number, args, protected, index + 1)
    }
}

/// The call closes or names the descriptor.
pub open spec fn touches(number: i64, args: Seq<u64>, fd: u64) -> bool {
    ||| number == SYS_CLOSE && low(args[0]) == fd
    ||| number == SYS_CLOSE_RANGE && low(args[0]) <= fd <= low(args[1])
    ||| targets(number, args, fd)
}

/// The answer to a call that touches a descriptor: closing it does nothing, closing a
/// range goes round it, and anything else finds it closed.
pub open spec fn is_answer(
    protection: Protection,
    number: i64,
    args: Seq<u64>,
    fd: u64,
    protected: Seq<i32>,
) -> bool {
    if number == SYS_CLOSE && low(args[0]) == fd {
        protection == Protection::Answer(0)
    } else if number == SYS_CLOSE_RANGE && low(args[0]) <= fd <= low(args[1]) {
        &&& protection is Close
        &&& is_close_plan(protection->Close_0, args, all_reserved(fd, protected))
    } else {
        protection == Protection::Answer((-(EBADF as int)) as i64)
    }
}

/// What protection makes of a call, given what was found of the descriptors that it
/// names through memory.
pub open spec fn is_protection(
    protection: Protection,
    number: i64,
    args: Seq<u64>,
    protected: Seq<i32>,
    indirect: Option<i64>,
) -> bool {
    match indirect {
        Some(refusal) => if number == SYS_SENDMSG {
            &&& protection is Validate
            &&& protection->args@ == seq![args[0], u64::MAX, args[2], 0, 0, 0]
            &&& protection->refusal == refusal
        } else {
            protection == Protection::Answer(refusal)
        },
        None => match first_touched(number, args, protected, 0) {
            Some(fd) => is_answer(protection, number, args, widened(fd), protected),
            None => protection == Protection::Pass,
        },
    }
}

fn answer(number: i64, args: &[u64; 6], fd: u64, protected: &[i32]) -> (protection: Option<
    Protection,
>)
    ensures
        touches(number, args@, fd) ==> protection is Some && is_answer(
            protection->0,
            number,
            args@,
            fd,
            protected@,
        ),
        !touches(number, args@, fd) ==> protection is None,
{
    let first: u64 = args[0] % 0x1_0000_0000;
    let second: u64 = args[1] % 0x1_0000_0000;
    if number == SYS_CLOSE && first == fd {
        Some(Protection::Answer(0))
    } else if number == SYS_CLOSE_RANGE && first <= fd && fd <= second {
        Some(Protection::Close(close_range_preserving_event_fd(args, fd, protected)))
    } else if syscall_targets_event_fd(number, args, fd) {
        Some(Protection::Answer(-(EBADF as i64)))
    } else {
        None
    }
}

fn protect_operands(number: i64, args: &[u64; 6], protected: &[i32]) -> (protection: Protection)
    ensures
        is_protection(protection, number, args@, protected@, None),
{
    let mut index: usize = 0;
    while index < protected.len()
        invariant
            index <= protected.len(),
            first_touched(number, args@, protected@, 0) == first_touched(
                number,
                args@,
                protected@,
                index as int,
            ),
        decreases protected.len() - index,
    {
        if protected[index] >= 0 {
            match answer(number, args, protected[index] as u64, protected) {
                Some(protection) => return protection,
                None => {},
            }
        }
        index = index + 1;
    }
    Protection::Pass
}

/// Protects the runtime's descriptors from a call.
pub fn protect_coordinator_channel<F: Fn(u64, usize) -> Vec<u8>>(
    number: i64,
    args: &[u64; 6],
    protected: &[i32],
    read: &F,
) -> (protection: Protection)
    requires
        total(*read),
    ensures
        forall|memory: Memory| #[trigger]
            reads(*read, memory) ==> is_protection(
                protection,
                number,
                args@,
                protected@,
                indirect_outcome(memory, number, args@, protected@),
            ),
        protection is Pass ==> first_touched(number, args@, protected@, 0) is None,
{
    match indirect_result(number, args, protected, read) {
        Some(refusal) => {
            if number == SYS_SENDMSG {
                Protection::Validate { args: sendmsg_validation_args(args), refusal }
            } else {
                Protection::Answer(refusal)
            }
        },
        None => protect_operands(number, args, protected),
    }
}

/// A call that passes neither closes nor names a protected descriptor.
pub proof fn passing_calls_touch_nothing(
    number: i64,
    args: Seq<u64>,
    protected: Seq<i32>,
    index: int,
)
    requires
        first_touched(number, args, protected, 0) is None,
        0 <= index < protected.len(),
        protected[index] >= 0,
    ensures
        !touches(number, args, widened(protected[index])),
{
    untouched_from(number, args, protected, 0, index);
}

proof fn untouched_from(
    number: i64,
    args: Seq<u64>,
    protected: Seq<i32>,
    from: int,
    index: int,
)
    requires
        first_touched(number, args, protected, from) is None,
        from <= index < protected.len(),
        protected[index] >= 0,
    ensures
        !touches(number, args, widened(protected[index])),
    decreases index - from,
{
    if from < index {
        untouched_from(number, args, protected, from + 1, index);
    }
}

/// Protects the channel on which events are written. Its arguments are compared as
/// they stand.
pub open spec fn is_channel_protection(
    protection: Protection,
    number: i64,
    args: Seq<u64>,
    event_fd: u64,
    protected: Seq<i32>,
) -> bool {
    if number == SYS_CLOSE && args[0] == event_fd {
        protection == Protection::Answer(0)
    } else if number == SYS_CLOSE_RANGE && args[0] <= event_fd <= args[1] {
        &&& protection is Close
        &&& is_close_plan(protection->Close_0, args, all_reserved(event_fd, protected))
    } else if targets(number, args, event_fd) {
        protection == Protection::Answer((-(EBADF as int)) as i64)
    } else {
        protection == Protection::Pass
    }
}

pub fn protect_compatibility_event_channel(
    number: i64,
    args: &[u64; 6],
    event_fd: i32,
    protected: &[i32],
) -> (protection: Protection)
    ensures
        is_channel_protection(protection, number, args@, widened(event_fd), protected@),
{
    let fd: u64 = event_fd as u64;
    if number == SYS_CLOSE && args[0] == fd {
        Protection::Answer(0)
    } else if number == SYS_CLOSE_RANGE && args[0] <= fd && fd <= args[1] {
        Protection::Close(close_range_preserving_event_fd(args, fd, protected))
    } else if syscall_targets_event_fd(number, args, fd) {
        Protection::Answer(-(EBADF as i64))
    } else {
        Protection::Pass
    }
}

// ---------------------------------------------------------------------------
// Directories
// ---------------------------------------------------------------------------

/// An argument is a directory operand of the call.
pub open spec fn is_directory_operand(number: i64, index: int) -> bool {
    ||| index == 0 && (number == SYS_OPENAT || number == SYS_NEWFSTATAT || number == SYS_UNLINKAT)
    ||| (index == 0 || index == 2) && (number == SYS_RENAMEAT || number == SYS_LINKAT)
}

/// The descriptor that an argument holds.
pub open spec fn descriptor_of(argument: u64) -> i32 {
    argument as i32
}

/// A directory operand that names a protected descriptor.
pub open spec fn is_masked(number: i64, args: Seq<u64>, protected: Seq<i32>, index: int) -> bool {
    &&& is_directory_operand(number, index)
    &&& descriptor_of(args[index]) >= 0
    &&& protected.contains(descriptor_of(args[index]))
}

/// The arguments that reach the kernel: directory operands that name a protected
/// descriptor name none.
pub open spec fn forwarded(number: i64, args: Seq<u64>, protected: Seq<i32>) -> Seq<u64> {
    Seq::new(
        6,
        |i: int|
            if is_masked(number, args, protected, i) {
                u64::MAX
            } else {
                args[i]
            },
    )
}

fn names_protected(argument: u64, protected: &[i32]) -> (result: bool)
    ensures
        result == (descriptor_of(argument) >= 0 && protected@.contains(descriptor_of(argument))),
{
    let fd: i32 = argument as i32;
    if fd < 0 {
        return false;
    }
    let mut index: usize = 0;
    while index < protected.len()
        invariant
            index <= protected.len(),
            fd == descriptor_of(argument),
            fd >= 0,
            forall|i: int| 0 <= i < index ==> protected@[i] != fd,
        decreases protected.len() - index,
    {
        if protected[index] == fd {
            assert(protected@.contains(fd));
            return true;
        }
        index = index + 1;
    }
    assert(!protected@.contains(fd));
    false
}

/// The arguments with which a call is handed to the kernel.
pub fn forward_kernel_args(number: i64, args: &[u64; 6], protected: &[i32]) -> (result: [u64; 6])
    ensures
        result@ == forwarded(number, args@, protected@),
{
    let both: bool = number == SYS_RENAMEAT || number == SYS_LINKAT;
    let one: bool = number == SYS_OPENAT || number == SYS_NEWFSTATAT || number == SYS_UNLINKAT;
    let first: u64 = if (one || both) && names_protected(args[0], protected) {
        u64::MAX
    } else {
        args[0]
    };
    let third: u64 = if both && names_protected(args[2], protected) {
        u64::MAX
    } else {
        args[2]
    };
    let result: [u64; 6] = [first, args[1], third, args[3], args[4], args[5]];
    assert(result@ =~= forwarded(number, args@, protected@));
    result
}

/// No directory operand that reaches the kernel names a protected descriptor.
pub proof fn forwarded_directories_are_unprotected(
    number: i64,
    args: Seq<u64>,
    protected: Seq<i32>,
    index: int,
)
    requires
        args.len() == 6,
        0 <= index < 6,
        is_directory_operand(number, index),
    ensures
        ({
            let fd = descriptor_of(forwarded(number, args, protected)[index]);
            fd >= 0 ==> !protected.contains(fd)
        }),
{
    assert(u64::MAX as i32 == -1) by (bit_vector);
}

} // verus!

//! Descriptors that system calls name indirectly, through memory.

use vstd::prelude::*;

pub mod laws;

use crate::bytes::read_u32;
use crate::bytes::read_u64;
use crate::bytes::u32_at;
use crate::bytes::u64_at;
use crate::sys::EBADF;
use crate::sys::EFAULT;
use crate::sys::EINVAL;
use crate::sys::SYS_IO_SUBMIT;
use crate::sys::SYS_IO_URING_REGISTER;
use crate::sys::SYS_SENDMMSG;
use crate::sys::SYS_SENDMSG;

verus! {

/// Bytes of one message header.
pub const MESSAGE_SIZE: usize = 56;

/// Bytes of one entry of a batch of messages.
pub const BATCH_MESSAGE_SIZE: u64 = 64;

/// Bytes of one control header.
pub const CONTROL_SIZE: usize = 16;

/// The most messages that the kernel takes in one batch.
pub const MAX_MESSAGES: u64 = 1024;

pub const SOL_SOCKET: u32 = 1;

pub const SCM_RIGHTS: u32 = 1;

/// What can be read of memory: the bytes at an address, fewer than asked for where
/// not all of them are mapped.
pub type Memory = spec_fn(u64, usize) -> Seq<u8>;

/// The reader reads this memory.
pub open spec fn reads<F: Fn(u64, usize) -> Vec<u8>>(read: F, memory: Memory) -> bool {
    forall|address: u64, size: usize, bytes: Vec<u8>|
        #[trigger] read.ensures((address, size), bytes) ==> bytes@ == memory(address, size)
}

/// The reader takes any address and size.
pub open spec fn total<F: Fn(u64, usize) -> Vec<u8>>(read: F) -> bool {
    forall|address: u64, size: usize| #[trigger] read.requires((address, size))
}

/// All the bytes of an object, or a fault.
pub open spec fn object(memory: Memory, address: u64, size: usize) -> Result<Seq<u8>, i32> {
    if memory(address, size).len() == size {
        Ok(memory(address, size))
    } else {
        Err(EFAULT)
    }
}

pub open spec fn is_protected(fd: i32, protected: Seq<i32>) -> bool {
    fd >= 0 && protected.contains(fd)
}

pub open spec fn check_result(fd: i32, protected: Seq<i32>) -> Result<(), i32> {
    if is_protected(fd, protected) {
        Err(EBADF)
    } else {
        Ok(())
    }
}

pub open spec fn element(base: u64, index: u64, stride: u64) -> Result<u64, i32> {
    if base + index * stride <= u64::MAX {
        Ok((base + index * stride) as u64)
    } else {
        Err(EFAULT)
    }
}

/// The descriptor that stands at an address.
pub open spec fn fd_at(memory: Memory, address: u64) -> Result<i32, i32> {
    match object(memory, address, 4) {
        Ok(bytes) => Ok(u32_at(bytes, 0) as u32 as i32),
        Err(error) => Err(error),
    }
}

pub open spec fn checked_fd_at(memory: Memory, address: u64, protected: Seq<i32>) -> Result<
    (),
    i32,
> {
    match fd_at(memory, address) {
        Ok(fd) => check_result(fd, protected),
        Err(error) => Err(error),
    }
}

/// The first fault or protected descriptor among the elements from `index` on.
pub open spec fn array_result(
    memory: Memory,
    address: u64,
    index: u64,
    count: u64,
    protected: Seq<i32>,
) -> Result<(), i32>
    decreases count - index,
{
    if index >= count {
        Ok(())
    } else {
        match element(address, index, 4) {
            Err(error) => Err(error),
            Ok(position) => match checked_fd_at(memory, position, protected) {
                Err(error) => Err(error),
                Ok(()) => array_result(memory, address, (index + 1) as u64, count, protected),
            },
        }
    }
}

/// The length of a control entry with the padding behind it.
pub open spec fn padded(length: u64) -> int {
    (length + 7) / 8 * 8
}

/// The first fault, malformed entry or transferred protected descriptor among the
/// control entries from `position` on.
pub open spec fn control_result(
    memory: Memory,
    position: u64,
    remaining: u64,
    protected: Seq<i32>,
) -> Result<(), i32>
    decreases remaining,
{
    if remaining < CONTROL_SIZE {
        Ok(())
    } else {
        match object(memory, position, CONTROL_SIZE) {
            Err(error) => Err(error),
            Ok(header) => {
                let length = u64_at(header, 0) as u64;
                let rights = u32_at(header, 8) == SOL_SOCKET && u32_at(header, 12) == SCM_RIGHTS;
                if u64_at(header, 0) < CONTROL_SIZE || u64_at(header, 0) > remaining {
                    Err(EINVAL)
                } else if rights && position + CONTROL_SIZE > u64::MAX {
                    Err(EFAULT)
                } else if rights && array_result(
                    memory,
                    (position + CONTROL_SIZE) as u64,
                    0,
                    ((length - CONTROL_SIZE) / 4) as u64,
                    protected,
                ) is Err {
                    array_result(
                        memory,
                        (position + CONTROL_SIZE) as u64,
                        0,
                        ((length - CONTROL_SIZE) / 4) as u64,
                        protected,
                    )
                } else if length + 7 > u64::MAX {
                    Err(EINVAL)
                } else if padded(length) > remaining {
                    Ok(())
                } else if position + padded(length) > u64::MAX {
                    Err(EFAULT)
                } else {
                    control_result(
                        memory,
                        (position + padded(length)) as u64,
                        (remaining - padded(length)) as u64,
                        protected,
                    )
                }
            },
        }
    }
}

pub open spec fn message_result(memory: Memory, address: u64, protected: Seq<i32>) -> Result<
    (),
    i32,
> {
    match object(memory, address, MESSAGE_SIZE) {
        Err(error) => Err(error),
        Ok(message) => control_result(
            memory,
            u64_at(message, 32) as u64,
            u64_at(message, 40) as u64,
            protected,
        ),
    }
}

/// Descriptors that are registered with a ring, by the operation.
pub open spec fn ring_result(
    memory: Memory,
    operation: int,
    address: u64,
    count: u64,
    protected: Seq<i32>,
) -> Result<(), i32> {
    if operation == 2 {
        array_result(memory, address, 0, count, protected)
    } else if operation == 4 || operation == 7 {
        checked_fd_at(memory, address, protected)
    } else if operation == 6 {
        match object(memory, address, 16) {
            Err(error) => Err(error),
            Ok(update) => array_result(memory, u64_at(update, 8) as u64, 0, count, protected),
        }
    } else if operation == 13 {
        match object(memory, address, 32) {
            Err(error) => Err(error),
            Ok(registration) => if u32_at(registration, 4) % 2 != 0 && u64_at(registration, 16)
                == 0 {
                Ok(())
            } else {
                array_result(
                    memory,
                    u64_at(registration, 16) as u64,
                    0,
                    u32_at(registration, 0) as u64,
                    protected,
                )
            },
        }
    } else if operation == 14 {
        match object(memory, address, 32) {
            Err(error) => Err(error),
            Ok(update) => array_result(
                memory,
                u64_at(update, 8) as u64,
                0,
                u32_at(update, 24) as u64,
                protected,
            ),
        }
    } else {
        Ok(())
    }
}

pub open spec fn inspect_result(
    memory: Memory,
    number: i64,
    args: Seq<u64>,
    protected: Seq<i32>,
) -> Result<(), i32> {
    if number == SYS_SENDMSG {
        message_result(memory, args[1], protected)
    } else if number == SYS_IO_URING_REGISTER {
        ring_result(
            memory,
            args[1] as int % 0x8000_0000,
            args[2],
            (args[3] as int % 0x1_0000_0000) as u64,
            protected,
        )
    } else {
        Ok(())
    }
}

/// No descriptor is protected.
pub open spec fn none_protected(protected: Seq<i32>) -> bool {
    forall|i: int| 0 <= i < protected.len() ==> #[trigger] protected[i] < 0
}

pub open spec fn refusal_of(result: Result<(), i32>) -> Option<i64> {
    match result {
        Ok(()) => None,
        Err(error) => Some((-(error as int)) as i64),
    }
}

pub open spec fn indirect_outcome(
    memory: Memory,
    number: i64,
    args: Seq<u64>,
    protected: Seq<i32>,
) -> Option<i64> {
    if none_protected(protected) {
        None
    } else {
        refusal_of(inspect_result(memory, number, args, protected))
    }
}

// ---------------------------------------------------------------------------
// Inspection
// ---------------------------------------------------------------------------

fn read_object<F: Fn(u64, usize) -> Vec<u8>>(read: &F, address: u64, size: usize) -> (result:
    Result<Vec<u8>, i32>)
    requires
        total(*read),
    ensures
        result is Ok ==> (result->Ok_0).len() == size,
        forall|memory: Memory| #[trigger]
            reads(*read, memory) ==> match object(memory, address, size) {
                Ok(bytes) => result is Ok && (result->Ok_0)@ == bytes,
                Err(error) => result == Err::<Vec<u8>, i32>(error),
            },
{
    let bytes: Vec<u8> = read(address, size);
    if bytes.len() == size {
        Ok(bytes)
    } else {
        Err(EFAULT)
    }
}

pub fn check(fd: i32, protected: &[i32]) -> (result: Result<(), i32>)
    ensures
        result == check_result(fd, protected@),
{
    if fd < 0 {
        return Ok(());
    }
    let mut index: usize = 0;
    while index < protected.len()
        invariant
            index <= protected.len(),
            fd >= 0,
            forall|i: int| 0 <= i < index ==> protected@[i] != fd,
        decreases protected.len() - index,
    {
        if protected[index] == fd {
            assert(protected@.contains(fd));
            return Err(EBADF);
        }
        index = index + 1;
    }
    assert(!protected@.contains(fd));
    Ok(())
}

pub fn offset(base: u64, index: u64, stride: u64) -> (result: Result<u64, i32>)
    ensures
        result == element(base, index, stride),
{
    proof {
        assert(index * stride >= 0) by (nonlinear_arith)
            requires
                index >= 0,
                stride >= 0,
        ;
    }
    match index.checked_mul(stride) {
        Some(distance) => match base.checked_add(distance) {
            Some(address) => Ok(address),
            None => Err(EFAULT),
        },
        None => Err(EFAULT),
    }
}

fn check_at<F: Fn(u64, usize) -> Vec<u8>>(read: &F, address: u64, protected: &[i32]) -> (result:
    Result<(), i32>)
    requires
        total(*read),
    ensures
        forall|memory: Memory| #[trigger]
            reads(*read, memory) ==> result == checked_fd_at(memory, address, protected@),
{
    match read_object(read, address, 4) {
        Ok(bytes) => check(read_u32(bytes.as_slice(), 0) as i32, protected),
        Err(error) => Err(error),
    }
}

fn array<F: Fn(u64, usize) -> Vec<u8>>(
    read: &F,
    address: u64,
    count: u64,
    protected: &[i32],
) -> (result: Result<(), i32>)
    requires
        total(*read),
    ensures
        forall|memory: Memory| #[trigger]
            reads(*read, memory) ==> result == array_result(
                memory,
                address,
                0,
                count,
                protected@,
            ),
{
    let mut index: u64 = 0;
    while index < count
        invariant
            index <= count,
            total(*read),
            forall|memory: Memory| #[trigger]
                reads(*read, memory) ==> array_result(memory, address, 0, count, protected@)
                    == array_result(memory, address, index, count, protected@),
        decreases count - index,
    {
        let position: u64 = match offset(address, index, 4) {
            Ok(position) => position,
            Err(error) => return Err(error),
        };
        match check_at(read, position, protected) {
            Ok(()) => {},
            Err(error) => return Err(error),
        }
        index = index + 1;
    }
    Ok(())
}

fn control<F: Fn(u64, usize) -> Vec<u8>>(
    read: &F,
    start: u64,
    length: u64,
    protected: &[i32],
) -> (result: Result<(), i32>)
    requires
        total(*read),
    ensures
        forall|memory: Memory| #[trigger]
            reads(*read, memory) ==> result == control_result(memory, start, length, protected@),
{
    let mut position: u64 = start;
    let mut remaining: u64 = length;
    while remaining >= CONTROL_SIZE as u64
        invariant
            total(*read),
            forall|memory: Memory| #[trigger]
                reads(*read, memory) ==> control_result(memory, start, length, protected@)
                    == control_result(memory, position, remaining, protected@),
        decreases remaining,
    {
        let header: Vec<u8> = match read_object(read, position, CONTROL_SIZE) {
            Ok(header) => header,
            Err(error) => return Err(error),
        };
        let entry: u64 = read_u64(header.as_slice(), 0);
        if entry < CONTROL_SIZE as u64 || entry > remaining {
            return Err(EINVAL);
        }
        if read_u32(header.as_slice(), 8) == SOL_SOCKET && read_u32(header.as_slice(), 12)
            == SCM_RIGHTS {
            let descriptors: u64 = match position.checked_add(CONTROL_SIZE as u64) {
                Some(descriptors) => descriptors,
                None => return Err(EFAULT),
            };
            match array(read, descriptors, (entry - CONTROL_SIZE as u64) / 4, protected) {
                Ok(()) => {},
                Err(error) => return Err(error),
            }
        }
        let aligned: u64 = match entry.checked_add(7) {
            Some(sum) => sum / 8 * 8,
            None => return Err(EINVAL),
        };
        if aligned > remaining {
            return Ok(());
        }
        position = match position.checked_add(aligned) {
            Some(position) => position,
            None => return Err(EFAULT),
        };
        remaining = remaining - aligned;
    }
    Ok(())
}

fn message<F: Fn(u64, usize) -> Vec<u8>>(read: &F, address: u64, protected: &[i32]) -> (result:
    Result<(), i32>)
    requires
        total(*read),
    ensures
        forall|memory: Memory| #[trigger]
            reads(*read, memory) ==> result == message_result(memory, address, protected@),
{
    match read_object(read, address, MESSAGE_SIZE) {
        Ok(message) => control(
            read,
            read_u64(message.as_slice(), 32),
            read_u64(message.as_slice(), 40),
            protected,
        ),
        Err(error) => Err(error),
    }
}

fn ring<F: Fn(u64, usize) -> Vec<u8>>(
    read: &F,
    operation: u64,
    address: u64,
    count: u64,
    protected: &[i32],
) -> (result: Result<(), i32>)
    requires
        total(*read),
    ensures
        forall|memory: Memory| #[trigger]
            reads(*read, memory) ==> result == ring_result(
                memory,
                operation as int,
                address,
                count,
                protected@,
            ),
{
    match operation {
        2 => array(read, address, count, protected),
        4 => check_at(read, address, protected),
        7 => check_at(read, address, protected),
        6 => match read_object(read, address, 16) {
            Ok(update) => array(read, read_u64(update.as_slice(), 8), count, protected),
            Err(error) => Err(error),
        },
        13 => match read_object(read, address, 32) {
            Ok(registration) => {
                let descriptors: u64 = read_u64(registration.as_slice(), 16);
                if read_u32(registration.as_slice(), 4) % 2 != 0 && descriptors == 0 {
                    return Ok(());
                }
                array(
                    read,
                    descriptors,
                    read_u32(registration.as_slice(), 0) as u64,
                    protected,
                )
            },
            Err(error) => Err(error),
        },
        14 => match read_object(read, address, 32) {
            Ok(update) => array(
                read,
                read_u64(update.as_slice(), 8),
                read_u32(update.as_slice(), 24) as u64,
                protected,
            ),
            Err(error) => Err(error),
        },
        _ => Ok(()),
    }
}

fn inspect<F: Fn(u64, usize) -> Vec<u8>>(
    read: &F,
    number: i64,
    args: &[u64; 6],
    protected: &[i32],
) -> (result: Result<(), i32>)
    requires
        total(*read),
    ensures
        forall|memory: Memory| #[trigger]
            reads(*read, memory) ==> result == inspect_result(memory, number, args@, protected@),
{
    if number == SYS_SENDMSG {
        message(read, args[1], protected)
    } else if number == SYS_IO_URING_REGISTER {
        ring(read, args[1] % 0x8000_0000, args[2], args[3] % 0x1_0000_0000, protected)
    } else {
        Ok(())
    }
}

fn nothing_protected(protected: &[i32]) -> (result: bool)
    ensures
        result == none_protected(protected@),
{
    let mut index: usize = 0;
    while index < protected.len()
        invariant
            index <= protected.len(),
            forall|i: int| 0 <= i < index ==> #[trigger] protected@[i] < 0,
        decreases protected.len() - index,
    {
        if protected[index] >= 0 {
            return false;
        }
        index = index + 1;
    }
    true
}

/// The refusal, if any, of a call that names a protected descriptor through memory.
pub fn indirect_result<F: Fn(u64, usize) -> Vec<u8>>(
    number: i64,
    args: &[u64; 6],
    protected: &[i32],
    read: &F,
) -> (result: Option<i64>)
    requires
        total(*read),
    ensures
        none_protected(protected@) ==> result is None,
        forall|memory: Memory| #[trigger]
            reads(*read, memory) ==> result == indirect_outcome(
                memory,
                number,
                args@,
                protected@,
            ),
{
    if nothing_protected(protected) {
        return None;
    }
    match inspect(read, number, args, protected) {
        Ok(()) => None,
        Err(error) => Some(-(error as i64)),
    }
}

// ---------------------------------------------------------------------------
// Batches
// ---------------------------------------------------------------------------

/// What becomes of a batch.
#[derive(Clone, Copy, Debug, PartialEq, Eq)]
pub enum Batch {
    /// Submit these arguments.
    Forward([u64; 6]),
    /// The first entry is refused: submit these arguments, which ask for nothing, so
    /// that the kernel judges the rest of the call.
    Validate([u64; 6]),
}

pub enum BatchModel {
    Forward(Seq<u64>),
    Validate(Seq<u64>),
}

impl View for Batch {
    type V = BatchModel;

    open spec fn view(&self) -> BatchModel {
        match *self {
            Batch::Forward(args) => BatchModel::Forward(args@),
            Batch::Validate(args) => BatchModel::Validate(args@),
        }
    }
}

/// The descriptors of one request.
pub open spec fn request_result(memory: Memory, address: u64, protected: Seq<i32>) -> Result<
    (),
    i32,
> {
    match object(memory, address, 64) {
        Err(error) => Err(error),
        Ok(request) => if check_result(u32_at(request, 20) as u32 as i32, protected) is Err {
            Err(EBADF)
        } else if u32_at(request, 56) % 2 != 0 {
            check_result(u32_at(request, 60) as u32 as i32, protected)
        } else {
            Ok(())
        },
    }
}

/// The descriptors of one entry.
pub open spec fn entry_result(
    memory: Memory,
    number: i64,
    args: Seq<u64>,
    index: u64,
    protected: Seq<i32>,
) -> Result<(), i32> {
    if number == SYS_SENDMMSG {
        match element(args[1], index, BATCH_MESSAGE_SIZE) {
            Err(error) => Err(error),
            Ok(address) => message_result(memory, address, protected),
        }
    } else {
        match element(args[2], index, 8) {
            Err(error) => Err(error),
            Ok(position) => match object(memory, position, 8) {
                Err(error) => Err(error),
                Ok(pointer) => request_result(memory, u64_at(pointer, 0) as u64, protected),
            },
        }
    }
}

/// Which argument counts the entries, and how many of them the kernel would take.
pub open spec fn batch_extent(number: i64, args: Seq<u64>) -> Option<(int, u64)> {
    if number == SYS_SENDMMSG {
        let count = (args[2] as int % 0x1_0000_0000) as u64;
        Some((2, if count < MAX_MESSAGES { count } else { MAX_MESSAGES }))
    } else if number == SYS_IO_SUBMIT && 0 < args[1] < 0x8000_0000_0000_0000 {
        Some((1, args[1]))
    } else {
        None
    }
}

/// The entries from `index` on are inspected up to the first that cannot be: a
/// protected descriptor ends the batch before it, anything else is the kernel's to
/// report.
pub open spec fn batch_from(
    memory: Memory,
    number: i64,
    args: Seq<u64>,
    place: int,
    index: u64,
    count: u64,
    protected: Seq<i32>,
) -> BatchModel
    decreases count - index,
{
    if index >= count {
        BatchModel::Forward(args)
    } else {
        match entry_result(memory, number, args, index, protected) {
            Ok(()) => batch_from(
                memory,
                number,
                args,
                place,
                (index + 1) as u64,
                count,
                protected,
            ),
            Err(error) => if error != EBADF {
                BatchModel::Forward(args)
            } else if index != 0 {
                BatchModel::Forward(args.update(place, index))
            } else {
                BatchModel::Validate(args.update(place, 0))
            },
        }
    }
}

pub open spec fn batch_outcome(
    memory: Memory,
    number: i64,
    args: Seq<u64>,
    protected: Seq<i32>,
) -> BatchModel {
    if none_protected(protected) {
        BatchModel::Forward(args)
    } else {
        match batch_extent(number, args) {
            None => BatchModel::Forward(args),
            Some((place, count)) => batch_from(memory, number, args, place, 0, count, protected),
        }
    }
}

fn entry<F: Fn(u64, usize) -> Vec<u8>>(
    read: &F,
    number: i64,
    args: &[u64; 6],
    index: u64,
    protected: &[i32],
) -> (result: Result<(), i32>)
    requires
        total(*read),
    ensures
        forall|memory: Memory| #[trigger]
            reads(*read, memory) ==> result == entry_result(
                memory,
                number,
                args@,
                index,
                protected@,
            ),
{
    if number == SYS_SENDMMSG {
        return match offset(args[1], index, BATCH_MESSAGE_SIZE) {
            Ok(address) => message(read, address, protected),
            Err(error) => Err(error),
        };
    }
    let position: u64 = match offset(args[2], index, 8) {
        Ok(position) => position,
        Err(error) => return Err(error),
    };
    let pointer: Vec<u8> = match read_object(read, position, 8) {
        Ok(pointer) => pointer,
        Err(error) => return Err(error),
    };
    let request: Vec<u8> = match read_object(read, read_u64(pointer.as_slice(), 0), 64) {
        Ok(request) => request,
        Err(error) => return Err(error),
    };
    match check(read_u32(request.as_slice(), 20) as i32, protected) {
        Ok(()) => {},
        Err(error) => return Err(error),
    }
    if read_u32(request.as_slice(), 56) % 2 != 0 {
        return check(read_u32(request.as_slice(), 60) as i32, protected);
    }
    Ok(())
}

fn with_count(args: &[u64; 6], place: usize, count: u64) -> (result: [u64; 6])
    requires
        place == 1 || place == 2,
    ensures
        result@ == args@.update(place as int, count),
{
    let result: [u64; 6] = if place == 1 {
        [args[0], count, args[2], args[3], args[4], args[5]]
    } else {
        [args[0], args[1], count, args[3], args[4], args[5]]
    };
    assert(result@ =~= args@.update(place as int, count));
    result
}

/// Keeps protected descriptors out of a batch.
pub fn batch_args<F: Fn(u64, usize) -> Vec<u8>>(
    number: i64,
    args: &[u64; 6],
    protected: &[i32],
    read: &F,
) -> (result: Batch)
    requires
        total(*read),
    ensures
        none_protected(protected@) || batch_extent(number, args@) is None ==> result
            == Batch::Forward(*args),
        forall|memory: Memory| #[trigger]
            reads(*read, memory) ==> result@ == batch_outcome(memory, number, args@, protected@),
{
    if nothing_protected(protected) {
        return Batch::Forward(*args);
    }
    let place: usize;
    let count: u64;
    if number == SYS_SENDMMSG {
        let wanted: u64 = args[2] % 0x1_0000_0000;
        place = 2;
        count = if wanted < MAX_MESSAGES {
            wanted
        } else {
            MAX_MESSAGES
        };
    } else if number == SYS_IO_SUBMIT && 0 < args[1] && args[1] < 0x8000_0000_0000_0000 {
        place = 1;
        count = args[1];
    } else {
        return Batch::Forward(*args);
    }
    let mut index: u64 = 0;
    while index < count
        invariant
            index <= count,
            total(*read),
            place == 1 || place == 2,
            batch_extent(number, args@) == Some((place as int, count)),
            !none_protected(protected@),
            forall|memory: Memory| #[trigger]
                reads(*read, memory) ==> batch_outcome(memory, number, args@, protected@)
                    == batch_from(
                    memory,
                    number,
                    args@,
                    place as int,
                    index,
                    count,
                    protected@,
                ),
        decreases count - index,
    {
        match entry(read, number, args, index, protected) {
            Ok(()) => {},
            Err(error) => {
                if error != EBADF {
                    return Batch::Forward(*args);
                }
                if index != 0 {
                    return Batch::Forward(with_count(args, place, index));
                }
                return Batch::Validate(with_count(args, place, 0));
            },
        }
        index = index + 1;
    }
    Batch::Forward(*args)
}

/// The result of a batch whose first entry is refused: the kernel's own error, where
/// it has one.
pub fn validation_result(validation: i64) -> (result: i64)
    ensures
        result == if validation < 0 {
            validation as int
        } else {
            -EBADF
        },
{
    if validation < 0 {
        validation
    } else {
        -(EBADF as i64)
    }
}

// ---------------------------------------------------------------------------
// Single messages
// ---------------------------------------------------------------------------

/// The arguments that let the kernel judge the destination of a refused message. No
/// message header fits at the address that they name.
pub fn sendmsg_validation_args(args: &[u64; 6]) -> (probe: [u64; 6])
    ensures
        probe@ == seq![args@[0], u64::MAX, args@[2], 0, 0, 0],
{
    let probe: [u64; 6] = [args[0], u64::MAX, args[2], 0, 0, 0];
    assert(probe@ =~= seq![args@[0], u64::MAX, args@[2], 0, 0, 0]);
    probe
}

/// The result of a refused message: the kernel's error for the destination, unless
/// that is about the address that the probe named.
pub fn sendmsg_refusal(refusal: i64, validation: i64) -> (result: i64)
    ensures
        result == if validation < 0 && validation != -EFAULT {
            validation
        } else {
            refusal
        },
{
    if validation < 0 && validation != -(EFAULT as i64) {
        validation
    } else {
        refusal
    }
}

// ---------------------------------------------------------------------------
// Laws
// ---------------------------------------------------------------------------

proof fn array_holds_nothing_protected(
    memory: Memory,
    address: u64,
    from: u64,
    count: u64,
    protected: Seq<i32>,
    index: u64,
)
    requires
        array_result(memory, address, from, count, protected) is Ok,
        from <= index < count,
    ensures
        element(address, index, 4) is Ok,
        fd_at(memory, element(address, index, 4)->Ok_0) is Ok,
        !is_protected(fd_at(memory, element(address, index, 4)->Ok_0)->Ok_0, protected),
    decreases count - from,
{
    if from < index {
        array_holds_nothing_protected(
            memory,
            address,
            (from + 1) as u64,
            count,
            protected,
            index,
        );
    }
}

/// A registration of files that is let through names no protected descriptor: every
/// element of the array can be read and none is protected.
pub proof fn registrations_hold_nothing_protected(
    memory: Memory,
    args: Seq<u64>,
    protected: Seq<i32>,
    index: u64,
)
    requires
        args.len() == 6,
        args[1] as int % 0x8000_0000 == 2,
        !none_protected(protected),
        indirect_outcome(memory, SYS_IO_URING_REGISTER, args, protected) is None,
        index < args[3] as int % 0x1_0000_0000,
    ensures
        element(args[2], index, 4) is Ok,
        fd_at(memory, element(args[2], index, 4)->Ok_0) is Ok,
        !is_protected(fd_at(memory, element(args[2], index, 4)->Ok_0)->Ok_0, protected),
{
    array_holds_nothing_protected(
        memory,
        args[2],
        0,
        (args[3] as int % 0x1_0000_0000) as u64,
        protected,
        index,
    );
}

/// Where the entry stands that follows `number` others of a control buffer, and how
/// long it is.
pub open spec fn control_entry(
    memory: Memory,
    position: u64,
    remaining: u64,
    number: nat,
) -> Option<(u64, u64)>
    decreases number,
{
    if remaining < CONTROL_SIZE {
        None
    } else {
        match object(memory, position, CONTROL_SIZE) {
            Err(_) => None,
            Ok(header) => {
                let length = u64_at(header, 0);
                if length < CONTROL_SIZE || length > remaining {
                    None
                } else if number == 0 {
                    Some((position, length as u64))
                } else if padded(length as u64) > remaining || position + padded(length as u64)
                    > u64::MAX {
                    None
                } else {
                    control_entry(
                        memory,
                        (position + padded(length as u64)) as u64,
                        (remaining - padded(length as u64)) as u64,
                        (number - 1) as nat,
                    )
                }
            },
        }
    }
}

/// The control entry that follows `number` others of a message.
pub open spec fn message_entry(memory: Memory, address: u64, number: nat) -> Option<(u64, u64)> {
    match object(memory, address, MESSAGE_SIZE) {
        Err(_) => None,
        Ok(message) => control_entry(
            memory,
            u64_at(message, 32) as u64,
            u64_at(message, 40) as u64,
            number,
        ),
    }
}

/// The control entry transfers descriptors.
pub open spec fn transfers(memory: Memory, position: u64) -> bool {
    let header = memory(position, CONTROL_SIZE);
    u32_at(header, 8) == SOL_SOCKET && u32_at(header, 12) == SCM_RIGHTS
}

proof fn control_holds_nothing_protected(
    memory: Memory,
    start: u64,
    remaining: u64,
    protected: Seq<i32>,
    number: nat,
    index: u64,
)
    requires
        control_result(memory, start, remaining, protected) is Ok,
        control_entry(memory, start, remaining, number) matches Some((position, length))
            && transfers(memory, position) && index < (length - CONTROL_SIZE) / 4,
    ensures
        ({
            let base = (control_entry(memory, start, remaining, number)->0).0 + CONTROL_SIZE;
            &&& base <= u64::MAX
            &&& element(base as u64, index, 4) is Ok
            &&& fd_at(memory, element(base as u64, index, 4)->Ok_0) is Ok
            &&& !is_protected(fd_at(memory, element(base as u64, index, 4)->Ok_0)->Ok_0, protected)
        }),
    decreases number,
{
    let header = memory(start, CONTROL_SIZE);
    let length = u64_at(header, 0);
    if number == 0 {
        array_holds_nothing_protected(
            memory,
            (start + CONTROL_SIZE) as u64,
            0,
            ((length as u64 - CONTROL_SIZE) / 4) as u64,
            protected,
            index,
        );
    } else {
        control_holds_nothing_protected(
            memory,
            (start + padded(length as u64)) as u64,
            (remaining - padded(length as u64)) as u64,
            protected,
            (number - 1) as nat,
            index,
        );
    }
}

/// A message that is let through transfers no protected descriptor, in whichever of its
/// control entries.
pub proof fn messages_transfer_nothing_protected(
    memory: Memory,
    args: Seq<u64>,
    protected: Seq<i32>,
    number: nat,
    index: u64,
)
    requires
        args.len() == 6,
        !none_protected(protected),
        indirect_outcome(memory, SYS_SENDMSG, args, protected) is None,
        message_entry(memory, args[1], number) matches Some((position, length)) && transfers(
            memory,
            position,
        ) && index < (length - CONTROL_SIZE) / 4,
    ensures
        ({
            let base = (message_entry(memory, args[1], number)->0).0 + CONTROL_SIZE;
            &&& base <= u64::MAX
            &&& element(base as u64, index, 4) is Ok
            &&& fd_at(memory, element(base as u64, index, 4)->Ok_0) is Ok
            &&& !is_protected(fd_at(memory, element(base as u64, index, 4)->Ok_0)->Ok_0, protected)
        }),
{
    let message = memory(args[1], MESSAGE_SIZE);
    control_holds_nothing_protected(
        memory,
        u64_at(message, 32) as u64,
        u64_at(message, 40) as u64,
        protected,
        number,
        index,
    );
}

proof fn batch_prefix(
    memory: Memory,
    number: i64,
    args: Seq<u64>,
    place: int,
    from: u64,
    count: u64,
    protected: Seq<i32>,
    index: u64,
)
    requires
        0 <= place < args.len(),
        from <= index < count,
        forall|i: u64|
            from <= i < index ==> !(#[trigger] entry_result(memory, number, args, i, protected)
                is Err),
        entry_result(memory, number, args, index, protected) == Err::<(), i32>(EBADF),
    ensures
        batch_from(memory, number, args, place, from, count, protected) == if index != 0 {
            BatchModel::Forward(args.update(place, index))
        } else {
            BatchModel::Validate(args.update(place, 0))
        },
    decreases index - from,
{
    if from < index {
        assert(!(entry_result(memory, number, args, from, protected) is Err));
        batch_prefix(
            memory,
            number,
            args,
            place,
            (from + 1) as u64,
            count,
            protected,
            index,
        );
    }
}

/// A protected entry cuts a batch: exactly the entries before it are submitted, and
/// where it is the first, none is.
pub proof fn protected_entries_cut_batches(
    memory: Memory,
    number: i64,
    args: Seq<u64>,
    protected: Seq<i32>,
    index: u64,
)
    requires
        args.len() == 6,
        !none_protected(protected),
        batch_extent(number, args) is Some,
        index < (batch_extent(number, args)->0).1,
        forall|i: u64|
            i < index ==> !(#[trigger] entry_result(memory, number, args, i, protected) is Err),
        entry_result(memory, number, args, index, protected) == Err::<(), i32>(EBADF),
    ensures
        ({
            let place = (batch_extent(number, args)->0).0;
            batch_outcome(memory, number, args, protected) == if index != 0 {
                BatchModel::Forward(args.update(place, index))
            } else {
                BatchModel::Validate(args.update(place, 0))
            }
        }),
{
    let (place, count) = batch_extent(number, args)->0;
    batch_prefix(memory, number, args, place, 0, count, protected, index);
}

} // verus!

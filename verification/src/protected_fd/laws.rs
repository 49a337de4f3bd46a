//! What the inspection of indirect descriptors promises.

use vstd::prelude::*;

use crate::bytes::u32_at;
use crate::bytes::u64_at;
use crate::protected_fd::array_result;
use crate::protected_fd::batch_from;
use crate::protected_fd::batch_outcome;
use crate::protected_fd::check;
use crate::protected_fd::check_result;
use crate::protected_fd::checked_fd_at;
use crate::protected_fd::control_result;
use crate::protected_fd::element;
use crate::protected_fd::entry_result;
use crate::protected_fd::indirect_outcome;
use crate::protected_fd::inspect_result;
use crate::protected_fd::is_protected;
use crate::protected_fd::none_protected;
use crate::protected_fd::offset;
use crate::protected_fd::padded;
use crate::protected_fd::refusal_of;
use crate::protected_fd::sendmsg_refusal;
use crate::protected_fd::sendmsg_validation_args;
use crate::protected_fd::validation_result;
use crate::protected_fd::BatchModel;
use crate::protected_fd::Memory;

verus! {

// ---------------------------------------------------------------------------
// Bytes
// ---------------------------------------------------------------------------

/// The number that four bytes spell, the lowest first.
pub open spec fn word(bytes: Seq<u8>, at: int) -> int {
    bytes[at] + 0x100 * bytes[at + 1] + 0x1_0000 * bytes[at + 2] + 0x100_0000 * bytes[at + 3]
}

/// The number that eight bytes spell, the lowest first.
pub open spec fn long(bytes: Seq<u8>, at: int) -> int {
    word(bytes, at) + 0x1_0000_0000 * word(bytes, at + 4)
}

/// The four bytes name a protected descriptor.
pub open spec fn names_protected(bytes: Seq<u8>, at: int, protected: Seq<i32>) -> bool {
    exists|i: int| 0 <= i < protected.len() && (#[trigger] protected[i]) >= 0 && protected[i]
        == word(bytes, at)
}

/// A descriptor can be read there, and it is not protected.
pub open spec fn free_at(memory: Memory, address: int, protected: Seq<i32>) -> bool {
    &&& 0 <= address <= u64::MAX
    &&& memory(address as u64, 4).len() == 4
    &&& !names_protected(memory(address as u64, 4), 0, protected)
}

/// A protected descriptor can be read there.
pub open spec fn protected_at(memory: Memory, address: int, protected: Seq<i32>) -> bool {
    &&& 0 <= address <= u64::MAX
    &&& memory(address as u64, 4).len() == 4
    &&& names_protected(memory(address as u64, 4), 0, protected)
}

proof fn named_descriptors_are_read(bytes: Seq<u8>, at: int, protected: Seq<i32>)
    ensures
        check_result(u32_at(bytes, at) as u32 as i32, protected) == if names_protected(
            bytes,
            at,
            protected,
        ) {
            Err::<(), i32>(9i32)
        } else {
            Ok(())
        },
{
    let number = u32_at(bytes, at) as u32;
    let fd = number as i32;
    assert(number == word(bytes, at));
    assert((number >= 0x8000_0000u32 ==> (number as i32) < 0i32) && (number < 0x8000_0000u32 ==> (
    number as i32) as u32 == number && (number as i32) >= 0i32)) by (bit_vector);
    if is_protected(fd, protected) {
        let i = choose|i: int| 0 <= i < protected.len() && protected[i] == fd;
        assert(protected[i] == word(bytes, at));
    }
    if names_protected(bytes, at, protected) {
        let i = choose|i: int|
            0 <= i < protected.len() && (#[trigger] protected[i]) >= 0 && protected[i] == word(
                bytes,
                at,
            );
        assert(protected[i] == fd);
        assert(protected.contains(fd));
    }
}

proof fn single_descriptors_are_judged(memory: Memory, address: u64, protected: Seq<i32>)
    ensures
        checked_fd_at(memory, address, protected) == if memory(address, 4).len() != 4 {
            Err::<(), i32>(14i32)
        } else if names_protected(memory(address, 4), 0, protected) {
            Err(9i32)
        } else {
            Ok(())
        },
{
    named_descriptors_are_read(memory(address, 4), 0, protected);
}

proof fn arrays_are_judged_in_order(
    memory: Memory,
    address: u64,
    from: u64,
    count: u64,
    protected: Seq<i32>,
    index: u64,
)
    requires
        from <= index <= count,
        address + 4 * count <= u64::MAX,
        forall|i: int| from <= i < index ==> #[trigger] free_at(memory, address + 4 * i, protected),
        index < count ==> !free_at(memory, address + 4 * index, protected),
    ensures
        array_result(memory, address, from, count, protected) == if index == count {
            Ok::<(), i32>(())
        } else if memory((address + 4 * index) as u64, 4).len() != 4 {
            Err(14i32)
        } else {
            Err(9i32)
        },
    decreases index - from,
{
    if from < count {
        assert(from * 4 == 4 * from);
        single_descriptors_are_judged(memory, (address + 4 * from) as u64, protected);
        if from < index {
            assert(free_at(memory, address + 4 * from, protected));
            arrays_are_judged_in_order(memory, address, (from + 1) as u64, count, protected, index);
        }
    }
}

// ---------------------------------------------------------------------------
// Single descriptors
// ---------------------------------------------------------------------------

/// A descriptor is refused exactly where it is one of the protected ones; a negative number is
/// none.
pub proof fn protected_descriptors_are_refused(
    fd: i32,
    protected: &[i32],
    result: Result<(), i32>,
    index: int,
)
    requires
        call_ensures(check, (fd, protected), result),
    ensures
        0 <= index < protected@.len() && protected@[index] == fd && fd >= 0 ==> result == Err::<
            (),
            i32,
        >(9i32),
        fd < 0 ==> result is Ok,
        result is Err ==> exists|i: int| 0 <= i < protected@.len() && protected@[i] == fd,
{
}

/// The place of an element is its index times the stride from the base, where that is an
/// address.
pub proof fn elements_stand_at_their_stride(
    base: u64,
    index: u64,
    stride: u64,
    result: Result<u64, i32>,
)
    requires
        call_ensures(offset, (base, index, stride), result),
    ensures
        result is Ok <==> base + index * stride <= u64::MAX,
        result matches Ok(address) ==> address == base + index * stride,
        result matches Err(errno) ==> errno == 14,
{
}

// ---------------------------------------------------------------------------
// Registrations
// ---------------------------------------------------------------------------

proof fn registrations_are_arrays(memory: Memory, args: Seq<u64>, protected: Seq<i32>)
    requires
        args.len() == 6,
        args[1] == 2,
        args[3] <= u32::MAX,
        !none_protected(protected),
    ensures
        indirect_outcome(memory, 427, args, protected) == refusal_of(
            array_result(memory, args[2], 0, args[3], protected),
        ),
{
}

#[verifier::rlimit(40)]
proof fn registrations_point_to_arrays(memory: Memory, args: Seq<u64>, protected: Seq<i32>)
    requires
        args.len() == 6,
        args[3] <= u32::MAX,
        !none_protected(protected),
    ensures
        ({
            let refusal = indirect_outcome(memory, 427, args, protected);
            let short = memory(args[2], 16);
            let large = memory(args[2], 32);
            &&& args[1] == 6 && short.len() == 16 ==> refusal == refusal_of(
                array_result(memory, long(short, 8) as u64, 0, args[3], protected),
            )
            &&& args[1] == 13 && large.len() == 32 && !(word(large, 4) % 2 == 1 && long(large, 16)
                == 0) ==> refusal == refusal_of(
                array_result(
                    memory,
                    long(large, 16) as u64,
                    0,
                    word(large, 0) as u64,
                    protected,
                ),
            )
            &&& args[1] == 13 && large.len() == 32 && word(large, 4) % 2 == 1 && long(large, 16)
                == 0 ==> refusal is None
            &&& args[1] == 14 && large.len() == 32 ==> refusal == refusal_of(
                array_result(
                    memory,
                    long(large, 8) as u64,
                    0,
                    word(large, 24) as u64,
                    protected,
                ),
            )
            &&& (args[1] == 6 && short.len() != 16) || ((args[1] == 13 || args[1] == 14)
                && large.len() != 32) ==> refusal == Some((-14) as i64)
        }),
{
    let short = memory(args[2], 16);
    let large = memory(args[2], 32);
    assert(u64_at(short, 8) == long(short, 8));
    assert(u64_at(large, 8) == long(large, 8));
    assert(u64_at(large, 16) == long(large, 16));
    assert(u32_at(large, 0) == word(large, 0));
    assert(u32_at(large, 4) == word(large, 4));
    assert(u32_at(large, 24) == word(large, 24));
}

/// A registration of files from an array.
pub open spec fn of_array(args: Seq<u64>, pointer: int, count: int) -> Seq<u64> {
    args.update(1, 2).update(2, pointer as u64).update(3, count as u64)
}

/// A registration of files is judged in order: the first element that cannot be read is a
/// fault, the first that is protected a bad descriptor, and where there is neither the call is
/// the kernel's.
#[verifier::rlimit(40)]
pub proof fn registrations_are_judged_in_order(
    memory: Memory,
    args: Seq<u64>,
    protected: Seq<i32>,
    index: u64,
)
    requires
        args.len() == 6,
        args[1] == 2,
        args[3] <= u32::MAX,
        args[2] + 4 * args[3] <= u64::MAX,
        !none_protected(protected),
        index <= args[3],
        forall|i: int| 0 <= i < index ==> #[trigger] free_at(memory, args[2] + 4 * i, protected),
    ensures
        ({
            let refusal = indirect_outcome(memory, 427, args, protected);
            &&& index == args[3] ==> refusal is None
            &&& index < args[3] && protected_at(memory, args[2] + 4 * index, protected)
                ==> refusal == Some((-9) as i64)
            &&& index < args[3] && memory((args[2] + 4 * index) as u64, 4).len() != 4 ==> refusal
                == Some((-14) as i64)
        }),
{
    registrations_are_arrays(memory, args, protected);
    if index == args[3] || !free_at(memory, args[2] + 4 * index, protected) {
        arrays_are_judged_in_order(memory, args[2], 0, args[3], protected, index);
    }
}

/// A ring's event descriptor is judged as a single one.
#[verifier::rlimit(40)]
pub proof fn event_descriptors_are_judged(memory: Memory, args: Seq<u64>, protected: Seq<i32>)
    requires
        args.len() == 6,
        args[1] == 4 || args[1] == 7,
        !none_protected(protected),
    ensures
        ({
            let refusal = indirect_outcome(memory, 427, args, protected);
            &&& refusal is None <==> free_at(memory, args[2] as int, protected)
            &&& refusal == Some((-9) as i64) <==> protected_at(memory, args[2] as int, protected)
            &&& refusal is Some ==> refusal == Some((-9) as i64) || refusal == Some((-14) as i64)
        }),
{
    single_descriptors_are_judged(memory, args[2], protected);
}

/// The other registrations of files are those of the array that they point to: an update by
/// its second word, a sized registration by its third, and a sized update by its second, each
/// with its own count.
#[verifier::rlimit(40)]
pub proof fn registrations_are_those_of_their_array(
    memory: Memory,
    args: Seq<u64>,
    protected: Seq<i32>,
)
    requires
        args.len() == 6,
        args[3] <= u32::MAX,
        !none_protected(protected),
    ensures
        ({
            let refusal = indirect_outcome(memory, 427, args, protected);
            let short = memory(args[2], 16);
            let large = memory(args[2], 32);
            &&& args[1] == 6 && short.len() == 16 ==> refusal == indirect_outcome(
                memory,
                427,
                of_array(args, long(short, 8), args[3] as int),
                protected,
            )
            &&& args[1] == 13 && large.len() == 32 && !(word(large, 4) % 2 == 1 && long(large, 16)
                == 0) ==> refusal == indirect_outcome(
                memory,
                427,
                of_array(args, long(large, 16), word(large, 0)),
                protected,
            )
            &&& args[1] == 13 && large.len() == 32 && word(large, 4) % 2 == 1 && long(large, 16)
                == 0 ==> refusal is None
            &&& args[1] == 14 && large.len() == 32 ==> refusal == indirect_outcome(
                memory,
                427,
                of_array(args, long(large, 8), word(large, 24)),
                protected,
            )
            &&& ((args[1] == 6 && short.len() != 16) || ((args[1]
                == 13 || args[1] == 14) && large.len() != 32)) ==> refusal == Some((-14) as i64)
        }),
{
    let short = memory(args[2], 16);
    let large = memory(args[2], 32);
    registrations_point_to_arrays(memory, args, protected);
    if args[1] == 6 {
        registrations_are_arrays(memory, of_array(args, long(short, 8), args[3] as int), protected);
    } else if args[1] == 13 {
        registrations_are_arrays(
            memory,
            of_array(args, long(large, 16), word(large, 0)),
            protected,
        );
    } else if args[1] == 14 {
        registrations_are_arrays(
            memory,
            of_array(args, long(large, 8), word(large, 24)),
            protected,
        );
    }
}

/// The ring may be named by its registered index: that does not change what is registered.
#[verifier::spinoff_prover]
#[verifier::rlimit(40)]
pub proof fn registered_rings_are_judged_alike(
    memory: Memory,
    args: Seq<u64>,
    other: Seq<u64>,
    protected: Seq<i32>,
)
    requires
        args.len() == 6,
        other.len() == 6,
        other[1] == args[1] + 0x8000_0000,
        other[2] == args[2],
        other[3] == args[3],
    ensures
        indirect_outcome(memory, 427, args, protected) == indirect_outcome(
            memory,
            427,
            other,
            protected,
        ),
{
    assert(other[1] as int % 0x8000_0000 == args[1] as int % 0x8000_0000);
    assert(inspect_result(memory, 427, args, protected) == inspect_result(
        memory,
        427,
        other,
        protected,
    ));
}

/// What registers no descriptor passes.
pub proof fn other_registrations_pass(memory: Memory, args: Seq<u64>, protected: Seq<i32>)
    requires
        args.len() == 6,
        args[1] < 0x8000_0000,
        args[1] != 2 && args[1] != 4 && args[1] != 6 && args[1] != 7 && args[1] != 13 && args[1]
            != 14,
    ensures
        indirect_outcome(memory, 427, args, protected) is None,
{
}

/// The count of a registration is a 32-bit number.
#[verifier::rlimit(40)]
pub proof fn counts_are_32_bit_numbers(
    memory: Memory,
    args: Seq<u64>,
    other: Seq<u64>,
    protected: Seq<i32>,
)
    requires
        args.len() == 6,
        other.len() == 6,
        other[1] == args[1],
        other[2] == args[2],
        other[3] as int % 0x1_0000_0000 == args[3] as int % 0x1_0000_0000,
    ensures
        indirect_outcome(memory, 427, args, protected) == indirect_outcome(
            memory,
            427,
            other,
            protected,
        ),
{
}

/// Only messages and registrations name descriptors through memory, and only while something
/// is protected.
#[verifier::rlimit(40)]
pub proof fn other_calls_are_not_inspected(
    memory: Memory,
    number: i64,
    args: Seq<u64>,
    protected: Seq<i32>,
)
    ensures
        number != 46 && number != 427 ==> indirect_outcome(memory, number, args, protected)
            is None,
        (forall|i: int| 0 <= i < protected.len() ==> (#[trigger] protected[i]) < 0)
            ==> indirect_outcome(memory, number, args, protected) is None && batch_outcome(
            memory,
            number,
            args,
            protected,
        ) == BatchModel::Forward(args),
        number != 307 && number != 209 ==> batch_outcome(memory, number, args, protected)
            == BatchModel::Forward(args),
{
}

// ---------------------------------------------------------------------------
// Messages
// ---------------------------------------------------------------------------

/// Control entries start at multiples of eight bytes: an entry is padded by less than eight.
pub proof fn entries_are_padded_to_eight(length: u64)
    ensures
        padded(length) % 8 == 0,
        length <= padded(length) < length + 8,
{
}

/// A message is judged by its control buffer, whose address and length are its fifth and sixth
/// words; one that cannot be read is a fault, and one without control entries passes.
#[verifier::rlimit(40)]
pub proof fn messages_are_judged_by_their_control_buffer(
    memory: Memory,
    other: Seq<u64>,
    args: Seq<u64>,
    protected: Seq<i32>,
)
    requires
        args.len() == 6,
        other.len() == 6,
        !none_protected(protected),
    ensures
        ({
            let message = memory(args[1], 56);
            let another = memory(other[1], 56);
            let refusal = indirect_outcome(memory, 46, args, protected);
            &&& message.len() != 56 ==> refusal == Some((-14) as i64)
            &&& message.len() == 56 && long(message, 40) < 16 ==> refusal is None
            &&& message.len() == 56 && another.len() == 56 && long(message, 32) == long(another, 32)
                && long(message, 40) == long(another, 40) ==> refusal == indirect_outcome(
                memory,
                46,
                other,
                protected,
            )
        }),
{
}

proof fn entries_are_followed(
    memory: Memory,
    position: u64,
    remaining: u64,
    header: Seq<u8>,
    protected: Seq<i32>,
)
    requires
        header == memory(position, 16),
        remaining >= 16,
        header.len() == 16,
        16 <= long(header, 0) <= remaining,
        (long(header, 0) + 7) / 8 * 8 <= remaining,
        position + remaining <= u64::MAX,
    ensures
        ({
            let length = long(header, 0);
            let next = (length + 7) / 8 * 8;
            let rights = word(header, 8) == 1 && word(header, 12) == 1;
            let behind = control_result(
                memory,
                (position + next) as u64,
                (remaining - next) as u64,
                protected,
            );
            let transferred = array_result(
                memory,
                (position + 16) as u64,
                0,
                ((length - 16) / 4) as u64,
                protected,
            );
            control_result(memory, position, remaining, protected) == if rights && transferred
                is Err {
                transferred
            } else {
                behind
            }
        }),
{
    assert(u64_at(header, 0) == long(header, 0));
    assert(u32_at(header, 8) == word(header, 8));
    assert(u32_at(header, 12) == word(header, 12));
}

proof fn messages_are_control_buffers(memory: Memory, args: Seq<u64>, protected: Seq<i32>)
    requires
        args.len() == 6,
        !none_protected(protected),
        memory(args[1], 56).len() == 56,
    ensures
        indirect_outcome(memory, 46, args, protected) == refusal_of(
            control_result(
                memory,
                long(memory(args[1], 56), 32) as u64,
                long(memory(args[1], 56), 40) as u64,
                protected,
            ),
        ),
{
    let message = memory(args[1], 56);
    assert(u64_at(message, 32) == long(message, 32));
    assert(u64_at(message, 40) == long(message, 40));
}

/// An entry that transfers descriptors is judged as a registration of them would be, behind its
/// header and for as many as it holds; what is not refused there is judged by the entries
/// behind it.
#[verifier::rlimit(40)]
pub proof fn transfers_are_judged_as_registrations(
    memory: Memory,
    args: Seq<u64>,
    next: Seq<u64>,
    array: Seq<u64>,
    protected: Seq<i32>,
)
    requires
        args.len() == 6,
        next.len() == 6,
        array.len() == 6,
        !none_protected(protected),
        memory(args[1], 56).len() == 56,
        memory(next[1], 56).len() == 56,
        ({
            let position = long(memory(args[1], 56), 32);
            let remaining = long(memory(args[1], 56), 40);
            let header = memory(position as u64, 16);
            let length = long(header, 0);
            &&& remaining >= 16
            &&& header.len() == 16
            &&& 16 <= length <= remaining
            &&& (length + 7) / 8 * 8 <= remaining
            &&& position + remaining <= u64::MAX
            &&& long(memory(next[1], 56), 32) == position + (length + 7) / 8 * 8
            &&& long(memory(next[1], 56), 40) == remaining - (length + 7) / 8 * 8
            &&& (length - 16) / 4 <= u32::MAX
            &&& array[1] == 2
            &&& array[2] == position + 16
            &&& array[3] == (length - 16) / 4
        }),
    ensures
        ({
            let header = memory(long(memory(args[1], 56), 32) as u64, 16);
            let rights = word(header, 8) == 1 && word(header, 12) == 1;
            let refusal = indirect_outcome(memory, 46, args, protected);
            let behind = indirect_outcome(memory, 46, next, protected);
            let transferred = indirect_outcome(memory, 427, array, protected);
            &&& !rights ==> refusal == behind
            &&& rights && transferred is Some ==> refusal == transferred
            &&& rights && transferred is None ==> refusal == behind
        }),
{
    let message = memory(args[1], 56);
    let position = long(message, 32) as u64;
    messages_are_control_buffers(memory, args, protected);
    messages_are_control_buffers(memory, next, protected);
    registrations_are_arrays(memory, array, protected);
    entries_are_followed(
        memory,
        position,
        long(message, 40) as u64,
        memory(position, 16),
        protected,
    );
}

/// The last entry may lack its padding. An entry shorter than its header, or longer than what is
/// left, is malformed, and one that cannot be read is a fault.
#[verifier::rlimit(40)]
pub proof fn malformed_entries_are_refused(memory: Memory, args: Seq<u64>, protected: Seq<i32>)
    requires
        args.len() == 6,
        !none_protected(protected),
        memory(args[1], 56).len() == 56,
        long(memory(args[1], 56), 40) >= 16,
    ensures
        ({
            let position = long(memory(args[1], 56), 32);
            let remaining = long(memory(args[1], 56), 40);
            let header = memory(position as u64, 16);
            let length = long(header, 0);
            let refusal = indirect_outcome(memory, 46, args, protected);
            &&& header.len() != 16 ==> refusal == Some((-14) as i64)
            &&& header.len() == 16 && (length < 16 || length > remaining) ==> refusal == Some(
                (-22) as i64,
            )
            &&& header.len() == 16 && 16 <= length <= remaining && length + 7 <= u64::MAX && (length
                + 7) / 8 * 8 > remaining && !(word(header, 8) == 1 && word(header, 12) == 1)
                ==> refusal is None
        }),
{
    let message = memory(args[1], 56);
    let header = memory(u64_at(message, 32) as u64, 16);
    assert(u64_at(message, 32) == long(message, 32));
    assert(u64_at(message, 40) == long(message, 40));
    assert(u64_at(header, 0) == long(header, 0));
    assert(u32_at(header, 8) == word(header, 8));
    assert(u32_at(header, 12) == word(header, 12));
}

// ---------------------------------------------------------------------------
// Batches
// ---------------------------------------------------------------------------

/// The arguments of the single message that stands at an index of a batch.
pub open spec fn message_of_batch(args: Seq<u64>, index: int) -> Seq<u64> {
    args.update(1, (args[1] + 64 * index) as u64)
}

proof fn messages_of_batches_are_judged(
    memory: Memory,
    args: Seq<u64>,
    protected: Seq<i32>,
    index: u64,
)
    requires
        args.len() == 6,
        !none_protected(protected),
        index < 1024,
        args[1] + 64 * index <= u64::MAX,
    ensures
        ({
            let single = indirect_outcome(memory, 46, message_of_batch(args, index as int), protected);
            let entry = entry_result(memory, 307, args, index, protected);
            &&& entry is Ok <==> single is None
            &&& entry matches Err(errno) ==> single == Some((-(errno as int)) as i64)
        }),
{
    assert(index * 64 == 64 * index);
}

proof fn errors_are_small(memory: Memory, args: Seq<u64>, protected: Seq<i32>, index: u64)
    ensures
        entry_result(memory, 307, args, index, protected) matches Err(errno) ==> errno == 9 || errno
            == 14 || errno == 22,
{
    match element(args[1], index, 64) {
        Err(_) => {},
        Ok(address) => {
            let message = memory(address, 56);
            control_errors(memory, u64_at(message, 32) as u64, u64_at(message, 40) as u64, protected);
        },
    }
}

proof fn array_errors(memory: Memory, address: u64, index: u64, count: u64, protected: Seq<i32>)
    ensures
        array_result(memory, address, index, count, protected) matches Err(errno) ==> errno == 9
            || errno == 14,
    decreases count - index,
{
    if index < count {
        array_errors(memory, address, (index + 1) as u64, count, protected);
    }
}

proof fn control_errors(memory: Memory, position: u64, remaining: u64, protected: Seq<i32>)
    ensures
        control_result(memory, position, remaining, protected) matches Err(errno) ==> errno == 9
            || errno == 14 || errno == 22,
    decreases remaining,
{
    if remaining >= 16 {
        let header = memory(position, 16);
        let length = u64_at(header, 0) as u64;
        array_errors(
            memory,
            (position + 16) as u64,
            0,
            ((length - 16) / 4) as u64,
            protected,
        );
        if header.len() == 16 && 16 <= u64_at(header, 0) <= remaining && padded(length)
            <= remaining && position + padded(length) <= u64::MAX {
            control_errors(
                memory,
                (position + padded(length)) as u64,
                (remaining - padded(length)) as u64,
                protected,
            );
        }
    }
}

proof fn batches_are_walked(memory: Memory, args: Seq<u64>, protected: Seq<i32>, count: u64)
    requires
        args.len() == 6,
        !none_protected(protected),
        args[2] <= u32::MAX,
        count == if args[2] < 1024 {
            args[2]
        } else {
            1024
        },
    ensures
        batch_outcome(memory, 307, args, protected) == batch_from(
            memory,
            307,
            args,
            2,
            0,
            count,
            protected,
        ),
{
}

/// A batch of messages is submitted up to the first that would be refused on its own for a
/// protected descriptor, with everything else as it was; the kernel takes 1024 at most, so no
/// more are looked at. Where the first message is the one, nothing is submitted.
#[verifier::rlimit(40)]
pub proof fn message_batches_end_before_a_protected_one(
    memory: Memory,
    args: Seq<u64>,
    protected: Seq<i32>,
    index: u64,
)
    requires
        args.len() == 6,
        !none_protected(protected),
        args[2] <= u32::MAX,
        args[1] + 64 * 1024 <= u64::MAX,
        index <= args[2],
        index <= 1024,
        forall|i: int|
            0 <= i < index ==> indirect_outcome(
                memory,
                46,
                #[trigger] message_of_batch(args, i),
                protected,
            ) is None,
    ensures
        ({
            let outcome = batch_outcome(memory, 307, args, protected);
            let single = indirect_outcome(
                memory,
                46,
                message_of_batch(args, index as int),
                protected,
            );
            let last = index == args[2] || index == 1024;
            &&& last ==> outcome == BatchModel::Forward(args)
            &&& !last && single is Some && single != Some((-9) as i64) ==> outcome
                == BatchModel::Forward(args)
            &&& !last && single == Some((-9) as i64) && index > 0 ==> outcome
                == BatchModel::Forward(args.update(2, index))
            &&& !last && single == Some((-9) as i64) && index == 0 ==> outcome
                == BatchModel::Validate(args.update(2, 0))
        }),
{
    let count = if args[2] < 1024 {
        args[2]
    } else {
        1024u64
    };
    batches_are_walked(memory, args, protected, count);
    messages_are_judged_in_order(memory, args, protected, 0, count, index);
}

#[verifier::rlimit(40)]
proof fn messages_are_judged_in_order(
    memory: Memory,
    args: Seq<u64>,
    protected: Seq<i32>,
    from: u64,
    count: u64,
    index: u64,
)
    requires
        args.len() == 6,
        !none_protected(protected),
        args[1] + 64 * 1024 <= u64::MAX,
        from <= index <= count <= 1024,
        forall|i: int|
            from <= i < index ==> indirect_outcome(
                memory,
                46,
                #[trigger] message_of_batch(args, i),
                protected,
            ) is None,
    ensures
        ({
            let outcome = batch_from(memory, 307, args, 2, from, count, protected);
            let single = indirect_outcome(
                memory,
                46,
                message_of_batch(args, index as int),
                protected,
            );
            &&& index == count ==> outcome == BatchModel::Forward(args)
            &&& index < count && single is Some && single != Some((-9) as i64) ==> outcome
                == BatchModel::Forward(args)
            &&& index < count && single == Some((-9) as i64) && index > 0 ==> outcome
                == BatchModel::Forward(args.update(2, index))
            &&& index < count && single == Some((-9) as i64) && index == 0 ==> outcome
                == BatchModel::Validate(args.update(2, 0))
        }),
    decreases index - from,
{
    if from < count {
        messages_of_batches_are_judged(memory, args, protected, from);
        errors_are_small(memory, args, protected, from);
        if from < index {
            assert(indirect_outcome(memory, 46, message_of_batch(args, from as int), protected)
                is None);
            messages_are_judged_in_order(
                memory,
                args,
                protected,
                (from + 1) as u64,
                count,
                index,
            );
        }
    }
}

/// The request is readable and names no protected descriptor: not the one that it works on, nor,
/// where its flag is set, the one that it notifies.
pub open spec fn free_request(memory: Memory, args: Seq<u64>, protected: Seq<i32>, index: int) -> bool {
    let pointer = memory((args[2] + 8 * index) as u64, 8);
    let request = memory(long(pointer, 0) as u64, 64);
    &&& pointer.len() == 8
    &&& request.len() == 64
    &&& !names_protected(request, 20, protected)
    &&& !(word(request, 56) % 2 == 1 && names_protected(request, 60, protected))
}

/// The request is readable and names a protected descriptor.
pub open spec fn protected_request(
    memory: Memory,
    args: Seq<u64>,
    protected: Seq<i32>,
    index: int,
) -> bool {
    let pointer = memory((args[2] + 8 * index) as u64, 8);
    let request = memory(long(pointer, 0) as u64, 64);
    &&& pointer.len() == 8
    &&& request.len() == 64
    &&& !free_request(memory, args, protected, index)
}

proof fn requests_are_judged(memory: Memory, args: Seq<u64>, protected: Seq<i32>, index: u64)
    requires
        args.len() == 6,
        args[2] + 8 * index <= u64::MAX,
    ensures
        entry_result(memory, 209, args, index, protected) == if free_request(
            memory,
            args,
            protected,
            index as int,
        ) {
            Ok::<(), i32>(())
        } else if protected_request(memory, args, protected, index as int) {
            Err(9i32)
        } else {
            Err(14i32)
        },
{
    assert(index * 8 == 8 * index);
    let pointer = memory((args[2] + 8 * index) as u64, 8);
    let request = memory(long(pointer, 0) as u64, 64);
    assert(u64_at(pointer, 0) == long(pointer, 0));
    assert(u32_at(request, 56) == word(request, 56));
    named_descriptors_are_read(request, 20, protected);
    named_descriptors_are_read(request, 60, protected);
}

/// A batch of requests is submitted up to the first that names a protected descriptor, with
/// everything else as it was; what cannot be read is the kernel's to report. Where the first
/// request is the one, nothing is submitted.
#[verifier::rlimit(40)]
pub proof fn request_batches_end_before_a_protected_one(
    memory: Memory,
    args: Seq<u64>,
    protected: Seq<i32>,
    index: u64,
)
    requires
        args.len() == 6,
        !none_protected(protected),
        0 < args[1] < 0x8000_0000_0000_0000,
        args[2] + 8 * args[1] <= u64::MAX,
        index <= args[1],
        forall|i: int| 0 <= i < index ==> #[trigger] free_request(memory, args, protected, i),
    ensures
        ({
            let outcome = batch_outcome(memory, 209, args, protected);
            let last = index == args[1];
            let free = free_request(memory, args, protected, index as int);
            let refused = protected_request(memory, args, protected, index as int);
            &&& last ==> outcome == BatchModel::Forward(args)
            &&& !last && !free && !refused ==> outcome == BatchModel::Forward(args)
            &&& !last && refused && index > 0 ==> outcome == BatchModel::Forward(
                args.update(1, index),
            )
            &&& !last && refused && index == 0 ==> outcome == BatchModel::Validate(
                args.update(1, 0),
            )
        }),
{
    requests_are_judged_in_order(memory, args, protected, 0, index);
}

proof fn requests_are_judged_in_order(
    memory: Memory,
    args: Seq<u64>,
    protected: Seq<i32>,
    from: u64,
    index: u64,
)
    requires
        args.len() == 6,
        args[2] + 8 * args[1] <= u64::MAX,
        from <= index <= args[1],
        forall|i: int| from <= i < index ==> #[trigger] free_request(memory, args, protected, i),
    ensures
        ({
            let outcome = batch_from(memory, 209, args, 1, from, args[1], protected);
            let last = index == args[1];
            let free = free_request(memory, args, protected, index as int);
            let refused = protected_request(memory, args, protected, index as int);
            &&& last ==> outcome == BatchModel::Forward(args)
            &&& !last && !free && !refused ==> outcome == BatchModel::Forward(args)
            &&& !last && refused && index > 0 ==> outcome == BatchModel::Forward(
                args.update(1, index),
            )
            &&& !last && refused && index == 0 ==> outcome == BatchModel::Validate(
                args.update(1, 0),
            )
        }),
    decreases index - from,
{
    if from < args[1] {
        requests_are_judged(memory, args, protected, from);
        if from < index {
            assert(free_request(memory, args, protected, from as int));
            requests_are_judged_in_order(memory, args, protected, (from + 1) as u64, index);
        }
    }
}

/// A batch without a count that the kernel would take is left to it.
pub proof fn uncounted_batches_pass(memory: Memory, args: Seq<u64>, protected: Seq<i32>)
    requires
        args.len() == 6,
        args[1] == 0 || args[1] >= 0x8000_0000_0000_0000,
    ensures
        batch_outcome(memory, 209, args, protected) == BatchModel::Forward(args),
{
}

// ---------------------------------------------------------------------------
// Refusals
// ---------------------------------------------------------------------------

/// What is refused fails, with the kernel's own error for the rest of the call where it has
/// one.
pub proof fn refusals_fail_as_the_kernel_says(
    validation: i64,
    refusal: i64,
    batch: i64,
    single: i64,
)
    requires
        refusal < 0,
        call_ensures(validation_result, (validation,), batch),
        call_ensures(sendmsg_refusal, (refusal, validation), single),
    ensures
        batch < 0,
        single < 0,
        validation < 0 ==> batch == validation,
        validation >= 0 ==> batch == -9,
        validation < 0 && validation != -14 ==> single == validation,
        validation >= 0 || validation == -14 ==> single == refusal,
{
}

/// The probe of a refused message has its socket and its flags, and no message.
pub proof fn probes_name_no_message(args: [u64; 6], probe: [u64; 6])
    requires
        call_ensures(sendmsg_validation_args, (&args,), probe),
    ensures
        probe@[0] == args@[0],
        probe@[1] == u64::MAX,
        probe@[2] == args@[2],
        probe@[3] == 0 && probe@[4] == 0 && probe@[5] == 0,
{
}

} // verus!

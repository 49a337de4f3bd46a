//! What protecting the runtime's descriptors promises of every call.

use vstd::prelude::*;

use crate::runtime::descriptors::all_reserved;
use crate::runtime::descriptors::close_range_preserving_event_fd;
use crate::runtime::descriptors::closing_spares_exactly_the_reserved;
use crate::runtime::descriptors::covered;
use crate::runtime::descriptors::first_touched;
use crate::runtime::descriptors::forward_kernel_args;
use crate::runtime::descriptors::invalid_range_result;
use crate::runtime::descriptors::is_protection;
use crate::runtime::descriptors::low;
use crate::runtime::descriptors::protect_compatibility_event_channel;
use crate::runtime::descriptors::protect_coordinator_channel;
use crate::runtime::descriptors::syscall_targets_event_fd;
use crate::runtime::descriptors::targets;
use crate::runtime::descriptors::touches;
use crate::runtime::descriptors::widened;
use crate::runtime::descriptors::CloseRange;
use crate::runtime::descriptors::CoordinatorSlot;
use crate::runtime::descriptors::Protection;
use crate::runtime::descriptors::SlotConflict;

verus! {

/// Which argument places of a call hold descriptors, by the numbers of the calls. A mapping
/// has one only where it is of a file.
pub open spec fn holds_descriptor(number: i64, args: Seq<u64>, place: int) -> bool {
    if place == 0 {
        match number {
            // read, write, fstat, lseek, ioctl, pread64, pwrite64, readv, writev, dup, dup2
            0 | 1 | 5 | 8 | 16 | 17 | 18 | 19 | 20 | 32 | 33 => true,
            // sendfile, sendto, recvfrom, sendmsg, recvmsg, shutdown, bind, getsockname,
            // setsockopt, getsockopt
            40 | 44 | 45 | 46 | 47 | 48 | 49 | 51 | 54 | 55 => true,
            // fcntl, fsync, ftruncate, getdents64, inotify_add_watch, splice, tee, vmsplice,
            // fallocate, dup3, preadv, pwritev
            72 | 74 | 77 | 217 | 254 | 275 | 276 | 278 | 285 | 292 | 295 | 296 => true,
            // recvmmsg, sendmmsg, copy_file_range, preadv2, pwritev2
            299 | 307 | 326 | 327 | 328 => true,
            _ => false,
        }
    } else if place == 1 {
        // dup2, sendfile, tee, dup3
        number == 33 || number == 40 || number == 276 || number == 292
    } else if place == 2 {
        // splice, copy_file_range
        number == 275 || number == 326
    } else {
        // mmap
        place == 4 && number == 9 && args[3] as int / 32 % 2 == 0
    }
}

/// A descriptor stands at an argument place, of which the kernel reads the low half.
pub open spec fn stands_at(number: i64, args: Seq<u64>, place: int, fd: int) -> bool {
    holds_descriptor(number, args, place) && args[place] as int % 0x1_0000_0000 == fd
}

proof fn targets_are_operands(number: i64, args: Seq<u64>, fd: u64)
    ensures
        targets(number, args, fd) <==> (exists|place: int| stands_at(number, args, place, fd as int)),
        targets(number, args, fd) <==> stands_at(number, args, 0, fd as int) || stands_at(
            number,
            args,
            1,
            fd as int,
        ) || stands_at(number, args, 2, fd as int) || stands_at(number, args, 4, fd as int),
{
    assert(targets(number, args, fd) <==> stands_at(number, args, 0, fd as int) || stands_at(
        number,
        args,
        1,
        fd as int,
    ) || stands_at(number, args, 2, fd as int) || stands_at(number, args, 4, fd as int));
}

/// A call names a descriptor exactly where one of its descriptor operands is that one, in
/// whichever place it stands.
pub proof fn every_operand_counts(
    number: i64,
    args: [u64; 6],
    fd: u64,
    place: int,
    result: bool,
)
    requires
        call_ensures(syscall_targets_event_fd, (number, &args, fd), result),
    ensures
        stands_at(number, args@, place, fd as int) ==> result,
        result <==> (exists|place: int| stands_at(number, args@, place, fd as int)),
        result ==> fd < 0x1_0000_0000,
{
    targets_are_operands(number, args@, fd);
}

/// What else a call holds does not matter: two calls of one number with the same descriptors
/// are judged alike.
pub proof fn only_the_operands_count(
    number: i64,
    args: [u64; 6],
    other: [u64; 6],
    fd: u64,
    result: bool,
    other_result: bool,
)
    requires
        forall|place: int|
            holds_descriptor(number, args@, place) == #[trigger] holds_descriptor(
                number,
                other@,
                place,
            ),
        forall|place: int| #[trigger]
            holds_descriptor(number, args@, place) ==> args@[place] as int % 0x1_0000_0000
                == other@[place] as int % 0x1_0000_0000,
        call_ensures(syscall_targets_event_fd, (number, &args, fd), result),
        call_ensures(syscall_targets_event_fd, (number, &other, fd), other_result),
    ensures
        result == other_result,
{
    targets_are_operands(number, args@, fd);
    targets_are_operands(number, other@, fd);
    assert(holds_descriptor(number, args@, 0) == holds_descriptor(number, other@, 0));
    assert(holds_descriptor(number, args@, 1) == holds_descriptor(number, other@, 1));
    assert(holds_descriptor(number, args@, 2) == holds_descriptor(number, other@, 2));
    assert(holds_descriptor(number, args@, 4) == holds_descriptor(number, other@, 4));
}

proof fn first_touched_finds(
    number: i64,
    args: Seq<u64>,
    protected: Seq<i32>,
    from: int,
    index: int,
)
    requires
        0 <= from <= index < protected.len(),
        protected[index] >= 0,
        touches(number, args, protected[index] as u64),
    ensures
        first_touched(number, args, protected, from) is Some,
    decreases index - from,
{
    if from < index {
        first_touched_finds(number, args, protected, from + 1, index);
    }
}

proof fn first_touched_is_touched(
    number: i64,
    args: Seq<u64>,
    protected: Seq<i32>,
    from: int,
)
    requires
        0 <= from,
    ensures
        first_touched(number, args, protected, from) matches Some(fd) ==> fd >= 0
            && protected.contains(fd) && touches(number, args, fd as u64),
    decreases protected.len() - from,
{
    if from < protected.len() {
        first_touched_is_touched(number, args, protected, from + 1);
        if protected[from] >= 0 && touches(number, args, widened(protected[from])) {
            assert(protected.contains(protected[from]));
        }
    }
}

/// A call does not pass that names a protected descriptor in any of its operands, closes it,
/// or closes a range around it.
pub proof fn calls_on_protected_descriptors_do_not_pass<F: Fn(u64, usize) -> Vec<u8>>(
    number: i64,
    args: [u64; 6],
    protected: &[i32],
    read: F,
    protection: Protection,
    fd: i32,
    place: int,
)
    requires
        call_ensures(
            protect_coordinator_channel::<F>,
            (number, &args, protected, &read),
            protection,
        ),
        protected@.contains(fd),
        fd >= 0,
    ensures
        stands_at(number, args@, place, fd as int) ==> !(protection is Pass),
        number == 3 && args@[0] as int % 0x1_0000_0000 == fd ==> !(protection is Pass),
        number == 436 && args@[0] as int % 0x1_0000_0000 <= fd <= args@[1] as int % 0x1_0000_0000
            ==> !(protection is Pass),
{
    let index = choose|index: int| 0 <= index < protected@.len() && protected@[index] == fd;
    targets_are_operands(number, args@, fd as u64);
    if touches(number, args@, fd as u64) {
        first_touched_finds(number, args@, protected@, 0, index);
    }
}

/// A call that names nothing protected, directly or through memory, passes; what does not
/// pass is answered as if the descriptor were not open, but that closing it succeeds and
/// closing a range goes round it.
pub proof fn calls_are_answered_as_if_unopened(
    number: i64,
    args: Seq<u64>,
    protected: Seq<i32>,
    protection: Protection,
)
    requires
        is_protection(protection, number, args, protected, None),
    ensures
        (forall|fd: i32, place: int|
            fd >= 0 && #[trigger] protected.contains(fd) ==> !(#[trigger] stands_at(
                number,
                args,
                place,
                fd as int,
            ))) && number != 3 && number != 436 ==> protection is Pass,
        !(protection is Pass) && number != 3 && number != 436 ==> protection == Protection::Answer(
            (-9) as i64,
        ),
        !(protection is Pass) && number == 3 ==> protection == Protection::Answer(0),
        !(protection is Pass) && number == 436 ==> protection is Close,
        number == 3 && !(protection is Pass) ==> (exists|fd: i32|
            fd >= 0 && #[trigger] protected.contains(fd) && args[0] as int % 0x1_0000_0000 == fd),
        number == 436 && !(protection is Pass) ==> (exists|fd: i32|
            fd >= 0 && #[trigger] protected.contains(fd) && args[0] as int % 0x1_0000_0000 <= fd
                <= args[1] as int % 0x1_0000_0000),
{
    first_touched_is_touched(number, args, protected, 0);
    if first_touched(number, args, protected, 0) is Some {
        let fd = first_touched(number, args, protected, 0)->0;
        targets_are_operands(number, args, fd as u64);
        assert(protected.contains(fd));
        if number != 3 && number != 436 {
            let place = choose|place: int| stands_at(number, args, place, fd as int);
            assert(stands_at(number, args, place, fd as int));
        }
    }
}

/// A call that is refused for what it names through memory gets that refusal; only a
/// message is first judged by the kernel, at its own destination, without its content.
pub proof fn indirect_refusals_are_answered(
    number: i64,
    args: Seq<u64>,
    protected: Seq<i32>,
    protection: Protection,
    refusal: i64,
)
    requires
        is_protection(protection, number, args, protected, Some(refusal)),
    ensures
        number != 46 ==> protection == Protection::Answer(refusal),
        number == 46 ==> (protection matches Protection::Validate { args: probe, refusal: kept }
            && kept == refusal && probe@[0] == args[0] && probe@[2] == args[2] && probe@[1]
            == u64::MAX),
{
}

// ---------------------------------------------------------------------------
// Closing ranges
// ---------------------------------------------------------------------------

/// A range is closed without the event descriptor and without a protected one, and without
/// leaving any other out; sharing ends first exactly where that is asked for.
pub proof fn ranges_are_closed_around_the_reserved(
    args: [u64; 6],
    event_fd: u64,
    protected: &[i32],
    plan: CloseRange,
    fd: u64,
)
    requires
        call_ensures(close_range_preserving_event_fd, (&args, event_fd, protected), plan),
    ensures
        ({
            let flags = args@[2] as int % 0x1_0000_0000;
            &&& plan is Invalid <==> !(flags == 0 || flags == 2 || flags == 4 || flags == 6)
            &&& plan matches CloseRange::Plan { unshare, flags: kept, pieces: ranges } ==> {
                &&& unshare <==> flags == 2 || flags == 6
                &&& kept == 0 || kept == 4
                &&& kept == 4 <==> flags == 4 || flags == 6
                &&& covered(ranges@, fd) <==> args@[0] as int % 0x1_0000_0000 <= fd <= args@[1]
                    as int % 0x1_0000_0000 && fd != event_fd && !(exists|index: int|
                    0 <= index < protected@.len() && (#[trigger] protected@[index]) as u64 == fd)
            }
        }),
{
    let reserved = all_reserved(event_fd, protected@);
    closing_spares_exactly_the_reserved(reserved, low(args@[0]), low(args@[1]), fd);
    assert(reserved[0] == event_fd);
    assert forall|index: int| 0 <= index < protected@.len() implies reserved.contains(
        (#[trigger] protected@[index]) as u64,
    ) by {
        assert(reserved[index + 1] == widened(protected@[index]));
    }
    if reserved.contains(fd) && fd != event_fd {
        let place = choose|place: int| 0 <= place < reserved.len() && reserved[place] == fd;
        assert(reserved[place] == widened(protected@[place - 1]));
    }
}

/// A plan with unknown flags is refused as an invalid argument.
pub proof fn unknown_flags_are_invalid(result: i64)
    requires
        call_ensures(invalid_range_result, (), result),
    ensures
        result == -22,
{
}

// ---------------------------------------------------------------------------
// The event channel
// ---------------------------------------------------------------------------

/// No call that passes names, closes or closes around the event descriptor, and every other
/// one passes.
pub proof fn the_event_channel_is_out_of_reach(
    number: i64,
    args: [u64; 6],
    event_fd: i32,
    protected: &[i32],
    protection: Protection,
)
    requires
        call_ensures(
            protect_compatibility_event_channel,
            (number, &args, event_fd, protected),
            protection,
        ),
        event_fd >= 0,
    ensures
        ({
            let fd = event_fd as u64;
            let closed = number == 3 && args@[0] == fd;
            let ranged = number == 436 && args@[0] <= fd <= args@[1];
            let named = exists|place: int| stands_at(number, args@, place, fd as int);
            &&& protection is Pass <==> !closed && !ranged && !named
            &&& closed ==> protection == Protection::Answer(0)
            &&& ranged ==> protection is Close
            &&& named ==> protection == Protection::Answer((-9) as i64)
        }),
{
    targets_are_operands(number, args@, event_fd as u64);
}

// ---------------------------------------------------------------------------
// Directories
// ---------------------------------------------------------------------------

/// Which argument places of a call hold directories: the first of openat, newfstatat,
/// unlinkat, and the first and the third of renameat and linkat.
pub open spec fn holds_directory(number: i64, place: int) -> bool {
    if place == 0 {
        257 <= number <= 265 && number != 258 && number != 259 && number != 260 && number != 261
    } else {
        place == 2 && (number == 264 || number == 265)
    }
}

/// The kernel gets every argument as it is but a directory that is protected, for which it
/// gets one that is not open.
pub proof fn only_protected_directories_are_replaced(
    number: i64,
    args: [u64; 6],
    protected: &[i32],
    result: [u64; 6],
    place: int,
)
    requires
        0 <= place < 6,
        call_ensures(forward_kernel_args, (number, &args, protected), result),
    ensures
        ({
            let fd = args@[place] as i32;
            let hidden = holds_directory(number, place) && fd >= 0 && protected@.contains(fd);
            &&& !hidden ==> result@[place] == args@[place]
            &&& hidden ==> result@[place] == u64::MAX
        }),
{
}

// ---------------------------------------------------------------------------
// The coordinator's descriptor
// ---------------------------------------------------------------------------

/// The slot is taken once, and changed only by whoever knows what it holds.
pub proof fn the_slot_changes_only_as_expected(
    slot: &mut CoordinatorSlot,
    replaced: &mut CoordinatorSlot,
    fd: i32,
    expected: i32,
    result: Result<(), SlotConflict>,
    replacement: Result<(), SlotConflict>,
)
    requires
        call_ensures(CoordinatorSlot::reserve_coordinator_fd, (slot, fd), result),
        call_ensures(
            CoordinatorSlot::replace_coordinator_fd,
            (replaced, expected, fd),
            replacement,
        ),
    ensures
        result is Ok <==> old(slot).fd == -1,
        result is Ok ==> final(slot).fd == fd,
        result matches Err(conflict) ==> final(slot).fd == old(slot).fd && conflict.expected == -1
            && conflict.observed == old(slot).fd,
        replacement is Ok <==> old(replaced).fd == expected,
        replacement is Ok ==> final(replaced).fd == fd,
        replacement matches Err(conflict) ==> final(replaced).fd == old(replaced).fd
            && conflict.expected == expected && conflict.observed == old(replaced).fd,
{
}

} // verus!

//! What accepted tables, images and plans hold.

use std::ops::Range;

use vstd::arithmetic::power2::is_pow2;
use vstd::prelude::*;

use crate::bytes::u16_at;
use crate::bytes::u32_at;
use crate::bytes::u64_at;
use crate::startup::accepted_auxv_is_complete;
use crate::startup::accepted_auxv_tags_are_unique;
use crate::startup::auxv_entry_error;
use crate::startup::auxv_error;
use crate::startup::auxv_known;
use crate::startup::auxv_lookup;
use crate::startup::auxv_missing;
use crate::startup::auxv_scan_error;
use crate::startup::auxv_tag;
use crate::startup::auxv_value;
use crate::startup::auxv_wf;
use crate::startup::ceil_page;
use crate::startup::floor_page;
use crate::startup::holds_entry;
use crate::startup::image_wf;
use crate::startup::in_gaps;
use crate::startup::in_segments;
use crate::startup::is_required;
use crate::startup::load_end;
use crate::startup::load_scan;
use crate::startup::load_wf;
use crate::startup::lookup_is_carried;
use crate::startup::plan_tiles_reservation;
use crate::startup::segment;
use crate::startup::within;
use crate::startup::AuxvSnapshot;
use crate::startup::InterpreterImage;
use crate::startup::InterpreterPlan;
use crate::startup::Load;
use crate::startup::LoadMapping;
use crate::startup::PlanError;
use crate::startup::PAGE;
use crate::startup::USER_END;
use crate::startup::laws::clear_mappings_are_no_error;
use crate::startup::laws::is_clear;
use crate::startup::laws::lookup_of_the_only_entry;
use crate::startup::laws::scan_of_faultless_entries;
use crate::startup::laws::segment_lies_at_its_base;
use crate::startup::original_interpreter::OriginalInterpreter;

verus! {

// ---------------------------------------------------------------------------
// The auxiliary vector
// ---------------------------------------------------------------------------

proof fn required_values_are_known(
    bytes: Seq<u8>,
    stack: Range<u64>,
    brk: u64,
    tag: int,
    place: int,
)
    requires
        auxv_error(bytes, stack, brk) is None,
        is_required(tag),
        0 <= place < bytes.len() / 16,
        u64_at(bytes, 16 * place) == tag,
    ensures
        auxv_known(bytes, tag as u64) == u64_at(bytes, 16 * place + 8),
{
    let found = accepted_auxv_is_complete(bytes, stack, brk, tag);
    if found < place {
        accepted_auxv_tags_are_unique(bytes, stack, brk, found, place);
    } else if place < found {
        accepted_auxv_tags_are_unique(bytes, stack, brk, place, found);
    }
}

/// An accepted table says what its entries say, each under its own tag, and keeps its bytes, its
/// stack and its break.
pub proof fn tables_say_what_their_entries_say(
    bytes: &[u8],
    stack: Range<u64>,
    brk: u64,
    snapshot: AuxvSnapshot,
    place: int,
    kept: &[u8],
    kept_stack: &Range<u64>,
    kept_brk: u64,
    base: u64,
    headers: &Range<u64>,
    entry: u64,
    random: &Range<u64>,
    execfn: u64,
    vdso: u64,
)
    requires
        call_ensures(
            AuxvSnapshot::parse,
            (bytes, stack, brk),
            Ok::<AuxvSnapshot, PlanError>(snapshot),
        ),
        0 <= place < bytes@.len() / 16,
        call_ensures(AuxvSnapshot::bytes, (&snapshot,), kept),
        call_ensures(AuxvSnapshot::stack, (&snapshot,), kept_stack),
        call_ensures(AuxvSnapshot::brk, (&snapshot,), kept_brk),
        call_ensures(AuxvSnapshot::base, (&snapshot,), base),
        call_ensures(AuxvSnapshot::program_headers, (&snapshot,), headers),
        call_ensures(AuxvSnapshot::guest_entry, (&snapshot,), entry),
        call_ensures(AuxvSnapshot::random, (&snapshot,), random),
        call_ensures(AuxvSnapshot::execfn, (&snapshot,), execfn),
        call_ensures(AuxvSnapshot::vdso, (&snapshot,), vdso),
    ensures
        kept@ == bytes@,
        *kept_stack == stack,
        kept_brk == brk,
        ({
            let tag = u64_at(bytes@, 16 * place);
            let value = u64_at(bytes@, 16 * place + 8);
            &&& tag == 3 ==> headers.start == value
            &&& tag == 4 ==> value == 56
            &&& tag == 5 ==> headers.end == headers.start + 56 * value
            &&& tag == 6 ==> value == 4096
            &&& tag == 7 ==> base == value
            &&& tag == 9 ==> entry == value
            &&& tag == 25 ==> random.start == value && random.end == value + 16
            &&& tag == 31 ==> execfn == value
            &&& tag == 33 ==> vdso == value
        }),
{
    let tag = u64_at(bytes@, 16 * place);
    if is_required(tag) {
        required_values_are_known(bytes@, stack, brk, tag, place);
    }
}

/// Where the nine required entries of a table stand.
pub struct Places {
    pub phdr: int,
    pub phent: int,
    pub phnum: int,
    pub pagesz: int,
    pub base: int,
    pub entry: int,
    pub random: int,
    pub execfn: int,
    pub vdso: int,
}

/// Each required tag stands in its place, and nowhere else.
pub open spec fn stand_in(bytes: Seq<u8>, places: Places, index: int) -> bool {
    let tag = u64_at(bytes, 16 * index);
    &&& tag == 3 <==> index == places.phdr
    &&& tag == 4 <==> index == places.phent
    &&& tag == 5 <==> index == places.phnum
    &&& tag == 6 <==> index == places.pagesz
    &&& tag == 7 <==> index == places.base
    &&& tag == 9 <==> index == places.entry
    &&& tag == 25 <==> index == places.random
    &&& tag == 31 <==> index == places.execfn
    &&& tag == 33 <==> index == places.vdso
}

/// An index of the table.
pub open spec fn in_table(count: int, index: int) -> bool {
    0 <= index < count
}

proof fn complete_tables_are_read(bytes: Seq<u8>, places: Places)
    requires
        bytes.len() > 0,
        bytes.len() % 16 == 0,
        forall|k: int|
            0 <= k < bytes.len() / 16 ==> #[trigger] stand_in(bytes, places, k),
        forall|k: int| 0 <= k < bytes.len() / 16 - 1 ==> #[trigger] auxv_tag(bytes, k) != 0,
        auxv_tag(bytes, bytes.len() as int / 16 - 1) == 0,
        auxv_value(bytes, bytes.len() as int / 16 - 1) == 0,
    ensures
        auxv_scan_error(bytes, bytes.len() as int / 16) is None,
{
    let count = bytes.len() as int / 16;
    assert forall|k: int| 0 <= k < count implies #[trigger] auxv_entry_error(bytes, k) is None by {
        let tag = auxv_tag(bytes, k);
        assert(stand_in(bytes, places, k));
        if k < count - 1 {
            assert(auxv_tag(bytes, k) != 0);
        }
        if is_required(tag) && auxv_lookup(bytes, k, tag) is Some {
            let earlier = lookup_is_carried(bytes, k, tag);
            assert(stand_in(bytes, places, earlier));
        }
    }
    scan_of_faultless_entries(bytes, count);
}

proof fn placed_values_are_known(bytes: Seq<u8>, places: Places, tag: int, place: int)
    requires
        0 <= place < bytes.len() / 16,
        forall|k: int|
            0 <= k < bytes.len() / 16 ==> #[trigger] stand_in(bytes, places, k),
        is_required(tag),
        u64_at(bytes, 16 * place) == tag,
    ensures
        auxv_lookup(bytes, bytes.len() as int / 16, tag) == Some(
            u64_at(bytes, 16 * place + 8) as u64,
        ),
{
    let count = bytes.len() as int / 16;
    assert(stand_in(bytes, places, place));
    assert forall|k: int| 0 <= k < count && k != place implies #[trigger] auxv_tag(bytes, k)
        != tag by {
        assert(stand_in(bytes, places, k));
    }
    lookup_of_the_only_entry(bytes, count, tag, place);
}

/// A complete table, with each required entry once and a null one at its end, is accepted
/// exactly where its coordinates are the guest's: headers of the one known size in user memory,
/// pages of 4096 bytes, an interpreter and a vDSO on page boundaries, and the random bytes and
/// the name on the stack.
#[verifier::rlimit(60)]
pub proof fn complete_tables_are_accepted_by_their_coordinates(
    bytes: &[u8],
    stack: Range<u64>,
    brk: u64,
    places: Places,
    result: Result<AuxvSnapshot, PlanError>,
)
    requires
        bytes@.len() > 0,
        bytes@.len() % 16 == 0,
        forall|k: int|
            0 <= k < bytes@.len() / 16 ==> #[trigger] stand_in(bytes@, places, k),
        forall|k: int| 0 <= k < bytes@.len() / 16 - 1 ==> #[trigger] auxv_tag(bytes@, k) != 0,
        auxv_tag(bytes@, bytes@.len() as int / 16 - 1) == 0,
        auxv_value(bytes@, bytes@.len() as int / 16 - 1) == 0,
        in_table(bytes@.len() as int / 16, places.phdr),
        in_table(bytes@.len() as int / 16, places.phent),
        in_table(bytes@.len() as int / 16, places.phnum),
        in_table(bytes@.len() as int / 16, places.pagesz),
        in_table(bytes@.len() as int / 16, places.base),
        in_table(bytes@.len() as int / 16, places.entry),
        in_table(bytes@.len() as int / 16, places.random),
        in_table(bytes@.len() as int / 16, places.execfn),
        in_table(bytes@.len() as int / 16, places.vdso),
        call_ensures(AuxvSnapshot::parse, (bytes, stack, brk), result),
    ensures
        ({
            let end = 0x8000_0000_0000int;
            let phdr = u64_at(bytes@, 16 * places.phdr + 8);
            let phnum = u64_at(bytes@, 16 * places.phnum + 8);
            let base = u64_at(bytes@, 16 * places.base + 8);
            let entry = u64_at(bytes@, 16 * places.entry + 8);
            let vdso = u64_at(bytes@, 16 * places.vdso + 8);
            let random = u64_at(bytes@, 16 * places.random + 8);
            let execfn = u64_at(bytes@, 16 * places.execfn + 8);
            result is Ok <==> {
                &&& 0 < stack.start < stack.end <= end
                &&& 0 < brk < end
                &&& u64_at(bytes@, 16 * places.phent + 8) == 56
                &&& u64_at(bytes@, 16 * places.pagesz + 8) == 4096
                &&& phnum > 0
                &&& 0 < phdr
                &&& phdr + 56 * phnum <= end
                &&& 0 < base < end
                &&& 0 < entry < end
                &&& 0 < vdso < end
                &&& base % 4096 == 0
                &&& vdso % 4096 == 0
                &&& stack.start <= random
                &&& random + 16 <= stack.end
                &&& stack.start <= execfn < stack.end
            }
        }),
{
    complete_tables_are_read(bytes@, places);
    assert(stand_in(bytes@, places, places.phdr));
    assert(stand_in(bytes@, places, places.phent));
    assert(stand_in(bytes@, places, places.phnum));
    assert(stand_in(bytes@, places, places.pagesz));
    assert(stand_in(bytes@, places, places.base));
    assert(stand_in(bytes@, places, places.entry));
    assert(stand_in(bytes@, places, places.random));
    assert(stand_in(bytes@, places, places.execfn));
    assert(stand_in(bytes@, places, places.vdso));
    placed_values_are_known(bytes@, places, 3, places.phdr);
    placed_values_are_known(bytes@, places, 4, places.phent);
    placed_values_are_known(bytes@, places, 5, places.phnum);
    placed_values_are_known(bytes@, places, 6, places.pagesz);
    placed_values_are_known(bytes@, places, 7, places.base);
    placed_values_are_known(bytes@, places, 9, places.entry);
    placed_values_are_known(bytes@, places, 25, places.random);
    placed_values_are_known(bytes@, places, 31, places.execfn);
    placed_values_are_known(bytes@, places, 33, places.vdso);
    values_decide(bytes@, stack, brk);
}

proof fn values_decide(bytes: Seq<u8>, stack: Range<u64>, brk: u64)
    requires
        bytes.len() > 0,
        bytes.len() % 16 == 0,
        auxv_scan_error(bytes, bytes.len() as int / 16) is None,
        auxv_tag(bytes, bytes.len() as int / 16 - 1) == 0,
        auxv_missing(bytes) is None,
    ensures
        ({
            let phdr = auxv_known(bytes, 3);
            let phnum = auxv_known(bytes, 5);
            let base = auxv_known(bytes, 7);
            let vdso = auxv_known(bytes, 33);
            let random = auxv_known(bytes, 25);
            let execfn = auxv_known(bytes, 31);
            auxv_error(bytes, stack, brk) is None <==> {
                &&& 0 < stack.start < stack.end <= 0x8000_0000_0000
                &&& 0 < brk < 0x8000_0000_0000
                &&& auxv_known(bytes, 4) == 56
                &&& auxv_known(bytes, 6) == 4096
                &&& phnum > 0
                &&& 0 < phdr
                &&& phdr + 56 * phnum <= 0x8000_0000_0000
                &&& 0 < base < 0x8000_0000_0000
                &&& 0 < auxv_known(bytes, 9) < 0x8000_0000_0000
                &&& 0 < vdso < 0x8000_0000_0000
                &&& base % 4096 == 0
                &&& vdso % 4096 == 0
                &&& stack.start <= random
                &&& random + 16 <= stack.end
                &&& stack.start <= execfn < stack.end
            }
        }),
{
}

// ---------------------------------------------------------------------------
// The interpreter image
// ---------------------------------------------------------------------------

/// An accepted image has the header of an x86-64 shared object of 64 bits, for no system or
/// Linux, and its program headers lie behind the header and in the file.
pub proof fn accepted_images_have_a_supported_header(bytes: &[u8], image: InterpreterImage<'_>)
    requires
        call_ensures(
            InterpreterImage::parse,
            (bytes,),
            Ok::<InterpreterImage<'_>, PlanError>(image),
        ),
    ensures
        bytes@.len() >= 64,
        bytes@[0] == 127 && bytes@[1] == 69 && bytes@[2] == 76 && bytes@[3] == 70,
        bytes@[4] == 2 && bytes@[5] == 1 && bytes@[6] == 1,
        bytes@[7] == 0 || bytes@[7] == 3,
        bytes@[8] == 0,
        u16_at(bytes@, 16) == 3,
        u16_at(bytes@, 18) == 62,
        u32_at(bytes@, 20) == 1,
        u32_at(bytes@, 48) == 0,
        u16_at(bytes@, 52) == 64,
        u16_at(bytes@, 54) == 56,
        0 < u16_at(bytes@, 56) < 65535,
        64 <= u64_at(bytes@, 32),
        u64_at(bytes@, 32) + 56 * u16_at(bytes@, 56) <= bytes@.len(),
{
}

/// The program header at an index is this load.
pub open spec fn is_load(bytes: Seq<u8>, index: int, load: Load) -> bool {
    let at = u64_at(bytes, 32) + 56 * index;
    &&& u32_at(bytes, at) == 1
    &&& u32_at(bytes, at + 4) == load.flags
    &&& u64_at(bytes, at + 8) == load.offset
    &&& u64_at(bytes, at + 16) == load.address
    &&& u64_at(bytes, at + 32) == load.file_size
    &&& u64_at(bytes, at + 40) == load.memory_size
}

proof fn scanned_headers_are_supported(bytes: Seq<u8>, count: int, index: int)
    requires
        load_scan(bytes, u64_at(bytes, 32), count) is Ok,
        0 <= index < count,
    ensures
        ({
            let at = u64_at(bytes, 32) + 56 * index;
            let align = u64_at(bytes, at + 48);
            &&& u32_at(bytes, at) != 3
            &&& u32_at(bytes, at) == 1 ==> {
                &&& 4 <= u32_at(bytes, at + 4) <= 6
                &&& u64_at(bytes, at + 16) % 4096 == u64_at(bytes, at + 8) % 4096
                &&& align > 1 ==> is_pow2(align) && u64_at(bytes, at + 16) % align == u64_at(
                    bytes,
                    at + 8,
                ) % align
                &&& u64_at(bytes, at + 32) <= u64_at(bytes, at + 40)
                &&& u64_at(bytes, at + 8) + u64_at(bytes, at + 32) <= bytes.len()
            }
        }),
    decreases count,
{
    assert((count - 1) * 56 == 56 * (count - 1));
    if index < count - 1 {
        scanned_headers_are_supported(bytes, count - 1, index);
    }
}

/// Every program header of an accepted image is supported: it asks for no other interpreter, and
/// a load can be read, is not both written and executed, is as aligned as it says, and has its
/// bytes in the file.
pub proof fn accepted_loads_are_supported(
    bytes: &[u8],
    image: InterpreterImage<'_>,
    index: int,
)
    requires
        call_ensures(
            InterpreterImage::parse,
            (bytes,),
            Ok::<InterpreterImage<'_>, PlanError>(image),
        ),
        0 <= index < u16_at(bytes@, 56),
    ensures
        ({
            let at = u64_at(bytes@, 32) + 56 * index;
            let align = u64_at(bytes@, at + 48);
            &&& u32_at(bytes@, at) != 3
            &&& u32_at(bytes@, at) == 1 ==> {
                &&& 4 <= u32_at(bytes@, at + 4) <= 6
                &&& u64_at(bytes@, at + 16) % 4096 == u64_at(bytes@, at + 8) % 4096
                &&& align > 1 ==> is_pow2(align) && u64_at(bytes@, at + 16) % align == u64_at(
                    bytes@,
                    at + 8,
                ) % align
                &&& u64_at(bytes@, at + 32) <= u64_at(bytes@, at + 40)
                &&& u64_at(bytes@, at + 8) + u64_at(bytes@, at + 32) <= bytes@.len()
            }
        }),
{
    scanned_headers_are_supported(bytes@, u16_at(bytes@, 56), index);
}

proof fn scanned_loads_are_headers(bytes: Seq<u8>, count: int, index: int) -> (header: int)
    requires
        load_scan(bytes, u64_at(bytes, 32), count) is Ok,
        0 <= index < (load_scan(bytes, u64_at(bytes, 32), count)->Ok_0).loads.len(),
    ensures
        0 <= header < count,
        is_load(bytes, header, (load_scan(bytes, u64_at(bytes, 32), count)->Ok_0).loads[index]),
    decreases count,
{
    let table = u64_at(bytes, 32);
    assert((count - 1) * 56 == 56 * (count - 1));
    let before = load_scan(bytes, table, count - 1)->Ok_0;
    if index < before.loads.len() {
        scanned_loads_are_headers(bytes, count - 1, index)
    } else {
        count - 1
    }
}

proof fn scanned_headers_are_loads(bytes: Seq<u8>, count: int, header: int) -> (index: int)
    requires
        load_scan(bytes, u64_at(bytes, 32), count) is Ok,
        0 <= header < count,
        u32_at(bytes, u64_at(bytes, 32) + 56 * header) == 1,
        u64_at(bytes, u64_at(bytes, 32) + 56 * header + 40) > 0,
    ensures
        0 <= index < (load_scan(bytes, u64_at(bytes, 32), count)->Ok_0).loads.len(),
        is_load(bytes, header, (load_scan(bytes, u64_at(bytes, 32), count)->Ok_0).loads[index]),
    decreases count,
{
    let table = u64_at(bytes, 32);
    assert((count - 1) * 56 == 56 * (count - 1));
    let before = load_scan(bytes, table, count - 1)->Ok_0;
    if header < count - 1 {
        scanned_headers_are_loads(bytes, count - 1, header)
    } else {
        before.loads.len() as int
    }
}

/// The loads of an accepted image are its nonempty loads: each stands in a program header, and
/// each such header stands for one.
pub proof fn loads_are_the_nonempty_ones(
    bytes: &[u8],
    image: InterpreterImage<'_>,
    header: int,
    index: int,
)
    requires
        call_ensures(
            InterpreterImage::parse,
            (bytes,),
            Ok::<InterpreterImage<'_>, PlanError>(image),
        ),
    ensures
        0 <= index < image@.loads.len() ==> exists|k: int|
            0 <= k < u16_at(bytes@, 56) && #[trigger] is_load(bytes@, k, image@.loads[index]),
        0 <= header < u16_at(bytes@, 56) && u32_at(bytes@, u64_at(bytes@, 32) + 56 * header) == 1
            && u64_at(bytes@, u64_at(bytes@, 32) + 56 * header + 40) > 0 ==> exists|i: int|
            0 <= i < image@.loads.len() && is_load(bytes@, header, #[trigger] image@.loads[i]),
{
    let count = u16_at(bytes@, 56);
    if 0 <= index < image@.loads.len() {
        let k = scanned_loads_are_headers(bytes@, count, index);
        assert(is_load(bytes@, k, image@.loads[index]));
    }
    if 0 <= header < count && u32_at(bytes@, u64_at(bytes@, 32) + 56 * header) == 1 && u64_at(
        bytes@,
        u64_at(bytes@, 32) + 56 * header + 40,
    ) > 0 {
        let i = scanned_headers_are_loads(bytes@, count, header);
        assert(is_load(bytes@, header, image@.loads[i]));
    }
}

/// The loads of an accepted image ascend from address zero on pages of their own, and the first
/// one holds the headers. Only the last may be longer in memory than in the file, and then is
/// written. The entry is the header's, and lies in the file bytes of a load that is executed.
pub proof fn accepted_images_are_laid_out(
    bytes: &[u8],
    image: InterpreterImage<'_>,
    span: u64,
    low: int,
    high: int,
)
    requires
        call_ensures(
            InterpreterImage::parse,
            (bytes,),
            Ok::<InterpreterImage<'_>, PlanError>(image),
        ),
        call_ensures(InterpreterImage::required_span, (&image,), span),
        0 <= low < high < image@.loads.len(),
    ensures
        image@.loads[0].address == 0 && image@.loads[0].offset == 0,
        image@.loads[0].file_size >= u64_at(bytes@, 32) + 56 * u16_at(bytes@, 56),
        (image@.loads[low].address + image@.loads[low].memory_size - 1) / 4096
            < image@.loads[high].address as int / 4096,
        image@.loads[low].file_size == image@.loads[low].memory_size,
        image@.loads[high].file_size < image@.loads[high].memory_size ==> high
            == image@.loads.len() - 1 && image@.loads[high].flags == 6,
        image@.entry == u64_at(bytes@, 24),
        exists|i: int|
            {
                let load = #[trigger] image@.loads[i];
                0 <= i < image@.loads.len() && load.flags == 5 && load.address <= image@.entry
                    < load.address + load.file_size
            },
        span % 4096 == 0,
        image@.loads.last().address + image@.loads.last().memory_size <= span
            < image@.loads.last().address + image@.loads.last().memory_size + 4096,
        image@.loads[low].address + image@.loads[low].memory_size <= span,
{
    let loads = image@.loads;
    assert(load_wf(loads[low]));
    assert(load_wf(loads[high]));
    assert(load_wf(loads.last()));
    assert(load_end(loads[low]) <= floor_page(loads[high].address as int));
    assert(load_end(loads[low]) <= image@.end);
    let entered = choose|i: int|
        0 <= i < loads.len() && holds_entry(#[trigger] loads[i], image@.entry as int);
    assert(loads[entered].flags == 5);
}

// ---------------------------------------------------------------------------
// Plans
// ---------------------------------------------------------------------------

/// The two ranges have no address in common.
pub open spec fn apart(left: Range<u64>, start: int, end: int) -> bool {
    left.end <= start || end <= left.start
}

/// An image is planned exactly into a reservation at the base, aligned as the image asks for and
/// on pages, that the image fits, and that keeps clear of the stack, the headers, the entry, the
/// break and the vDSO of the guest, and of every other mapping.
pub proof fn plans_fit_and_keep_clear(
    image: InterpreterImage<'_>,
    initial: AuxvSnapshot,
    reservation: Range<u64>,
    mappings: &[Range<u64>],
    span: u64,
    alignment: u64,
    result: Result<InterpreterPlan<'_>, PlanError>,
)
    requires
        image_wf(image@),
        auxv_wf(initial@),
        call_ensures(InterpreterImage::required_span, (&image,), span),
        call_ensures(InterpreterImage::required_alignment, (&image,), alignment),
        call_ensures(
            InterpreterImage::plan_at_original_base,
            (&image, &initial, reservation, mappings),
            result,
        ),
    ensures
        result is Ok <==> {
            let guest = initial@;
            &&& 0 < reservation.start < reservation.end <= 0x8000_0000_0000
            &&& reservation.start == guest.base
            &&& reservation.start % alignment == 0
            &&& reservation.end % 4096 == 0
            &&& reservation.start + span <= reservation.end
            &&& apart(reservation, guest.stack.start as int, guest.stack.end as int)
            &&& apart(
                reservation,
                guest.program_headers.start as int,
                guest.program_headers.end as int,
            )
            &&& apart(reservation, guest.guest_entry as int, guest.guest_entry + 1)
            &&& apart(reservation, guest.brk as int, guest.brk + 1)
            &&& apart(reservation, guest.vdso as int, guest.vdso + 4096)
            &&& forall|i: int|
                0 <= i < mappings@.len() ==> {
                    let mapping = #[trigger] mappings@[i];
                    &&& 0 < mapping.start < mapping.end <= 0x8000_0000_0000
                    &&& apart(reservation, mapping.start as int, mapping.end as int)
                }
        },
{
    clear_mappings_are_no_error(reservation, mappings@, mappings@.len() as int);
    if result is Ok {
        assert forall|i: int| 0 <= i < mappings@.len() implies {
            let mapping = #[trigger] mappings@[i];
            &&& 0 < mapping.start < mapping.end <= 0x8000_0000_0000
            &&& apart(reservation, mapping.start as int, mapping.end as int)
        } by {
            assert(is_clear(reservation, mappings@[i]));
        }
    } else if forall|i: int|
        0 <= i < mappings@.len() ==> {
            let mapping = #[trigger] mappings@[i];
            &&& 0 < mapping.start < mapping.end <= 0x8000_0000_0000
            &&& apart(reservation, mapping.start as int, mapping.end as int)
        } {
        assert forall|i: int| 0 <= i < mappings@.len() implies is_clear(
            reservation,
            #[trigger] mappings@[i],
        ) by {}
    }
}

/// A mapping is that of a load behind a base: on the pages that hold the load, with the file
/// bytes where they belong, anonymous pages behind them, and zeros from the end of the file
/// bytes on.
pub open spec fn is_mapped(load: Load, base: u64, mapping: LoadMapping) -> bool {
    let start = base + load.address;
    &&& mapping.memory.start == start
    &&& mapping.memory.end == start + load.memory_size
    &&& mapping.pages.start % 4096 == 0
    &&& mapping.pages.end % 4096 == 0
    &&& mapping.pages.start <= start < mapping.pages.start + 4096
    &&& mapping.pages.end - 4096 < mapping.memory.end <= mapping.pages.end
    &&& mapping.flags == load.flags
    &&& mapping.anonymous_pages.end == mapping.pages.end
    &&& mapping.zero_fill.start == start + load.file_size
    &&& load.file_size < load.memory_size ==> mapping.zero_fill.end == mapping.pages.end
    &&& load.file_size == load.memory_size ==> mapping.zero_fill.end
        == mapping.zero_fill.start
    &&& load.file_size > 0 ==> mapping.file_pages is Some
    &&& match mapping.file_pages {
        Some((offset, range)) => {
            &&& offset % 4096 == 0
            &&& range.start - offset == start - load.offset
            &&& range.start == mapping.pages.start
            &&& range.end == mapping.anonymous_pages.start
            &&& range.end % 4096 == 0
            &&& start + load.file_size <= range.end < start + load.file_size + 4096
        },
        None => load.file_size == 0 && mapping.anonymous_pages.start == mapping.pages.start
            && start == mapping.pages.start,
    }
}

proof fn segments_are_mapped(load: Load, base: u64)
    requires
        load_wf(load),
        base % PAGE == 0,
        base + load_end(load) <= USER_END,
    ensures
        is_mapped(load, base, segment(load, base)),
{
    segment_lies_at_its_base(load, base);
    let address = load.address as int;
    let data_end = address + load.file_size;
    assert(floor_page(address) % 4096 == 0 && floor_page(address) <= address < floor_page(address)
        + 4096);
    assert(ceil_page(data_end) % 4096 == 0 && data_end <= ceil_page(data_end) < data_end + 4096);
    assert(load_end(load) % 4096 == 0 && address + load.memory_size <= load_end(load) < address
        + load.memory_size + 4096);
    assert(address - floor_page(address) == load.offset - floor_page(load.offset as int));
}

/// Each load of a plan is mapped behind the base, and the entry lies as far behind it as in the
/// image.
pub proof fn planned_loads_lie_behind_the_base(
    image: InterpreterImage<'_>,
    initial: AuxvSnapshot,
    reservation: Range<u64>,
    mappings: &[Range<u64>],
    plan: InterpreterPlan<'_>,
    segments: &[LoadMapping],
    entry: u64,
    index: int,
)
    requires
        image_wf(image@),
        auxv_wf(initial@),
        call_ensures(
            InterpreterImage::plan_at_original_base,
            (&image, &initial, reservation, mappings),
            Ok::<InterpreterPlan<'_>, PlanError>(plan),
        ),
        call_ensures(InterpreterPlan::segments, (&plan,), segments),
        call_ensures(InterpreterPlan::interpreter_entry, (&plan,), entry),
        0 <= index < image@.loads.len(),
    ensures
        segments@.len() == image@.loads.len(),
        entry == reservation.start + image@.entry,
        is_mapped(image@.loads[index], reservation.start, segments@[index]),
{
    let load = image@.loads[index];
    assert(load_wf(load));
    assert(load_end(load) <= image@.end);
    segments_are_mapped(load, initial@.base);
    assert(image@.entry <= image@.end) by {
        let entered = choose|i: int|
            0 <= i < image@.loads.len() && holds_entry(
                #[trigger] image@.loads[i],
                image@.entry as int,
            );
        assert(load_wf(image@.loads[entered]));
        assert(load_end(image@.loads[entered]) <= image@.end);
    }
}

/// A plan keeps the image, the table and the reservation that it was made of, and its gaps are
/// the addresses of the reservation that lie in no load's pages.
pub proof fn plans_keep_what_they_were_made_of(
    image: InterpreterImage<'_>,
    initial: AuxvSnapshot,
    reservation: Range<u64>,
    mappings: &[Range<u64>],
    plan: InterpreterPlan<'_>,
    bytes: &[u8],
    table: &AuxvSnapshot,
    kept: &Range<u64>,
    segments: &[LoadMapping],
    gaps: &[Range<u64>],
    address: int,
)
    requires
        image_wf(image@),
        auxv_wf(initial@),
        call_ensures(
            InterpreterImage::plan_at_original_base,
            (&image, &initial, reservation, mappings),
            Ok::<InterpreterPlan<'_>, PlanError>(plan),
        ),
        call_ensures(InterpreterPlan::image, (&plan,), bytes),
        call_ensures(InterpreterPlan::initial, (&plan,), table),
        call_ensures(InterpreterPlan::reservation, (&plan,), kept),
        call_ensures(InterpreterPlan::segments, (&plan,), segments),
        call_ensures(InterpreterPlan::gaps, (&plan,), gaps),
    ensures
        bytes@ == image@.bytes,
        table@ == initial@,
        *kept == reservation,
        (exists|i: int|
            0 <= i < gaps@.len() && (#[trigger] gaps@[i]).start <= address < gaps@[i].end)
            <==> reservation.start <= address < reservation.end && !exists|i: int|
            0 <= i < segments@.len() && (#[trigger] segments@[i]).pages.start <= address
                < segments@[i].pages.end,
{
    plan_tiles_reservation(image@, initial@, reservation, mappings@, address);
    assert(in_gaps(gaps@, address) <==> exists|i: int|
        0 <= i < gaps@.len() && (#[trigger] gaps@[i]).start <= address < gaps@[i].end) by {
        if in_gaps(gaps@, address) {
            let i = choose|i: int| 0 <= i < gaps@.len() && within(#[trigger] gaps@[i], address);
            assert(gaps@[i].start <= address < gaps@[i].end);
        }
        if exists|i: int|
            0 <= i < gaps@.len() && (#[trigger] gaps@[i]).start <= address < gaps@[i].end {
            let i = choose|i: int|
                0 <= i < gaps@.len() && (#[trigger] gaps@[i]).start <= address < gaps@[i].end;
            assert(within(gaps@[i], address));
        }
    }
    assert(in_segments(segments@, address) <==> exists|i: int|
        0 <= i < segments@.len() && (#[trigger] segments@[i]).pages.start <= address
            < segments@[i].pages.end) by {
        if in_segments(segments@, address) {
            let i = choose|i: int|
                0 <= i < segments@.len() && within((#[trigger] segments@[i]).pages, address);
            assert(segments@[i].pages.start <= address < segments@[i].pages.end);
        }
        if exists|i: int|
            0 <= i < segments@.len() && (#[trigger] segments@[i]).pages.start <= address
                < segments@[i].pages.end {
            let i = choose|i: int|
                0 <= i < segments@.len() && (#[trigger] segments@[i]).pages.start <= address
                    < segments@[i].pages.end;
            assert(within(segments@[i].pages, address));
        }
    }
}

/// An admitted interpreter is planned as its bytes are.
pub proof fn admitted_interpreters_are_planned_as_their_bytes(
    interpreter: OriginalInterpreter,
    bytes: &[u8],
    image: InterpreterImage<'_>,
    initial: AuxvSnapshot,
    reservation: Range<u64>,
    mappings: &[Range<u64>],
    result: Result<InterpreterPlan<'_>, PlanError>,
    direct: Result<InterpreterPlan<'_>, PlanError>,
)
    requires
        call_ensures(OriginalInterpreter::bytes, (&interpreter,), bytes),
        call_ensures(
            InterpreterImage::parse,
            (bytes,),
            Ok::<InterpreterImage<'_>, PlanError>(image),
        ),
        call_ensures(
            OriginalInterpreter::plan,
            (&interpreter, &initial, reservation, mappings),
            result,
        ),
        call_ensures(
            InterpreterImage::plan_at_original_base,
            (&image, &initial, reservation, mappings),
            direct,
        ),
    ensures
        match (result, direct) {
            (Ok(plan), Ok(same)) => plan@ == same@,
            (Err(error), Err(same)) => error == same,
            _ => false,
        },
{
}

/// The parts of a mapping are read as they are.
pub proof fn mappings_are_read_as_they_are(
    mapping: LoadMapping,
    pages: &Range<u64>,
    memory: &Range<u64>,
    file_pages: Option<&(u64, Range<u64>)>,
    anonymous_pages: &Range<u64>,
    zero_fill: &Range<u64>,
    flags: u32,
)
    requires
        call_ensures(LoadMapping::pages, (&mapping,), pages),
        call_ensures(LoadMapping::memory, (&mapping,), memory),
        call_ensures(LoadMapping::file_pages, (&mapping,), file_pages),
        call_ensures(LoadMapping::anonymous_pages, (&mapping,), anonymous_pages),
        call_ensures(LoadMapping::zero_fill, (&mapping,), zero_fill),
        call_ensures(LoadMapping::flags, (&mapping,), flags),
    ensures
        *pages == mapping.pages,
        *memory == mapping.memory,
        file_pages is Some <==> mapping.file_pages is Some,
        file_pages matches Some(part) ==> Some(*part) == mapping.file_pages,
        *anonymous_pages == mapping.anonymous_pages,
        *zero_fill == mapping.zero_fill,
        flags == mapping.flags,
{
}

} // verus!

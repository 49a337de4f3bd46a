//! How accepted tables, images and plans respond to changes of their inputs.

use std::ops::Range;

use vstd::prelude::*;

pub mod contents;

use crate::bytes::u16_at;
use crate::bytes::u32_at;
use crate::bytes::u64_at;
use crate::startup::accepted_auxv_is_complete;
use crate::startup::accepted_auxv_is_terminated;
use crate::startup::accepted_auxv_tags_are_unique;
use crate::startup::auxv_entry_error;
use crate::startup::auxv_error;
use crate::startup::auxv_lookup;
use crate::startup::auxv_model;
use crate::startup::auxv_scan_error;
use crate::startup::auxv_tag;
use crate::startup::auxv_value;
use crate::startup::auxv_wf;
use crate::startup::ceil_page;
use crate::startup::file_error;
use crate::startup::floor_page;
use crate::startup::holds_entry;
use crate::startup::image_error;
use crate::startup::image_model;
use crate::startup::image_wf;
use crate::startup::is_required;
use crate::startup::is_user_range;
use crate::startup::load_end;
use crate::startup::load_scan;
use crate::startup::load_wf;
use crate::startup::lookup_is_carried;
use crate::startup::mapping_error;
use crate::startup::plan_error;
use crate::startup::plan_model;
use crate::startup::ranges_overlap;
use crate::startup::segment;
use crate::startup::AT_BASE;
use crate::startup::AT_ENTRY;
use crate::startup::AT_EXECFN;
use crate::startup::AT_PAGESZ;
use crate::startup::AT_PHDR;
use crate::startup::AT_PHENT;
use crate::startup::AT_PHNUM;
use crate::startup::AT_RANDOM;
use crate::startup::AT_SYSINFO_EHDR;
use crate::startup::AuxvModel;
use crate::startup::ImageModel;
use crate::startup::Load;
use crate::startup::LoadMapping;
use crate::startup::PAGE;
use crate::startup::PROGRAM_HEADER;
use crate::startup::USER_END;

verus! {

// ---------------------------------------------------------------------------
// The auxiliary vector
// ---------------------------------------------------------------------------

/// Both tables have the same entries: the one at `k` of the second is the one at `from(k)`
/// of the first, and the one at `m` of the first stands at `to(m)` in the second. The last
/// entry stays the last.
pub open spec fn reordered(
    bytes: Seq<u8>,
    other: Seq<u8>,
    from: spec_fn(int) -> int,
    to: spec_fn(int) -> int,
) -> bool {
    let count = bytes.len() as int / 16;
    &&& other.len() == bytes.len()
    &&& from(count - 1) == count - 1
    &&& forall|k: int|
        #![trigger auxv_tag(other, k)]
        #![trigger from(k)]
        0 <= k < count ==> {
            &&& 0 <= from(k) < count
            &&& to(from(k)) == k
            &&& auxv_tag(other, k) == auxv_tag(bytes, from(k))
            &&& auxv_value(other, k) == auxv_value(bytes, from(k))
        }
    &&& forall|m: int|
        #![trigger to(m)]
        0 <= m < count ==> 0 <= to(m) < count && from(to(m)) == m
}

proof fn lookup_of_the_only_entry(bytes: Seq<u8>, count: int, tag: int, index: int)
    requires
        0 <= index < count,
        auxv_tag(bytes, index) == tag,
        forall|k: int| 0 <= k < count && k != index ==> #[trigger] auxv_tag(bytes, k) != tag,
    ensures
        auxv_lookup(bytes, count, tag) == Some(auxv_value(bytes, index) as u64),
    decreases count,
{
    if index < count - 1 {
        assert(auxv_tag(bytes, count - 1) != tag);
        lookup_of_the_only_entry(bytes, count - 1, tag, index);
    } else if auxv_lookup(bytes, count - 1, tag) is Some {
        let carried = lookup_is_carried(bytes, count - 1, tag);
        assert(auxv_tag(bytes, carried) == tag);
    }
}

proof fn scan_of_faultless_entries(bytes: Seq<u8>, count: int)
    requires
        forall|k: int| 0 <= k < count ==> #[trigger] auxv_entry_error(bytes, k) is None,
    ensures
        auxv_scan_error(bytes, count) is None,
    decreases count,
{
    if count > 0 {
        scan_of_faultless_entries(bytes, count - 1);
        assert(auxv_entry_error(bytes, count - 1) is None);
    }
}

proof fn reordering_keeps_required_values(
    bytes: Seq<u8>,
    other: Seq<u8>,
    stack: Range<u64>,
    brk: u64,
    from: spec_fn(int) -> int,
    to: spec_fn(int) -> int,
    tag: int,
)
    requires
        auxv_error(bytes, stack, brk) is None,
        reordered(bytes, other, from, to),
        is_required(tag),
    ensures
        auxv_lookup(other, other.len() as int / 16, tag) == auxv_lookup(
            bytes,
            bytes.len() as int / 16,
            tag,
        ),
        auxv_lookup(other, other.len() as int / 16, tag) is Some,
{
    let count = bytes.len() as int / 16;
    let place = accepted_auxv_is_complete(bytes, stack, brk, tag);
    let moved = to(place);
    assert(from(moved) == place);
    assert(auxv_tag(other, moved) == tag);
    assert forall|k: int| 0 <= k < count && k != moved implies #[trigger] auxv_tag(other, k)
        != tag by {
        let old_place = from(k);
        if old_place == place {
            assert(to(from(k)) == k);
        } else if old_place < place {
            accepted_auxv_tags_are_unique(bytes, stack, brk, old_place, place);
        } else {
            accepted_auxv_tags_are_unique(bytes, stack, brk, place, old_place);
        }
    }
    lookup_of_the_only_entry(other, count, tag, moved);
    assert forall|k: int| 0 <= k < count && k != place implies #[trigger] auxv_tag(bytes, k)
        != tag by {
        if k < place {
            accepted_auxv_tags_are_unique(bytes, stack, brk, k, place);
        } else {
            accepted_auxv_tags_are_unique(bytes, stack, brk, place, k);
        }
    }
    lookup_of_the_only_entry(bytes, count, tag, place);
}

/// The order of the entries of an accepted table does not matter: with the last one left
/// in its place, every order is accepted and says the same.
pub proof fn auxv_order_does_not_matter(
    bytes: Seq<u8>,
    other: Seq<u8>,
    stack: Range<u64>,
    brk: u64,
    from: spec_fn(int) -> int,
    to: spec_fn(int) -> int,
)
    requires
        auxv_error(bytes, stack, brk) is None,
        reordered(bytes, other, from, to),
    ensures
        auxv_error(other, stack, brk) is None,
        auxv_model(other, stack, brk) == (AuxvModel {
            bytes: other,
            ..auxv_model(bytes, stack, brk)
        }),
{
    let count = bytes.len() as int / 16;
    accepted_auxv_is_terminated(bytes, stack, brk);
    assert forall|k: int| 0 <= k < count implies #[trigger] auxv_entry_error(other, k) is None by {
        let place = from(k);
        assert(auxv_tag(other, k) == auxv_tag(bytes, place));
        if place < count - 1 {
            accepted_auxv_tags_are_unique(bytes, stack, brk, place, count - 1);
        } else {
            assert(to(from(k)) == k && to(from(count - 1)) == count - 1);
        }
        let tag = auxv_tag(other, k);
        if tag != 0 && is_required(tag) && auxv_lookup(other, k, tag) is Some {
            let earlier = lookup_is_carried(other, k, tag);
            assert(auxv_tag(other, earlier) == auxv_tag(bytes, from(earlier)));
            assert(to(from(earlier)) == earlier);
            if from(earlier) < place {
                accepted_auxv_tags_are_unique(bytes, stack, brk, from(earlier), place);
            } else if place < from(earlier) {
                accepted_auxv_tags_are_unique(bytes, stack, brk, place, from(earlier));
            }
        }
    }
    scan_of_faultless_entries(other, count);
    assert(auxv_tag(other, count - 1) == 0);
    reordering_keeps_required_values(bytes, other, stack, brk, from, to, AT_PHDR as int);
    reordering_keeps_required_values(bytes, other, stack, brk, from, to, AT_PHENT as int);
    reordering_keeps_required_values(bytes, other, stack, brk, from, to, AT_PHNUM as int);
    reordering_keeps_required_values(bytes, other, stack, brk, from, to, AT_PAGESZ as int);
    reordering_keeps_required_values(bytes, other, stack, brk, from, to, AT_BASE as int);
    reordering_keeps_required_values(bytes, other, stack, brk, from, to, AT_ENTRY as int);
    reordering_keeps_required_values(bytes, other, stack, brk, from, to, AT_RANDOM as int);
    reordering_keeps_required_values(bytes, other, stack, brk, from, to, AT_EXECFN as int);
    reordering_keeps_required_values(bytes, other, stack, brk, from, to, AT_SYSINFO_EHDR as int);
}

/// A table without a required tag is refused.
pub proof fn auxv_without_a_tag_is_refused(
    bytes: Seq<u8>,
    stack: Range<u64>,
    brk: u64,
    tag: int,
)
    requires
        is_required(tag),
        forall|k: int| 0 <= k < bytes.len() / 16 ==> #[trigger] auxv_tag(bytes, k) != tag,
    ensures
        auxv_error(bytes, stack, brk) is Some,
{
    if auxv_error(bytes, stack, brk) is None {
        let place = accepted_auxv_is_complete(bytes, stack, brk, tag);
        assert(auxv_tag(bytes, place) == tag);
    }
}

/// A table with a required tag twice is refused.
pub proof fn auxv_with_a_tag_twice_is_refused(
    bytes: Seq<u8>,
    stack: Range<u64>,
    brk: u64,
    first: int,
    second: int,
)
    requires
        0 <= first < second < bytes.len() / 16,
        is_required(auxv_tag(bytes, second)),
        auxv_tag(bytes, first) == auxv_tag(bytes, second),
    ensures
        auxv_error(bytes, stack, brk) is Some,
{
    if auxv_error(bytes, stack, brk) is None {
        accepted_auxv_tags_are_unique(bytes, stack, brk, first, second);
    }
}

/// An accepted table that is cut off anywhere is refused.
pub proof fn auxv_cut_off_is_refused(
    bytes: Seq<u8>,
    stack: Range<u64>,
    brk: u64,
    length: int,
)
    requires
        auxv_error(bytes, stack, brk) is None,
        0 <= length < bytes.len(),
    ensures
        auxv_error(bytes.take(length), stack, brk) is Some,
{
    let cut = bytes.take(length);
    if auxv_error(cut, stack, brk) is None {
        accepted_auxv_is_terminated(bytes, stack, brk);
        accepted_auxv_is_terminated(cut, stack, brk);
        let last = length / 16 - 1;
        assert(cut.len() > 0);
        assert(auxv_tag(cut, last) == auxv_tag(bytes, last));
        accepted_auxv_tags_are_unique(bytes, stack, brk, last, bytes.len() as int / 16 - 1);
    }
}

// ---------------------------------------------------------------------------
// Images
// ---------------------------------------------------------------------------

proof fn longer_files_hold_what_shorter_hold(
    bytes: Seq<u8>,
    longer: Seq<u8>,
    start: int,
    size: int,
    name: &'static str,
)
    requires
        bytes.len() <= longer.len(),
        file_error(bytes, start, size, name) is None,
    ensures
        file_error(longer, start, size, name) is None,
{
}

#[verifier::rlimit(30)]
proof fn load_scan_of_a_longer_file(bytes: Seq<u8>, longer: Seq<u8>, table: int, count: int)
    requires
        bytes.is_prefix_of(longer),
        0 <= table,
        0 <= count,
        table + count * PROGRAM_HEADER <= bytes.len(),
        load_scan(bytes, table, count) is Ok,
    ensures
        load_scan(longer, table, count) == load_scan(bytes, table, count),
    decreases count,
{
    if count > 0 {
        load_scan_of_a_longer_file(bytes, longer, table, count - 1);
        let at = table + (count - 1) * PROGRAM_HEADER;
        assert(forall|i: int| at <= i < at + 56 ==> longer[i] == bytes[i]) by {
            assert(forall|i: int| 0 <= i < bytes.len() ==> bytes[i] == longer[i]);
        }
        assert(u32_at(longer, at) == u32_at(bytes, at));
        assert(u32_at(longer, at + 4) == u32_at(bytes, at + 4));
        assert(u64_at(longer, at + 8) == u64_at(bytes, at + 8));
        assert(u64_at(longer, at + 16) == u64_at(bytes, at + 16));
        assert(u64_at(longer, at + 32) == u64_at(bytes, at + 32));
        assert(u64_at(longer, at + 40) == u64_at(bytes, at + 40));
        assert(u64_at(longer, at + 48) == u64_at(bytes, at + 48));
    }
}

/// Bytes behind an accepted image change nothing: it is accepted with them, and says the
/// same.
#[verifier::rlimit(30)]
pub proof fn bytes_behind_an_image_change_nothing(bytes: Seq<u8>, more: Seq<u8>)
    requires
        image_error(bytes) is None,
    ensures
        image_error(bytes + more) is None,
        image_model(bytes + more) == (ImageModel { bytes: bytes + more, ..image_model(bytes) }),
{
    let longer = bytes + more;
    assert(bytes.is_prefix_of(longer)) by {
        assert(longer.take(bytes.len() as int) =~= bytes);
    }
    assert(forall|i: int| 0 <= i < bytes.len() ==> bytes[i] == longer[i]);
    assert(u16_at(longer, 16) == u16_at(bytes, 16));
    assert(u16_at(longer, 18) == u16_at(bytes, 18));
    assert(u32_at(longer, 20) == u32_at(bytes, 20));
    assert(u64_at(longer, 24) == u64_at(bytes, 24));
    assert(u64_at(longer, 32) == u64_at(bytes, 32));
    assert(u32_at(longer, 48) == u32_at(bytes, 48));
    assert(u16_at(longer, 52) == u16_at(bytes, 52));
    assert(u16_at(longer, 54) == u16_at(bytes, 54));
    assert(u16_at(longer, 56) == u16_at(bytes, 56));
    let table = u64_at(bytes, 32);
    let count = u16_at(bytes, 56);
    longer_files_hold_what_shorter_hold(
        bytes,
        longer,
        table,
        count * PROGRAM_HEADER,
        "program header table",
    );
    load_scan_of_a_longer_file(bytes, longer, table, count);
}

/// The program header at `index` of the table at `table` is a load that asks for `alignment`.
pub open spec fn asks_for_alignment(
    bytes: Seq<u8>,
    table: int,
    index: int,
    alignment: int,
) -> bool {
    let at = table + index * PROGRAM_HEADER;
    u32_at(bytes, at) == 1 && u64_at(bytes, at + 48) == alignment
}

proof fn alignment_of_a_scan(bytes: Seq<u8>, table: int, count: int)
    requires
        0 <= count,
        load_scan(bytes, table, count) is Ok,
    ensures
        ({
            let alignment = (load_scan(bytes, table, count)->Ok_0).alignment;
            &&& PAGE <= alignment
            &&& forall|k: int, asked: int|
                0 <= k < count && #[trigger] asks_for_alignment(bytes, table, k, asked) ==> asked
                    <= alignment
            &&& alignment == PAGE || exists|k: int|
                0 <= k < count && #[trigger] asks_for_alignment(bytes, table, k, alignment as int)
        }),
    decreases count,
{
    if count > 0 {
        alignment_of_a_scan(bytes, table, count - 1);
        let before = load_scan(bytes, table, count - 1)->Ok_0;
        let after = load_scan(bytes, table, count)->Ok_0;
        if after.alignment != before.alignment {
            assert(asks_for_alignment(bytes, table, count - 1, after.alignment as int));
        }
    }
}

/// The alignment of an accepted image is the largest that any of its loads asks for, and at
/// least a page.
pub proof fn alignment_is_the_largest(bytes: Seq<u8>)
    requires
        image_error(bytes) is None,
    ensures
        ({
            let table = u64_at(bytes, 32);
            let count = u16_at(bytes, 56);
            let alignment = image_model(bytes).alignment;
            &&& PAGE <= alignment
            &&& forall|k: int, asked: int|
                0 <= k < count && #[trigger] asks_for_alignment(bytes, table, k, asked) ==> asked
                    <= alignment
            &&& alignment == PAGE || exists|k: int|
                0 <= k < count && #[trigger] asks_for_alignment(bytes, table, k, alignment as int)
        }),
{
    alignment_of_a_scan(bytes, u64_at(bytes, 32), u16_at(bytes, 56));
}

/// The span of an image ends with the pages of its last load, and holds the pages of
/// every load.
pub proof fn span_holds_every_load(image: ImageModel, index: int)
    requires
        image_wf(image),
        0 <= index < image.loads.len(),
    ensures
        image.end == load_end(image.loads.last()),
        image.end % PAGE == 0,
        image.loads[index].address + image.loads[index].memory_size <= load_end(
            image.loads[index],
        ) <= image.end,
{
    assert(load_wf(image.loads[index]));
}

// ---------------------------------------------------------------------------
// Plans
// ---------------------------------------------------------------------------

/// A mapping that is no obstacle to a reservation.
pub open spec fn is_clear(reservation: Range<u64>, mapping: Range<u64>) -> bool {
    is_user_range(mapping) && !ranges_overlap(reservation, mapping)
}

proof fn clear_mappings_are_no_error(
    reservation: Range<u64>,
    mappings: Seq<Range<u64>>,
    count: int,
)
    requires
        0 <= count <= mappings.len(),
    ensures
        mapping_error(reservation, mappings, count) is None <==> forall|i: int|
            0 <= i < count ==> is_clear(reservation, #[trigger] mappings[i]),
    decreases count,
{
    if count > 0 {
        clear_mappings_are_no_error(reservation, mappings, count - 1);
        if mapping_error(reservation, mappings, count) is None {
            assert forall|i: int| 0 <= i < count implies is_clear(
                reservation,
                #[trigger] mappings[i],
            ) by {
                if i < count - 1 {
                    assert(mapping_error(reservation, mappings, count - 1) is None);
                }
            }
        } else if forall|i: int|
            0 <= i < count ==> is_clear(reservation, #[trigger] mappings[i]) {
            assert(is_clear(reservation, mappings[count - 1]));
        }
    }
}

/// What can be planned beside some mappings can be planned beside any of them.
pub proof fn fewer_mappings_refuse_nothing(
    image: ImageModel,
    initial: AuxvModel,
    reservation: Range<u64>,
    mappings: Seq<Range<u64>>,
    fewer: Seq<Range<u64>>,
)
    requires
        plan_error(image, initial, reservation, mappings) is None,
        forall|i: int| 0 <= i < fewer.len() ==> mappings.contains(#[trigger] fewer[i]),
    ensures
        plan_error(image, initial, reservation, fewer) is None,
{
    clear_mappings_are_no_error(reservation, mappings, mappings.len() as int);
    clear_mappings_are_no_error(reservation, fewer, fewer.len() as int);
    assert forall|i: int| 0 <= i < fewer.len() implies is_clear(
        reservation,
        #[trigger] fewer[i],
    ) by {
        assert(mappings.contains(fewer[i]));
        let place = choose|place: int| 0 <= place < mappings.len() && mappings[place] == fewer[i];
        assert(is_clear(reservation, mappings[place]));
    }
}

/// One range is another, moved.
pub open spec fn is_moved(range: Range<u64>, other: Range<u64>, distance: int) -> bool {
    other.start == range.start + distance && other.end == range.end + distance
}

/// One mapping is another, moved: the ranges lie elsewhere, with the same part of the file
/// and the same protection.
pub open spec fn is_mapping_moved(mapping: LoadMapping, other: LoadMapping, distance: int) -> bool {
    &&& is_moved(mapping.pages, other.pages, distance)
    &&& is_moved(mapping.memory, other.memory, distance)
    &&& is_moved(mapping.anonymous_pages, other.anonymous_pages, distance)
    &&& is_moved(mapping.zero_fill, other.zero_fill, distance)
    &&& mapping.flags == other.flags
    &&& match (mapping.file_pages, other.file_pages) {
        (Some((offset, range)), Some((other_offset, other_range))) => offset == other_offset
            && is_moved(range, other_range, distance),
        (None, None) => true,
        _ => false,
    }
}

proof fn pages_move_with_their_base(base: int, address: int)
    requires
        base % (PAGE as int) == 0,
    ensures
        floor_page(base + address) == base + floor_page(address),
        ceil_page(base + address) == base + ceil_page(address),
{
}

/// A range starts and ends so far behind a base.
pub open spec fn lies_at(range: Range<u64>, base: u64, start: int, end: int) -> bool {
    range.start == base + start && range.end == base + end
}

#[verifier::spinoff_prover]
#[verifier::rlimit(60)]
proof fn segment_lies_at_its_base(load: Load, base: u64)
    requires
        load_wf(load),
        base % PAGE == 0,
        base + load_end(load) <= USER_END,
    ensures
        ({
            let mapping = segment(load, base);
            let address = load.address as int;
            let data_end = address + load.file_size;
            let from_file = load.file_size != 0 || address != floor_page(address);
            &&& lies_at(mapping.pages, base, floor_page(address), load_end(load))
            &&& lies_at(mapping.memory, base, address, address + load.memory_size)
            &&& lies_at(
                mapping.anonymous_pages,
                base,
                if from_file {
                    ceil_page(data_end)
                } else {
                    floor_page(address)
                },
                load_end(load),
            )
            &&& lies_at(
                mapping.zero_fill,
                base,
                data_end,
                if load.file_size < load.memory_size {
                    load_end(load)
                } else {
                    data_end
                },
            )
            &&& from_file <==> mapping.file_pages is Some
            &&& from_file ==> (mapping.file_pages->Some_0).0 == floor_page(load.offset as int) as u64
            &&& from_file ==> lies_at(
                (mapping.file_pages->Some_0).1,
                base,
                floor_page(address),
                ceil_page(data_end),
            )
        }),
{
    let address = load.address as int;
    let data_end = address + load.file_size;
    pages_move_with_their_base(base as int, address);
    pages_move_with_their_base(base as int, data_end);
    pages_move_with_their_base(base as int, address + load.memory_size);
    assert(base + address + load.file_size == base + data_end);
    assert(0 <= floor_page(address) <= address);
    assert(data_end <= ceil_page(data_end) <= load_end(load));
    assert(address + load.memory_size <= load_end(load));
}

proof fn segment_moves_with_its_base(load: Load, base: u64, other: u64)
    requires
        load_wf(load),
        base % PAGE == 0,
        other % PAGE == 0,
        base + load_end(load) <= USER_END,
        other + load_end(load) <= USER_END,
    ensures
        is_mapping_moved(segment(load, base), segment(load, other), other - base),
{
    segment_lies_at_its_base(load, base);
    segment_lies_at_its_base(load, other);
}

/// Two plans of one image differ by the distance of their bases: every load, and the
/// entry, lies as far from the base.
pub proof fn plans_move_with_their_base(
    image: ImageModel,
    initial: AuxvModel,
    reservation: Range<u64>,
    mappings: Seq<Range<u64>>,
    other_initial: AuxvModel,
    other_reservation: Range<u64>,
    other_mappings: Seq<Range<u64>>,
    index: int,
)
    requires
        image_wf(image),
        auxv_wf(initial),
        auxv_wf(other_initial),
        plan_error(image, initial, reservation, mappings) is None,
        plan_error(image, other_initial, other_reservation, other_mappings) is None,
        0 <= index < image.loads.len(),
    ensures
        ({
            let distance = other_initial.base - initial.base;
            let plan = plan_model(image, initial, reservation);
            let other = plan_model(image, other_initial, other_reservation);
            &&& plan.segments.len() == image.loads.len()
            &&& other.segments.len() == image.loads.len()
            &&& is_mapping_moved(plan.segments[index], other.segments[index], distance)
            &&& other.entry == plan.entry + distance
        }),
{
    assert(load_wf(image.loads[index]));
    assert(load_end(image.loads[index]) <= image.end);
    segment_moves_with_its_base(image.loads[index], initial.base, other_initial.base);
    assert(image.entry <= image.end) by {
        let entered = choose|i: int|
            0 <= i < image.loads.len() && holds_entry(
                #[trigger] image.loads[i],
                image.entry as int,
            );
        assert(load_wf(image.loads[entered]));
        assert(load_end(image.loads[entered]) <= image.end);
    }
}

} // verus!

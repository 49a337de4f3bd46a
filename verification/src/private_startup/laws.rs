//! What the transition into the guest promises.

use vstd::prelude::*;

use crate::bytes::u32_at;
use crate::bytes::u64_at;
use crate::private_startup::byte_mismatch;
use crate::private_startup::first_fp_mismatch;
use crate::private_startup::first_mismatch;
use crate::private_startup::first_nonzero;
use crate::private_startup::first_unequal;
use crate::private_startup::fp_mismatch;
use crate::private_startup::initial_mask_matches;
use crate::private_startup::matches_fp;
use crate::private_startup::matches_registers;
use crate::private_startup::mismatch_iff_no_match;
use crate::private_startup::record_order;
use crate::private_startup::register_mismatch;
use crate::private_startup::InitialCapture;
use crate::private_startup::InitialMismatch;
use crate::private_startup::InitialRecord;
use crate::private_startup::InitialTransition;
use crate::private_startup::MismatchRecord;
use crate::private_startup::PrepareError;
use crate::registers::HookContext;

verus! {

// ---------------------------------------------------------------------------
// Registers
// ---------------------------------------------------------------------------

/// The record is whole: its version, its size, that all of it is valid, and that nothing
/// failed.
pub open spec fn whole_record(capture: Seq<u8>) -> bool {
    &&& capture.len() >= 320
    &&& u64_at(capture, 0) == 1
    &&& u64_at(capture, 8) == 4416
    &&& u64_at(capture, 16) == 31
    &&& u64_at(capture, 24) == 0
}

/// The registers match exactly where each of them is the captured one, the captured flags would
/// not trap, and the flags have fault-resume on top of them.
pub proof fn matching_registers_are_the_captured_ones(
    capture: &[u8],
    registers: HookContext,
    result: bool,
)
    requires
        call_ensures(matches_registers, (capture, &registers), result),
    ensures
        ({
            let flags = u64_at(capture@, 168) as u64;
            result <==> {
                &&& whole_record(capture@)
                &&& registers.rax == u64_at(capture@, 40)
                &&& registers.rbx == u64_at(capture@, 48)
                &&& registers.rcx == u64_at(capture@, 56)
                &&& registers.rdx == u64_at(capture@, 64)
                &&& registers.rsi == u64_at(capture@, 72)
                &&& registers.rdi == u64_at(capture@, 80)
                &&& registers.rbp == u64_at(capture@, 88)
                &&& registers.stack_pointer == u64_at(capture@, 96)
                &&& registers.r8 == u64_at(capture@, 104)
                &&& registers.r9 == u64_at(capture@, 112)
                &&& registers.r10 == u64_at(capture@, 120)
                &&& registers.r11 == u64_at(capture@, 128)
                &&& registers.r12 == u64_at(capture@, 136)
                &&& registers.r13 == u64_at(capture@, 144)
                &&& registers.r14 == u64_at(capture@, 152)
                &&& registers.r15 == u64_at(capture@, 160)
                &&& flags & 0x30100 == 0
                &&& registers.rflags == flags | 0x10000
            }
        }),
{
    let words = record_order(registers);
    assert(words[0] == registers.rax && words[1] == registers.rbx && words[2] == registers.rcx
        && words[3] == registers.rdx && words[4] == registers.rsi && words[5] == registers.rdi
        && words[6] == registers.rbp && words[7] == registers.stack_pointer && words[8]
        == registers.r8 && words[9] == registers.r9 && words[10] == registers.r10 && words[11]
        == registers.r11 && words[12] == registers.r12 && words[13] == registers.r13 && words[14]
        == registers.r14 && words[15] == registers.r15);
}

/// A captured start is found exactly where the registers and the extended state match.
pub proof fn starts_match_in_every_part(
    capture: &[u8],
    registers: HookContext,
    fp: &[u8],
    general: bool,
    extended: bool,
    mismatch: Option<InitialMismatch>,
)
    requires
        call_ensures(matches_registers, (capture, &registers), general),
        call_ensures(matches_fp, (capture, fp), extended),
        call_ensures(first_mismatch, (capture, &registers, fp), mismatch),
    ensures
        mismatch is None <==> general && extended,
{
    mismatch_iff_no_match(capture@, registers, fp@);
}

/// The first register that differs is the one that is reported, with where the record has it,
/// and both values.
pub proof fn the_first_differing_register_is_reported(
    capture: &[u8],
    registers: HookContext,
    fp: &[u8],
    mismatch: Option<InitialMismatch>,
    index: int,
)
    requires
        0 <= index < 16,
        whole_record(capture@),
        forall|i: int|
            0 <= i < index ==> #[trigger] record_order(registers)[i] == u64_at(
                capture@,
                40 + 8 * i,
            ),
        record_order(registers)[index] != u64_at(capture@, 40 + 8 * index),
        call_ensures(first_mismatch, (capture, &registers, fp), mismatch),
    ensures
        mismatch matches Some(found) && found.index == 40 + 8 * index && found.expected == u64_at(
            capture@,
            40 + 8 * index,
        ) && found.observed == record_order(registers)[index] && found.raw_flags is None,
{
    registers_are_searched_in_order(capture@, registers, 0, index);
    words_are_bounded(capture@, 40 + 8 * index);
}

proof fn words_are_bounded(bytes: Seq<u8>, offset: int)
    ensures
        0 <= u64_at(bytes, offset) <= u64::MAX,
        0 <= u32_at(bytes, offset) <= u32::MAX,
{
}

proof fn registers_are_searched_in_order(
    capture: Seq<u8>,
    registers: HookContext,
    from: int,
    index: int,
)
    requires
        0 <= from <= index < 16,
        forall|i: int|
            from <= i < index ==> #[trigger] record_order(registers)[i] == u64_at(
                capture,
                40 + 8 * i,
            ),
        record_order(registers)[index] != u64_at(capture, 40 + 8 * index),
    ensures
        register_mismatch(capture, registers, from) == register_mismatch(capture, registers, index),
    decreases index - from,
{
    if from < index {
        assert(record_order(registers)[from] == u64_at(capture, 40 + 8 * from));
        registers_are_searched_in_order(capture, registers, from + 1, index);
    }
}

// ---------------------------------------------------------------------------
// Extended state
// ---------------------------------------------------------------------------

/// Both images are framed as they are supported: their sizes, their magic words, their
/// components, and nothing in what is reserved.
pub open spec fn well_framed(capture: Seq<u8>, fp: Seq<u8>) -> bool {
    let captured = u64_at(capture, 832) as u64;
    &&& capture.len() >= 2760
    &&& fp.len() == 2444
    &&& u64_at(capture, 216) == 0x2e7
    &&& u64_at(capture, 224) == 2440
    &&& u32_at(fp, 464) == 0x46505853
    &&& u32_at(fp, 468) == 2444
    &&& u32_at(fp, 480) == 2440
    &&& u32_at(fp, 2440) == 0x46505845
    &&& u64_at(fp, 472) == 0x2e7
    &&& captured & !0x2e7 == 0
    &&& u64_at(fp, 512) == captured | 3
    &&& forall|i: int| 840 <= i < 896 ==> #[trigger] capture[i] == 0
    &&& forall|i: int| 484 <= i < 512 ==> #[trigger] fp[i] == 0
    &&& forall|i: int| 520 <= i < 576 ==> #[trigger] fp[i] == 0
}

/// A byte of the state itself, not of its framing.
pub open spec fn is_payload(index: int) -> bool {
    0 <= index < 464 || 576 <= index < 2440
}

/// The extended state matches exactly where both images are framed as they are supported, and
/// every byte of the state is the captured one.
pub proof fn matching_state_is_the_captured_one(capture: &[u8], fp: &[u8], result: bool)
    requires
        call_ensures(matches_fp, (capture, fp), result),
    ensures
        result <==> well_framed(capture@, fp@) && forall|i: int| #[trigger]
            is_payload(i) ==> fp@[i] == capture@[320 + i],
{
    framing_is_judged(capture@, fp@);
    if result {
        unequal_bytes_are_found(capture@, fp@, 0, 464);
        unequal_bytes_are_found(capture@, fp@, 576, 2440);
    }
    if well_framed(capture@, fp@) && forall|i: int| #[trigger]
        is_payload(i) ==> fp@[i] == capture@[320 + i] {
        unequal_bytes_are_found(capture@, fp@, 0, 464);
        unequal_bytes_are_found(capture@, fp@, 576, 2440);
        assert(forall|i: int| is_payload(i) ==> #[trigger] fp@[i] == capture@[320 + i]);
    }
}

/// The first byte of the state that differs is the one that is reported, with both bytes.
pub proof fn the_first_differing_byte_is_reported(
    capture: &[u8],
    fp: &[u8],
    mismatch: Option<InitialMismatch>,
    index: int,
)
    requires
        well_framed(capture@, fp@),
        is_payload(index),
        fp@[index] != capture@[320 + index],
        forall|i: int| #[trigger]
            is_payload(i) && i < index ==> fp@[i] == capture@[320 + i],
        call_ensures(first_fp_mismatch, (capture, fp), mismatch),
    ensures
        mismatch matches Some(found) && found.index == index && found.expected == capture@[320
            + index] && found.observed == fp@[index] && found.raw_flags is None,
{
    framing_is_judged(capture@, fp@);
    unequal_bytes_are_found(capture@, fp@, 0, 464);
    unequal_bytes_are_found(capture@, fp@, 576, 2440);
    let legacy = first_unequal(capture@, fp@, 0, 464);
    let extended = first_unequal(capture@, fp@, 576, 2440);
    if index < 464 {
        assert(legacy is Some);
        assert(is_payload(legacy->0));
    } else {
        if legacy is Some {
            assert(is_payload(legacy->0));
        }
        assert(extended is Some);
        assert(is_payload(extended->0));
    }
}

proof fn nonzero_bytes_are_found(bytes: Seq<u8>, low: int, high: int)
    ensures
        match first_nonzero(bytes, low, high) {
            Some(index) => low <= index < high && bytes[index] != 0,
            None => forall|i: int| low <= i < high ==> #[trigger] bytes[i] == 0,
        },
    decreases high - low,
{
    if low < high && bytes[low] == 0 {
        nonzero_bytes_are_found(bytes, low + 1, high);
    }
}

proof fn unequal_bytes_are_found(capture: Seq<u8>, fp: Seq<u8>, low: int, high: int)
    ensures
        match first_unequal(capture, fp, low, high) {
            Some(index) => low <= index < high && capture[320 + index] != fp[index] && forall|i: int|
                low <= i < index ==> #[trigger] fp[i] == capture[320 + i],
            None => forall|i: int| low <= i < high ==> #[trigger] fp[i] == capture[320 + i],
        },
    decreases high - low,
{
    if low < high && capture[320 + low] == fp[low] {
        unequal_bytes_are_found(capture, fp, low + 1, high);
    }
}

proof fn framing_is_judged(capture: Seq<u8>, fp: Seq<u8>)
    ensures
        ({
            let legacy = first_unequal(capture, fp, 0, 464);
            let extended = first_unequal(capture, fp, 576, 2440);
            &&& well_framed(capture, fp) ==> fp_mismatch(capture, fp) == if legacy is Some {
                byte_mismatch(capture, fp, legacy)
            } else {
                byte_mismatch(capture, fp, extended)
            }
            &&& !well_framed(capture, fp) ==> fp_mismatch(capture, fp) is Some
        }),
{
    nonzero_bytes_are_found(capture, 840, 896);
    nonzero_bytes_are_found(fp, 484, 512);
    nonzero_bytes_are_found(fp, 520, 576);
}

/// What is reported of the extended state is a difference: the two values are not the same.
#[verifier::spinoff_prover]
#[verifier::rlimit(80)]
pub proof fn reported_states_differ(
    capture: &[u8],
    fp: &[u8],
    mismatch: Option<InitialMismatch>,
)
    requires
        call_ensures(first_fp_mismatch, (capture, fp), mismatch),
    ensures
        mismatch matches Some(found) ==> found.expected != found.observed,
{
    let captured = u64_at(capture@, 832) as u64;
    assert(capture.len() == capture@.len() && fp.len() == fp@.len());
    words_are_bounded(capture@, 832);
    words_are_bounded(capture@, 216);
    words_are_bounded(capture@, 224);
    words_are_bounded(fp@, 464);
    words_are_bounded(fp@, 468);
    words_are_bounded(fp@, 472);
    words_are_bounded(fp@, 480);
    words_are_bounded(fp@, 512);
    words_are_bounded(fp@, 2440);
    nonzero_bytes_are_found(capture@, 840, 896);
    nonzero_bytes_are_found(fp@, 484, 512);
    nonzero_bytes_are_found(fp@, 520, 576);
    unequal_bytes_are_found(capture@, fp@, 0, 464);
    unequal_bytes_are_found(capture@, fp@, 576, 2440);
    assert(captured == 0x2e7 ==> captured & !0x2e7 == 0) by (bit_vector);
}

/// What is reported of a start is a difference: the two values are not the same.
pub proof fn reported_starts_differ(
    capture: &[u8],
    registers: HookContext,
    fp: &[u8],
    mismatch: Option<InitialMismatch>,
    extended: Option<InitialMismatch>,
)
    requires
        call_ensures(first_mismatch, (capture, &registers, fp), mismatch),
        call_ensures(first_fp_mismatch, (capture, fp), extended),
    ensures
        mismatch matches Some(found) ==> found.expected != found.observed,
{
    reported_states_differ(capture, fp, extended);
    reported_registers_differ(capture@, registers, 0);
}

proof fn reported_registers_differ(capture: Seq<u8>, registers: HookContext, index: int)
    requires
        0 <= index,
    ensures
        register_mismatch(capture, registers, index) matches Some(found) ==> found.expected
            != found.observed,
    decreases 16 - index,
{
    if index < 16 {
        words_are_bounded(capture, 40 + 8 * index);
        reported_registers_differ(capture, registers, index + 1);
    }
}

// ---------------------------------------------------------------------------
// Reports
// ---------------------------------------------------------------------------

/// A report has the index, then both values and the flags, if there are any, in halves, the high
/// one first: the halves make up the value. Each line names the field.
pub proof fn reports_make_up_the_mismatch(
    mismatch: InitialMismatch,
    records: Vec<MismatchRecord>,
    line: int,
)
    requires
        mismatch.index <= i64::MAX,
        call_ensures(InitialMismatch::report, (&mismatch,), records),
    ensures
        records@.len() == if mismatch.raw_flags is Some {
            7nat
        } else {
            5nat
        },
        records@[0].value == mismatch.index,
        records@[1].value * 0x1_0000_0000 + records@[2].value == mismatch.expected,
        records@[3].value * 0x1_0000_0000 + records@[4].value == mismatch.observed,
        mismatch.raw_flags matches Some(flags) ==> records@[5].value * 0x1_0000_0000
            + records@[6].value == flags,
        0 <= line < records@.len() ==> records@[line].field == mismatch.field,
        0 < line < records@.len() ==> 0 <= records@[line].value <= u32::MAX,
{
}

/// A mismatch is what it was made of, without flags.
pub proof fn mismatches_are_what_they_were_made_of(
    field: &'static str,
    index: usize,
    expected: u64,
    observed: u64,
    mismatch: InitialMismatch,
)
    requires
        call_ensures(InitialMismatch::new, (field, index, expected, observed), mismatch),
    ensures
        mismatch.field == field,
        mismatch.index == index,
        mismatch.expected == expected,
        mismatch.observed == observed,
        mismatch.raw_flags is None,
{
}

// ---------------------------------------------------------------------------
// The transition
// ---------------------------------------------------------------------------

/// A transition is asked for once, by a provider that is there, and retains the first mask.
pub proof fn transitions_are_prepared_once(
    transition: &mut InitialTransition,
    again: &mut InitialTransition,
    available: bool,
    provider: bool,
    mask: u64,
    other: u64,
    first: Result<(), PrepareError>,
    second: Result<(), PrepareError>,
    observed: u64,
    same: bool,
)
    requires
        call_ensures(InitialTransition::prepare, (transition, available, provider, mask), first),
        *old(again) == *final(transition),
        call_ensures(InitialTransition::prepare, (again, available, provider, other), second),
        call_ensures(initial_mask_matches, (final(again).mask, observed), same),
    ensures
        first is Ok <==> available && provider && old(transition).mask is None
            && !old(transition).requested,
        first is Ok ==> final(transition).requested && final(transition).mask == Some(mask),
        first is Ok ==> (second matches Err(error) && error == PrepareError::MaskRetained),
        first is Ok ==> *final(again) == *final(transition),
        first is Ok ==> (same <==> observed == mask),
        !(available && provider) ==> *final(transition) == *old(transition) && (first matches Err(
            error,
        ) && error == PrepareError::ProviderUnavailable),
{
}

/// The guest is entered exactly at the stop that was prepared for: with the retained mask, by
/// the fault of the loader at its own place, with every register and the extended state as
/// captured. Whatever comes of it, the request is spent.
pub proof fn the_guest_is_entered_once_as_captured(
    transition: &mut InitialTransition,
    again: &mut InitialTransition,
    record: InitialRecord<'_>,
    bytes: &[u8],
    signal: i32,
    registers: HookContext,
    fp: &[u8],
    guest_mask: u64,
    general: bool,
    extended: bool,
    result: InitialCapture,
    second: InitialCapture,
)
    requires
        record.capture == Some(bytes),
        call_ensures(matches_registers, (bytes, &registers), general),
        call_ensures(matches_fp, (bytes, fp), extended),
        call_ensures(
            InitialTransition::capture,
            (transition, Some(record), signal, &registers, fp, guest_mask),
            result,
        ),
        *old(again) == *final(transition),
        call_ensures(
            InitialTransition::capture,
            (again, Some(record), signal, &registers, fp, guest_mask),
            second,
        ),
    ensures
        result is NotRequested <==> !old(transition).requested,
        result is Enter <==> {
            &&& old(transition).requested
            &&& old(transition).mask == Some(guest_mask)
            &&& signal == 11
            &&& registers.instruction_pointer == record.fault_site
            &&& 0 < record.loader_entry < 0x8000_0000_0000
            &&& general
            &&& extended
        },
        result matches InitialCapture::Enter(entry) ==> entry == record.loader_entry,
        result is Mismatch ==> !(general && extended),
        second is NotRequested,
        !final(transition).requested,
        final(transition).mask == old(transition).mask,
{
    mismatch_iff_no_match(bytes@, registers, fp@);
}

/// Without a record there is nothing to enter.
pub proof fn nothing_is_entered_without_a_record(
    transition: &mut InitialTransition,
    record: Option<InitialRecord<'_>>,
    signal: i32,
    registers: HookContext,
    fp: &[u8],
    guest_mask: u64,
    result: InitialCapture,
)
    requires
        record is None || (record->0).capture is None,
        call_ensures(
            InitialTransition::capture,
            (transition, record, signal, &registers, fp, guest_mask),
            result,
        ),
    ensures
        old(transition).requested ==> result is Refused,
        !old(transition).requested ==> result is NotRequested,
{
}

} // verus!

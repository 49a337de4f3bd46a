//! What sealing frames and recording them promise.

use std::ops::Range;

use vstd::prelude::*;

use crate::bytes::le_bytes;
use crate::bytes::u64_at;
use crate::bytes::u64_round_trip;
use crate::owned_context::native_step::admitted;
use crate::owned_context::native_step::context_agrees;
use crate::owned_context::native_step::context_words;
use crate::owned_context::native_step::expected_frame;
use crate::owned_context::native_step::fetchable;
use crate::owned_context::native_step::in_some_range;
use crate::owned_context::native_step::sealed_word;
use crate::owned_context::native_step::with_trap;
use crate::owned_context::native_step::word_bytes;
use crate::owned_context::native_step::word_bytes_width;
use crate::owned_context::native_step::FrameError;
use crate::owned_context::native_step::FrameImage;
use crate::owned_context::native_step::History;
use crate::owned_context::native_step::HistoryError;
use crate::owned_context::native_step::NativeState;
use crate::owned_context::native_step::Seal;
use crate::owned_context::native_step::SealModel;
use crate::registers::HookContext;
use crate::startup::USER_END;

verus! {

// ---------------------------------------------------------------------------
// History
// ---------------------------------------------------------------------------

/// A record is appended behind what there is: the eight words of its header, each in eight
/// bytes with the lowest first, then its image. What does not fit changes nothing and fails the
/// history for good.
pub proof fn records_are_appended_whole(
    history: &mut History,
    header: [u64; 8],
    image: &[u8],
    result: Option<()>,
    word: int,
    index: int,
)
    requires
        0 <= word < 8,
        call_ensures(History::append, (history, header, image), result),
    ensures
        ({
            let before = old(history)@;
            let after = final(history)@;
            let at = before.content.len() as int;
            &&& result is Some <==> !before.failed && at + 64 + image@.len() <= before.capacity
                && before.records < u64::MAX
            &&& after.failed <==> result is None
            &&& result is None ==> after.content == before.content && after.records
                == before.records
            &&& after.capacity == before.capacity
            &&& result is Some ==> {
                &&& after.records == before.records + 1
                &&& after.content.len() == at + 64 + image@.len()
                &&& u64_at(after.content, at + 8 * word) == header@[word]
                &&& 0 <= index < at ==> after.content[index] == before.content[index]
                &&& 0 <= index < image@.len() ==> after.content[at + 64 + index] == image@[index]
            }
        }),
{
    word_bytes_width(header@, 8);
    words_are_written_in_place(header@, 8, word);
    let bytes = word_bytes(header@, 8);
    let at = old(history)@.content.len() as int;
    if result is Some {
        let after = final(history)@.content;
        assert(forall|i: int| 0 <= i < 64 ==> after[at + i] == bytes[i]);
        assert(u64_at(after, at + 8 * word) == u64_at(bytes, 8 * word));
    }
}

proof fn words_are_written_in_place(words: Seq<u64>, count: int, word: int)
    requires
        0 <= word < count,
    ensures
        word_bytes(words, count).len() == 8 * count,
        u64_at(word_bytes(words, count), 8 * word) == words[word],
    decreases count,
{
    word_bytes_width(words, count);
    word_bytes_width(words, count - 1);
    let before = word_bytes(words, count - 1);
    let last = le_bytes(words[count - 1] as nat, 8);
    u64_round_trip(words[count - 1]);
    let all = word_bytes(words, count);
    if word < count - 1 {
        words_are_written_in_place(words, count - 1, word);
        assert(forall|i: int| 0 <= i < before.len() ==> all[i] == before[i]);
        assert(u64_at(all, 8 * word) == u64_at(before, 8 * word));
    } else {
        assert(forall|i: int| 0 <= i < 8 ==> all[8 * word + i] == last[i]);
        assert(u64_at(all, 8 * word) == u64_at(last, 0));
    }
}

/// A history has between 64 bytes and 64 mebibytes, and starts empty.
pub proof fn histories_are_bounded_and_start_empty(
    capacity: usize,
    result: Result<History, HistoryError>,
)
    requires
        call_ensures(History::new, (capacity,), result),
    ensures
        capacity < 64 || capacity > 0x400_0000 <==> result == Err::<History, HistoryError>(
            HistoryError::InvalidInput,
        ),
        result matches Ok(history) ==> history@.content.len() == 0 && history@.records == 0
            && !history@.failed && history@.capacity == capacity,
{
}

// ---------------------------------------------------------------------------
// Seals
// ---------------------------------------------------------------------------

/// A frame is sealed exactly over no live seal, for a newer generation, where its prefix and
/// the image that it points to lie in what was read. What is sealed is what was read.
pub proof fn frames_are_sealed_as_they_were_read(
    seal: &mut Seal,
    source: &[u8],
    address: u64,
    generation: u64,
    result: Option<()>,
    index: int,
)
    requires
        call_ensures(Seal::capture, (seal, source, address, generation), result),
    ensures
        ({
            let pointer = u64_at(source@, 232);
            &&& result is Some <==> !old(seal).live && old(seal).generation < generation
                && source@.len() >= 440 && address <= pointer && pointer - address + 2444
                <= source@.len()
            &&& result is None ==> final(seal)@ == old(seal)@
            &&& result is Some ==> {
                &&& final(seal).live
                &&& !final(seal).verified
                &&& final(seal).generation == generation
                &&& 0 <= index < 440 ==> final(seal)@.prefix[index] == source@[index]
                &&& 0 <= index < 2444 ==> final(seal)@.fp[index] == source@[pointer - address
                    + index]
            }
        }),
{
}

/// A moved frame is the sealed one exactly where its image is the same, and its prefix is but
/// for two words: the address of the image, and the trap flag as it is asked for.
pub proof fn moved_frames_keep_every_other_byte(
    seal: Seal,
    frame: &[u8],
    fp: &[u8],
    fp_address: u64,
    generation: u64,
    tf: bool,
    result: bool,
    index: int,
)
    requires
        call_ensures(Seal::matches, (&seal, frame, fp, fp_address, generation, tf), result),
    ensures
        result ==> {
            &&& seal.live && !seal.verified
            &&& generation == seal.generation
            &&& fp@ == seal.fp@
            &&& frame@.len() == 440
            &&& u64_at(frame@, 232) == fp_address
            &&& (u64_at(frame@, 184) as u64) & 0x100 == (if tf {
                0x100u64
            } else {
                0
            })
            &&& (u64_at(frame@, 184) as u64) & !0x100 == (u64_at(seal.prefix@, 184) as u64)
                & !0x100
            &&& 0 <= index < 440 && !(184 <= index < 192) && !(232 <= index < 240) ==> frame@[index]
                == seal.prefix@[index]
        },
{
    if result {
        let word = u64_at(seal.prefix@, 184) as u64;
        let flags = with_trap(word, tf);
        u64_round_trip(fp_address);
        u64_round_trip(flags);
        let pointer_bytes = le_bytes(fp_address as nat, 8);
        let flag_bytes = le_bytes(flags as nat, 8);
        assert(forall|i: int| 0 <= i < 8 ==> frame@[232 + i] == pointer_bytes[i]);
        assert(forall|i: int| 0 <= i < 8 ==> frame@[184 + i] == flag_bytes[i]);
        assert(u64_at(frame@, 232) == u64_at(pointer_bytes, 0));
        assert(u64_at(frame@, 184) == u64_at(flag_bytes, 0));
        assert(((word & !0x100u64) | 0x100) & 0x100 == 0x100 && ((word & !0x100u64) | 0) & 0x100 == 0
            && ((word & !0x100u64) | 0x100) & !0x100u64 == word & !0x100u64 && ((word & !0x100u64)
            | 0) & !0x100u64 == word & !0x100u64) by (bit_vector);
    }
}

/// A frame that was not moved matches its own seal, with its own trap flag.
pub proof fn unmoved_frames_match_their_seal(
    seal: &mut Seal,
    source: &[u8],
    address: u64,
    generation: u64,
    frame: &[u8],
    fp: &[u8],
    tf: bool,
    result: bool,
)
    requires
        call_ensures(Seal::capture, (seal, source, address, generation), Some(())),
        frame@ == source@.take(440),
        fp@ == final(seal)@.fp,
        tf == ((u64_at(source@, 184) as u64) & 0x100 == 0x100),
        call_ensures(
            Seal::matches,
            (&*final(seal), frame, fp, u64_at(source@, 232) as u64, generation, tf),
            result,
        ),
    ensures
        result,
{
    let prefix = source@.take(440);
    let word = u64_at(source@, 184) as u64;
    let pointer = u64_at(source@, 232) as u64;
    assert(u64_at(prefix, 184) == u64_at(source@, 184));
    assert(u64_at(prefix, 232) == u64_at(source@, 232));
    assert((word & 0x100 == 0x100 || word & 0x100 == 0) && (word & 0x100 == 0x100 ==> (word
        & !0x100u64) | 0x100 == word) && (word & 0x100 == 0 ==> (word & !0x100u64) | 0 == word))
        by (bit_vector);
    words_are_their_bytes(source@, 184);
    words_are_their_bytes(source@, 232);
    assert(with_trap(word, tf) == word);
    assert forall|i: int| 0 <= i < 440 implies #[trigger] expected_frame(prefix, pointer, tf)[i]
        == prefix[i] by {
        if 184 <= i < 192 {
            assert(le_bytes(u64_at(source@, 184) as nat, 8)[i - 184] == source@[184 + (i - 184)]);
        }
        if 232 <= i < 240 {
            assert(le_bytes(u64_at(source@, 232) as nat, 8)[i - 232] == source@[232 + (i - 232)]);
        }
    }
    assert(expected_frame(prefix, pointer, tf) =~= prefix);
}

proof fn words_are_their_bytes(bytes: Seq<u8>, offset: int)
    ensures
        0 <= u64_at(bytes, offset) <= u64::MAX,
        forall|i: int|
            0 <= i < 8 ==> #[trigger] le_bytes(u64_at(bytes, offset) as nat, 8)[i] == bytes[offset
                + i],
{
    reveal_with_fuel(le_bytes, 9);
    let word = u64_at(bytes, offset) as nat;
    let b0 = bytes[offset] as nat;
    let b1 = bytes[offset + 1] as nat;
    let b2 = bytes[offset + 2] as nat;
    let b3 = bytes[offset + 3] as nat;
    let b4 = bytes[offset + 4] as nat;
    let b5 = bytes[offset + 5] as nat;
    let b6 = bytes[offset + 6] as nat;
    let b7 = bytes[offset + 7] as nat;
    let w1 = b1 + 0x100 * b2 + 0x1_0000 * b3 + 0x100_0000 * b4 + 0x1_0000_0000 * b5
        + 0x100_0000_0000 * b6 + 0x1_0000_0000_0000 * b7;
    let w2 = b2 + 0x100 * b3 + 0x1_0000 * b4 + 0x100_0000 * b5 + 0x1_0000_0000 * b6
        + 0x100_0000_0000 * b7;
    let w3 = b3 + 0x100 * b4 + 0x1_0000 * b5 + 0x100_0000 * b6 + 0x1_0000_0000 * b7;
    let w4 = b4 + 0x100 * b5 + 0x1_0000 * b6 + 0x100_0000 * b7;
    let w5 = b5 + 0x100 * b6 + 0x1_0000 * b7;
    let w6 = b6 + 0x100 * b7;
    assert(word == b0 + 0x100 * w1);
    assert(word % 0x100 == b0 && word / 0x100 == w1);
    assert(w1 % 0x100 == b1 && w1 / 0x100 == w2);
    assert(w2 % 0x100 == b2 && w2 / 0x100 == w3);
    assert(w3 % 0x100 == b3 && w3 / 0x100 == w4);
    assert(w4 % 0x100 == b4 && w4 / 0x100 == w5);
    assert(w5 % 0x100 == b5 && w5 / 0x100 == w6);
    assert(w6 % 0x100 == b6 && w6 / 0x100 == b7);
    let all = le_bytes(word, 8);
    assert(all[0] == b0 && all[1] == b1 && all[2] == b2 && all[3] == b3 && all[4] == b4 && all[5]
        == b5 && all[6] == b6 && all[7] == b7);
}

/// A step is verified once, by its own frame and the context that the frame holds; without a
/// live seal there is nothing to verify, and a refusal changes nothing.
pub proof fn steps_are_verified_once(
    seal: &mut Seal,
    again: &mut Seal,
    image: FrameImage<'_>,
    context: HookContext,
    generation: u64,
    tf: bool,
    same: bool,
    result: Option<()>,
    second: Option<()>,
)
    requires
        call_ensures(
            Seal::matches,
            (&*old(seal), image.frame, image.fp, image.fp_address, generation, tf),
            same,
        ),
        call_ensures(Seal::finish, (seal, &image, &context, generation, tf), result),
        *old(again) == *final(seal),
        call_ensures(Seal::finish, (again, &image, &context, generation, tf), second),
    ensures
        !old(seal).live ==> result is Some && final(seal)@ == old(seal)@,
        old(seal).live && result is Some ==> same && final(seal).verified && second is None,
        old(seal).live && !same ==> result is None,
        result is None ==> final(seal)@ == old(seal)@,
        final(seal)@ == (SealModel { verified: final(seal).verified, ..old(seal)@ }),
        old(seal).live && result is Some ==> {
            let prefix = old(seal)@.prefix;
            &&& context.r8 == u64_at(prefix, 48)
            &&& context.r9 == u64_at(prefix, 56)
            &&& context.r10 == u64_at(prefix, 64)
            &&& context.r11 == u64_at(prefix, 72)
            &&& context.r12 == u64_at(prefix, 80)
            &&& context.r13 == u64_at(prefix, 88)
            &&& context.r14 == u64_at(prefix, 96)
            &&& context.r15 == u64_at(prefix, 104)
            &&& context.rdi == u64_at(prefix, 112)
            &&& context.rsi == u64_at(prefix, 120)
            &&& context.rbp == u64_at(prefix, 128)
            &&& context.rbx == u64_at(prefix, 136)
            &&& context.rdx == u64_at(prefix, 144)
            &&& context.rax == u64_at(prefix, 152)
            &&& context.rcx == u64_at(prefix, 160)
            &&& context.stack_pointer == u64_at(prefix, 168)
            &&& context.instruction_pointer == u64_at(prefix, 176)
            &&& context.rflags == (u64_at(prefix, 184) as u64) & !0x100
        },
{
    if old(seal).live && result is Some {
        let prefix = old(seal)@.prefix;
        let words = context_words(context);
        assert(context_agrees(prefix, context));
        assert(words[0] == sealed_word(prefix, 0));
        assert(words[1] == sealed_word(prefix, 1));
        assert(words[2] == sealed_word(prefix, 2));
        assert(words[3] == sealed_word(prefix, 3));
        assert(words[4] == sealed_word(prefix, 4));
        assert(words[5] == sealed_word(prefix, 5));
        assert(words[6] == sealed_word(prefix, 6));
        assert(words[7] == sealed_word(prefix, 7));
        assert(words[8] == sealed_word(prefix, 8));
        assert(words[9] == sealed_word(prefix, 9));
        assert(words[10] == sealed_word(prefix, 10));
        assert(words[11] == sealed_word(prefix, 11));
        assert(words[12] == sealed_word(prefix, 12));
        assert(words[13] == sealed_word(prefix, 13));
        assert(words[14] == sealed_word(prefix, 14));
        assert(words[15] == sealed_word(prefix, 15));
        assert(words[16] == sealed_word(prefix, 16));
        assert(words[17] == sealed_word(prefix, 17));
    }
}

/// A seal is retired exactly where its step is verified or there is none, and then only stops
/// being live.
pub proof fn unverified_seals_are_not_retired(seal: &mut Seal, result: Option<()>)
    requires
        call_ensures(Seal::retire_verified, (seal,), result),
    ensures
        result is None <==> old(seal).live && !old(seal).verified,
        result is Some ==> !final(seal).live,
        final(seal)@ == (SealModel { live: final(seal).live, ..old(seal)@ }),
{
}

/// A frame returns traced, and a modeled read is completed untraced.
pub proof fn frames_return_traced_and_complete_untraced(
    seal: Seal,
    image: FrameImage<'_>,
    generation: u64,
    traced: bool,
    untraced: bool,
    relocated: bool,
    completable: bool,
)
    requires
        call_ensures(
            Seal::matches,
            (&seal, image.frame, image.fp, image.fp_address, generation, true),
            traced,
        ),
        call_ensures(
            Seal::matches,
            (&seal, image.frame, image.fp, image.fp_address, generation, false),
            untraced,
        ),
        call_ensures(Seal::relocated, (&seal, &image, generation), relocated),
        call_ensures(Seal::may_complete_modeled, (&seal, &image, generation), completable),
    ensures
        relocated == traced,
        completable == untraced,
{
}

/// A modeled read is completed only in its own frame, and with an image that did not change;
/// then its new prefix is sealed. Anything else changes nothing.
pub proof fn modeled_frames_replace_their_prefix(
    seal: &mut Seal,
    image: FrameImage<'_>,
    generation: u64,
    completed: FrameImage<'_>,
    accepted: bool,
    result: Result<(), FrameError>,
)
    requires
        completed.frame@.len() == 440,
        call_ensures(Seal::may_complete_modeled, (&*old(seal), &image, generation), accepted),
        call_ensures(
            Seal::complete_modeled,
            (seal, &image, generation, Some(&completed)),
            result,
        ),
    ensures
        result is Ok <==> accepted && completed.fp@ == old(seal).fp@,
        result is Ok ==> final(seal)@ == (SealModel { prefix: completed.frame@, ..old(seal)@ }),
        result is Err ==> final(seal)@ == old(seal)@ && result == Err::<(), FrameError>(
            FrameError::Metadata,
        ),
{
}

// ---------------------------------------------------------------------------
// Instruction bytes
// ---------------------------------------------------------------------------

/// The admitted bytes of an instruction are those up to the first that no range holds, at most
/// fifteen, and none beyond the guest.
pub proof fn admitted_bytes_lie_in_ranges(ranges: Seq<Range<u64>>, pc: u64, offset: int)
    ensures
        0 <= admitted(ranges, pc) <= 15,
        pc == 0 ==> admitted(ranges, pc) == 0,
        0 <= offset < admitted(ranges, pc) ==> in_some_range(ranges, pc + offset) && pc + offset
            < 0x8000_0000_0000,
        pc != 0 && admitted(ranges, pc) < 15 && pc + admitted(ranges, pc) < 0x8000_0000_0000
            ==> !in_some_range(ranges, pc + admitted(ranges, pc)),
{
    if pc != 0 {
        fetched_bytes_lie_in_ranges(ranges, pc, 0, offset);
    }
}

proof fn fetched_bytes_lie_in_ranges(
    ranges: Seq<Range<u64>>,
    pc: u64,
    count: int,
    offset: int,
)
    requires
        0 <= count <= 15,
    ensures
        count <= fetchable(ranges, pc, count) <= 15,
        count <= offset < fetchable(ranges, pc, count) ==> in_some_range(ranges, pc + offset) && pc
            + offset < 0x8000_0000_0000,
        fetchable(ranges, pc, count) < 15 && pc + fetchable(ranges, pc, count) < 0x8000_0000_0000
            ==> !in_some_range(ranges, pc + fetchable(ranges, pc, count)),
    decreases 15 - count,
{
    if count < 15 && pc + count < USER_END && in_some_range(ranges, pc + count) {
        fetched_bytes_lie_in_ranges(ranges, pc, count + 1, offset);
    }
}

// ---------------------------------------------------------------------------
// State
// ---------------------------------------------------------------------------

/// A state starts without a live seal or a fault to resume, and has an empty history exactly
/// where bytes are asked for.
pub proof fn states_start_empty(
    evidence_bytes: usize,
    result: Result<NativeState, HistoryError>,
    history: History,
    content: &[u8],
    records: u64,
    failed: bool,
)
    requires
        call_ensures(NativeState::new, (evidence_bytes,), result),
        result matches Ok(state) ==> (state.history is Some ==> state.history == Some(history)),
        call_ensures(History::bytes, (&history,), content),
        call_ensures(History::records, (&history,), records),
        call_ensures(History::failed, (&history,), failed),
    ensures
        evidence_bytes == 0 ==> result is Ok,
        result == Err::<NativeState, HistoryError>(HistoryError::InvalidInput) <==> 0
            < evidence_bytes < 64 || evidence_bytes > 0x400_0000,
        result matches Ok(state) ==> {
            &&& !state.seal.live
            &&& state.seal.generation == 0
            &&& state.fault_resume is None
            &&& state.history is Some <==> evidence_bytes != 0
            &&& evidence_bytes != 0 ==> content@.len() == 0 && records == 0 && !failed
                && history@.capacity == evidence_bytes
        },
        content@ == history@.content,
        records == history@.records,
        failed == history@.failed,
{
}

} // verus!

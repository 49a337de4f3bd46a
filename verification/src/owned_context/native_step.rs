//! Sealed signal frames of owned steps, and an optional history of them.
//!
//! Preallocated correctness state is independent of the diagnostic history.

use std::ops::Range;

use vstd::prelude::*;

pub mod laws;

use crate::bytes::le_bytes;
use crate::bytes::read_u64;
use crate::bytes::u64_at;
use crate::registers::general;
use crate::registers::general_of;
use crate::registers::HookContext;
use crate::registers::TRAP_FLAG;
use crate::startup::USER_END;

verus! {

/// Bytes of a signal frame before its floating-point image.
pub const PREFIX: usize = 440;

/// Bytes of the floating-point image.
pub const FP: usize = 2444;

/// Where the prefix holds the address of the floating-point image.
pub const FP_POINTER: usize = 232;

/// Where the prefix holds the flags.
pub const FLAGS: usize = 184;

/// Where the prefix holds the general registers.
pub const GENERAL: usize = 48;

pub const MIN_HISTORY: usize = 64;

pub const MAX_HISTORY: usize = 0x400_0000;

// ---------------------------------------------------------------------------
// History
// ---------------------------------------------------------------------------

#[derive(Clone, Copy, Debug, PartialEq, Eq, Structural)]
pub enum HistoryError {
    InvalidInput,
    OutOfMemory,
}

/// Records of captured frames in a buffer that never grows.
#[derive(Debug)]
pub struct History {
    content: Vec<u8>,
    capacity: usize,
    records: u64,
    failed: bool,
}

pub struct HistoryModel {
    pub content: Seq<u8>,
    pub capacity: usize,
    pub records: u64,
    pub failed: bool,
}

impl View for History {
    type V = HistoryModel;

    closed spec fn view(&self) -> HistoryModel {
        HistoryModel {
            content: self.content@,
            capacity: self.capacity,
            records: self.records,
            failed: self.failed,
        }
    }
}

/// The records fit, and each of them holds at least its header.
pub open spec fn history_wf(history: HistoryModel) -> bool {
    64 * history.records <= history.content.len() <= history.capacity
}

/// Words as little-endian bytes, one after the other.
pub open spec fn word_bytes(words: Seq<u64>, count: int) -> Seq<u8>
    decreases count,
{
    if count <= 0 {
        Seq::empty()
    } else {
        word_bytes(words, count - 1) + le_bytes(words[count - 1] as nat, 8)
    }
}

/// One record: the header words, then the image.
pub open spec fn record_bytes(header: Seq<u64>, image: Seq<u8>) -> Seq<u8> {
    word_bytes(header, 8) + image
}

/// The history after an append. What does not fit marks it failed for good and
/// leaves everything else.
pub open spec fn appended(history: HistoryModel, header: Seq<u64>, image: Seq<u8>) -> HistoryModel {
    if history.failed {
        history
    } else if history.content.len() + 64 + image.len() > history.capacity || history.records
        == u64::MAX {
        HistoryModel { failed: true, ..history }
    } else {
        HistoryModel {
            content: history.content + record_bytes(header, image),
            records: (history.records + 1) as u64,
            ..history
        }
    }
}

fn push_word(bytes: &mut Vec<u8>, word: u64)
    ensures
        final(bytes)@ == old(bytes)@ + le_bytes(word as nat, 8),
{
    let mut rest: u64 = word;
    let mut left: u32 = 8;
    proof {
        assert(bytes@ + le_bytes(rest as nat, 8) =~= old(bytes)@ + le_bytes(word as nat, 8));
    }
    while left > 0
        invariant
            left <= 8,
            bytes@ + le_bytes(rest as nat, left as nat) == old(bytes)@ + le_bytes(word as nat, 8),
        decreases left,
    {
        let ghost before = bytes@;
        bytes.push((rest % 0x100) as u8);
        proof {
            let tail = le_bytes((rest / 0x100) as nat, (left - 1) as nat);
            assert(before + le_bytes(rest as nat, left as nat) =~= bytes@ + tail);
        }
        rest = rest / 0x100;
        left = left - 1;
    }
    proof {
        assert(bytes@ + le_bytes(rest as nat, 0) =~= bytes@);
    }
}

fn push_all(bytes: &mut Vec<u8>, source: &[u8])
    ensures
        final(bytes)@ == old(bytes)@ + source@,
{
    let mut index: usize = 0;
    assert(bytes@ =~= old(bytes)@ + source@.take(0));
    while index < source.len()
        invariant
            index <= source.len(),
            bytes@ == old(bytes)@ + source@.take(index as int),
        decreases source.len() - index,
    {
        bytes.push(source[index]);
        index = index + 1;
        assert(bytes@ =~= old(bytes)@ + source@.take(index as int));
    }
    assert(source@.take(index as int) =~= source@);
}

proof fn word_bytes_width(words: Seq<u64>, count: int)
    requires
        0 <= count,
    ensures
        word_bytes(words, count).len() == 8 * count,
    decreases count,
{
    if count > 0 {
        word_bytes_width(words, count - 1);
        crate::bytes::le_bytes_width(words[count - 1] as nat, 8);
    }
}

impl History {
    #[verifier::type_invariant]
    spec fn fits(self) -> bool {
        history_wf(self@)
    }

    /// A history of `capacity` bytes. Whether there is memory for it is the
    /// machine's to say.
    pub fn new(capacity: usize) -> (result: Result<Self, HistoryError>)
        ensures
            !(MIN_HISTORY <= capacity <= MAX_HISTORY) ==> result == Err::<Self, HistoryError>(
                HistoryError::InvalidInput,
            ),
            MIN_HISTORY <= capacity <= MAX_HISTORY ==> match result {
                Ok(history) => history@ == (HistoryModel {
                    content: Seq::empty(),
                    capacity,
                    records: 0,
                    failed: false,
                }),
                Err(error) => error == HistoryError::OutOfMemory,
            },
    {
        if capacity < MIN_HISTORY || capacity > MAX_HISTORY {
            return Err(HistoryError::InvalidInput);
        }
        let mut content: Vec<u8> = Vec::new();
        if content.try_reserve(capacity).is_err() {
            return Err(HistoryError::OutOfMemory);
        }
        Ok(History { content, capacity, records: 0, failed: false })
    }

    pub fn append(&mut self, header: [u64; 8], image: &[u8]) -> (result: Option<()>)
        ensures
            final(self)@ == appended(old(self)@, header@, image@),
            (result is Some) == !final(self)@.failed,
    {
        proof {
            use_type_invariant(&*self);
        }
        if self.failed {
            return None;
        }
        let used: usize = self.content.len();
        if self.capacity - used < 64 || self.capacity - used - 64 < image.len() || self.records
            == u64::MAX {
            self.failed = true;
            return None;
        }
        let mut content: Vec<u8> = Vec::new();
        let records: u64 = self.records;
        self.records = 0;
        std::mem::swap(&mut content, &mut self.content);
        let ghost start = content@;
        let mut index: usize = 0;
        assert(content@ =~= start + word_bytes(header@, 0));
        while index < 8
            invariant
                index <= 8,
                content@ == start + word_bytes(header@, index as int),
            decreases 8 - index,
        {
            push_word(&mut content, header[index]);
            index = index + 1;
            assert(content@ =~= start + word_bytes(header@, index as int));
        }
        push_all(&mut content, image);
        proof {
            word_bytes_width(header@, 8);
            assert(content@ =~= start + record_bytes(header@, image@));
        }
        self.content = content;
        self.records = records + 1;
        Some(())
    }

    pub fn bytes(&self) -> (bytes: &[u8])
        ensures
            bytes@ == self@.content,
            history_wf(self@),
    {
        proof {
            use_type_invariant(self);
        }
        self.content.as_slice()
    }

    pub fn records(&self) -> (records: u64)
        ensures
            records == self@.records,
    {
        self.records
    }

    pub fn failed(&self) -> (failed: bool)
        ensures
            failed == self@.failed,
    {
        self.failed
    }
}

/// What was recorded stays recorded: an append never changes the bytes before it,
/// never passes the capacity, and after a failure changes nothing at all.
pub proof fn history_is_append_only(history: HistoryModel, header: Seq<u64>, image: Seq<u8>)
    requires
        history_wf(history),
    ensures
        ({
            let next = appended(history, header, image);
            &&& history.content.is_prefix_of(next.content)
            &&& next.capacity == history.capacity
            &&& history_wf(next)
            &&& history.failed ==> next == history
            &&& next.failed ==> next.content == history.content && next.records == history.records
            &&& !next.failed ==> next.content.len() == history.content.len() + 64 + image.len()
                && next.records == history.records + 1
        }),
{
    word_bytes_width(header, 8);
    assert(history.content.is_prefix_of(history.content + record_bytes(header, image)));
}

// ---------------------------------------------------------------------------
// Seal
// ---------------------------------------------------------------------------

/// The frame of one captured step, byte for byte, until the step is verified.
#[derive(Debug)]
pub struct Seal {
    pub prefix: [u8; 440],
    pub fp: [u8; 2444],
    pub generation: u64,
    pub live: bool,
    pub verified: bool,
}

pub struct SealModel {
    pub prefix: Seq<u8>,
    pub fp: Seq<u8>,
    pub generation: u64,
    pub live: bool,
    pub verified: bool,
}

impl View for Seal {
    type V = SealModel;

    open spec fn view(&self) -> SealModel {
        SealModel {
            prefix: self.prefix@,
            fp: self.fp@,
            generation: self.generation,
            live: self.live,
            verified: self.verified,
        }
    }
}

/// A frame that was moved: its prefix, its floating-point image and where that is.
#[derive(Clone, Copy, Debug)]
pub struct FrameImage<'a> {
    pub frame: &'a [u8],
    pub fp: &'a [u8],
    pub fp_address: u64,
}

#[derive(Clone, Copy, Debug, PartialEq, Eq, Structural)]
pub enum FrameError {
    /// The frame is not the sealed one.
    Metadata,
    /// The frame could not be completed.
    Incomplete,
}

/// A capture of a newer frame that holds its floating-point image.
pub open spec fn captures_frame(
    seal: SealModel,
    source: Seq<u8>,
    address: u64,
    generation: u64,
) -> bool {
    let pointer = u64_at(source, FP_POINTER as int);
    &&& !seal.live
    &&& seal.generation < generation
    &&& source.len() >= PREFIX
    &&& address <= pointer
    &&& pointer - address + FP <= source.len()
}

pub open spec fn sealed(source: Seq<u8>, address: u64, generation: u64) -> SealModel {
    let offset = u64_at(source, FP_POINTER as int) - address;
    SealModel {
        prefix: source.take(PREFIX as int),
        fp: source.subrange(offset, offset + FP),
        generation,
        live: true,
        verified: false,
    }
}

pub open spec fn with_trap(flags: u64, tf: bool) -> u64 {
    (flags & !TRAP_FLAG) | if tf {
        TRAP_FLAG
    } else {
        0
    }
}

/// The sealed prefix with the image's address and the trap flag replaced.
pub open spec fn expected_frame(prefix: Seq<u8>, fp_address: u64, tf: bool) -> Seq<u8> {
    let pointer = le_bytes(fp_address as nat, 8);
    let flags = le_bytes(
        with_trap(u64_at(prefix, FLAGS as int) as u64, tf) as nat,
        8,
    );
    Seq::new(
        PREFIX as nat,
        |i: int|
            if FP_POINTER <= i < FP_POINTER + 8 {
                pointer[i - FP_POINTER]
            } else if FLAGS <= i < FLAGS + 8 {
                flags[i - FLAGS]
            } else {
                prefix[i]
            },
    )
}

/// The frame is the sealed one, but for where its image is and the trap flag.
pub open spec fn seal_matches(
    seal: SealModel,
    frame: Seq<u8>,
    fp: Seq<u8>,
    fp_address: u64,
    generation: u64,
    tf: bool,
) -> bool {
    &&& seal.live
    &&& !seal.verified
    &&& generation == seal.generation
    &&& fp == seal.fp
    &&& frame == expected_frame(seal.prefix, fp_address, tf)
}

/// The registers, the program counter and the flags in frame order.
pub open spec fn context_words(context: HookContext) -> Seq<u64> {
    general_of(context) + seq![context.instruction_pointer, context.rflags]
}

/// The context that the sealed prefix holds, the trap flag cleared.
pub open spec fn sealed_word(prefix: Seq<u8>, index: int) -> u64 {
    let word = u64_at(prefix, GENERAL + 8 * index) as u64;
    if index == 17 {
        word & !TRAP_FLAG
    } else {
        word
    }
}

pub open spec fn context_agrees(prefix: Seq<u8>, context: HookContext) -> bool {
    forall|i: int|
        0 <= i < 18 ==> #[trigger] context_words(context)[i] == sealed_word(prefix, i)
}

fn word_byte(word: u64, index: usize) -> (byte: u8)
    requires
        index < 8,
    ensures
        byte == le_bytes(word as nat, 8)[index as int],
{
    let mut rest: u64 = word;
    let mut skipped: usize = 0;
    while skipped < index
        invariant
            skipped <= index < 8,
            le_bytes(word as nat, 8)[index as int] == le_bytes(
                rest as nat,
                (8 - skipped) as nat,
            )[index - skipped],
        decreases index - skipped,
    {
        proof {
            crate::bytes::le_bytes_width(rest as nat, (8 - skipped) as nat);
            crate::bytes::le_bytes_width((rest / 0x100) as nat, (7 - skipped) as nat);
        }
        rest = rest / 0x100;
        skipped = skipped + 1;
    }
    (rest % 0x100) as u8
}

fn same_slice(left: &[u8], right: &[u8]) -> (same: bool)
    ensures
        same == (left@ == right@),
{
    if left.len() != right.len() {
        return false;
    }
    let mut index: usize = 0;
    while index < left.len()
        invariant
            index <= left.len(),
            left.len() == right.len(),
            forall|i: int| 0 <= i < index ==> left@[i] == right@[i],
        decreases left.len() - index,
    {
        if left[index] != right[index] {
            return false;
        }
        index = index + 1;
    }
    assert(left@ =~= right@);
    true
}

impl Default for Seal {
    fn default() -> (seal: Self)
        ensures
            seal.generation == 0,
            !seal.live,
            !seal.verified,
            forall|i: int| 0 <= i < PREFIX ==> seal.prefix@[i] == 0,
            forall|i: int| 0 <= i < FP ==> seal.fp@[i] == 0,
    {
        Seal { prefix: [0; 440], fp: [0; 2444], generation: 0, live: false, verified: false }
    }
}

impl Seal {
    pub fn retire_verified(&mut self) -> (result: Option<()>)
        ensures
            old(self).live && !old(self).verified ==> result is None && *final(self) == *old(self),
            !(old(self).live && !old(self).verified) ==> result is Some && final(self)@ == (
            SealModel { live: false, ..old(self)@ }),
    {
        if self.live && !self.verified {
            return None;
        }
        self.live = false;
        Some(())
    }

    /// Seals a frame that was read from `address`.
    pub fn capture(&mut self, source: &[u8], address: u64, generation: u64) -> (result: Option<()>)
        ensures
            captures_frame(old(self)@, source@, address, generation) ==> result is Some
                && final(self)@ == sealed(source@, address, generation),
            !captures_frame(old(self)@, source@, address, generation) ==> result is None
                && final(self)@ == old(self)@,
    {
        if self.live || generation <= self.generation || source.len() < PREFIX {
            return None;
        }
        let pointer: u64 = read_u64(source, FP_POINTER);
        if pointer < address {
            return None;
        }
        let offset: u64 = pointer - address;
        if (source.len() as u64) < FP as u64 || offset > source.len() as u64 - FP as u64 {
            return None;
        }
        let start: usize = offset as usize;
        let mut prefix: [u8; 440] = [0; 440];
        let mut index: usize = 0;
        while index < PREFIX
            invariant
                index <= PREFIX,
                PREFIX <= source.len(),
                forall|i: int| 0 <= i < index ==> prefix@[i] == source@[i],
            decreases PREFIX - index,
        {
            prefix[index] = source[index];
            index = index + 1;
        }
        let mut fp: [u8; 2444] = [0; 2444];
        index = 0;
        while index < FP
            invariant
                index <= FP,
                start + FP <= source.len(),
                forall|i: int| 0 <= i < index ==> fp@[i] == source@[start + i],
            decreases FP - index,
        {
            fp[index] = source[start + index];
            index = index + 1;
        }
        self.prefix = prefix;
        self.fp = fp;
        self.generation = generation;
        self.live = true;
        self.verified = false;
        proof {
            assert(self.prefix@ =~= source@.take(PREFIX as int));
            assert(self.fp@ =~= source@.subrange(start as int, start + FP));
        }
        Some(())
    }

    /// Whether a moved frame is the sealed one.
    pub fn matches(
        &self,
        frame: &[u8],
        fp: &[u8],
        fp_address: u64,
        generation: u64,
        tf: bool,
    ) -> (result: bool)
        ensures
            result == seal_matches(self@, frame@, fp@, fp_address, generation, tf),
    {
        if !self.live || self.verified || generation != self.generation || frame.len() != PREFIX {
            return false;
        }
        if !same_slice(fp, self.fp.as_slice()) {
            return false;
        }
        let flags: u64 = read_u64(self.prefix.as_slice(), FLAGS);
        let expected_flags: u64 = (flags & !TRAP_FLAG) | if tf {
            TRAP_FLAG
        } else {
            0
        };
        let ghost expected = expected_frame(self.prefix@, fp_address, tf);
        let mut index: usize = 0;
        while index < PREFIX
            invariant
                index <= PREFIX,
                frame.len() == PREFIX,
                expected == expected_frame(self.prefix@, fp_address, tf),
                expected_flags == with_trap(u64_at(self.prefix@, FLAGS as int) as u64, tf),
                forall|i: int| 0 <= i < index ==> frame@[i] == expected[i],
            decreases PREFIX - index,
        {
            let byte: u8 = if FP_POINTER <= index && index < FP_POINTER + 8 {
                word_byte(fp_address, index - FP_POINTER)
            } else if FLAGS <= index && index < FLAGS + 8 {
                word_byte(expected_flags, index - FLAGS)
            } else {
                self.prefix[index]
            };
            if frame[index] != byte {
                assert(frame@[index as int] != expected[index as int]);
                return false;
            }
            index = index + 1;
        }
        assert(frame@ =~= expected);
        true
    }

    /// Whether the frame was moved for a traced return.
    pub fn relocated(&self, image: &FrameImage<'_>, generation: u64) -> (result: bool)
        ensures
            result == seal_matches(
                self@,
                image.frame@,
                image.fp@,
                image.fp_address,
                generation,
                true,
            ),
    {
        self.matches(image.frame, image.fp, image.fp_address, generation, true)
    }

    /// Verifies a step against its moved frame and its context. Without a live seal
    /// there is nothing to verify.
    pub fn finish(
        &mut self,
        image: &FrameImage<'_>,
        context: &HookContext,
        generation: u64,
        tf: bool,
    ) -> (result: Option<()>)
        ensures
            !old(self).live ==> result is Some && final(self)@ == old(self)@,
            old(self).live ==> {
                let agrees = seal_matches(
                    old(self)@,
                    image.frame@,
                    image.fp@,
                    image.fp_address,
                    generation,
                    tf,
                ) && context_agrees(old(self)@.prefix, *context);
                &&& (result is Some) == agrees
                &&& final(self)@ == if agrees {
                    SealModel { verified: true, ..old(self)@ }
                } else {
                    old(self)@
                }
            },
    {
        if !self.live {
            return Some(());
        }
        if !self.matches(image.frame, image.fp, image.fp_address, generation, tf) {
            return None;
        }
        let words: [u64; 16] = general(context);
        let mut index: usize = 0;
        while index < 18
            invariant
                index <= 18,
                *self == *old(self),
                self.live,
                seal_matches(
                    self@,
                    image.frame@,
                    image.fp@,
                    image.fp_address,
                    generation,
                    tf,
                ),
                words@ == general_of(*context),
                forall|i: int|
                    0 <= i < index ==> #[trigger] context_words(*context)[i] == sealed_word(
                        self.prefix@,
                        i,
                    ),
            decreases 18 - index,
        {
            let actual: u64 = if index < 16 {
                words[index]
            } else if index == 16 {
                context.instruction_pointer
            } else {
                context.rflags
            };
            let word: u64 = read_u64(self.prefix.as_slice(), GENERAL + index * 8);
            let expected: u64 = if index == 17 {
                word & !TRAP_FLAG
            } else {
                word
            };
            assert(actual == context_words(*context)[index as int]);
            if actual != expected {
                return None;
            }
            index = index + 1;
        }
        self.verified = true;
        Some(())
    }

    /// Whether a modeled read may be completed in this frame.
    pub fn may_complete_modeled(&self, image: &FrameImage<'_>, generation: u64) -> (result: bool)
        ensures
            result == seal_matches(
                self@,
                image.frame@,
                image.fp@,
                image.fp_address,
                generation,
                false,
            ),
    {
        self.matches(image.frame, image.fp, image.fp_address, generation, false)
    }

    /// Takes the frame in which a modeled read was completed, `None` where it could
    /// not be. The new prefix is sealed in place of the old one; the image may not
    /// have changed.
    pub fn complete_modeled(
        &mut self,
        image: &FrameImage<'_>,
        generation: u64,
        completed: Option<&FrameImage<'_>>,
    ) -> (result: Result<(), FrameError>)
        requires
            completed is Some ==> (completed->0).frame.len() == PREFIX,
        ensures
            ({
                let accepted = seal_matches(
                    old(self)@,
                    image.frame@,
                    image.fp@,
                    image.fp_address,
                    generation,
                    false,
                );
                if !accepted {
                    result == Err::<(), FrameError>(FrameError::Metadata) && final(self)@ == old(self)@
                } else if completed is None {
                    result == Err::<(), FrameError>(FrameError::Incomplete) && final(self)@ == old(self)@
                } else if (completed->0).fp@ != old(self)@.fp {
                    result == Err::<(), FrameError>(FrameError::Metadata) && final(self)@ == old(self)@
                } else {
                    result == Ok::<(), FrameError>(()) && final(self)@ == (SealModel {
                        prefix: (completed->0).frame@,
                        ..old(self)@
                    })
                }
            }),
    {
        if !self.may_complete_modeled(image, generation) {
            return Err(FrameError::Metadata);
        }
        let completed = match completed {
            Some(completed) => completed,
            None => return Err(FrameError::Incomplete),
        };
        if !same_slice(completed.fp, self.fp.as_slice()) {
            return Err(FrameError::Metadata);
        }
        let mut prefix: [u8; 440] = [0; 440];
        let mut index: usize = 0;
        while index < PREFIX
            invariant
                index <= PREFIX,
                completed.frame.len() == PREFIX,
                forall|i: int| 0 <= i < index ==> prefix@[i] == completed.frame@[i],
            decreases PREFIX - index,
        {
            prefix[index] = completed.frame[index];
            index = index + 1;
        }
        self.prefix = prefix;
        assert(self.prefix@ =~= completed.frame@);
        Ok(())
    }
}

/// A live seal cannot be captured over, and a spent generation cannot come back:
/// every seal is used once.
pub proof fn seals_have_one_use(
    seal: SealModel,
    source: Seq<u8>,
    address: u64,
    generation: u64,
    other: Seq<u8>,
    elsewhere: u64,
    later: u64,
)
    requires
        captures_frame(seal, source, address, generation),
    ensures
        ({
            let live = sealed(source, address, generation);
            let retired = SealModel { live: false, verified: true, ..live };
            &&& !captures_frame(live, other, elsewhere, later)
            &&& later <= generation ==> !captures_frame(retired, other, elsewhere, later)
        }),
{
}

/// Every byte of a sealed frame counts: a frame of the right size that differs from
/// the expected one anywhere is refused, and so is any change of the image.
pub proof fn every_byte_is_sealed(
    seal: SealModel,
    frame: Seq<u8>,
    fp: Seq<u8>,
    fp_address: u64,
    generation: u64,
    tf: bool,
    index: int,
    byte: u8,
)
    requires
        seal_matches(seal, frame, fp, fp_address, generation, tf),
    ensures
        0 <= index < PREFIX && byte != frame[index] ==> !seal_matches(
            seal,
            frame.update(index, byte),
            fp,
            fp_address,
            generation,
            tf,
        ),
        0 <= index < fp.len() && byte != fp[index] ==> !seal_matches(
            seal,
            frame,
            fp.update(index, byte),
            fp_address,
            generation,
            tf,
        ),
{
    let expected = expected_frame(seal.prefix, fp_address, tf);
    if 0 <= index < PREFIX && byte != frame[index] {
        assert(frame.update(index, byte)[index] != expected[index]);
    }
    if 0 <= index < fp.len() && byte != fp[index] {
        assert(fp.update(index, byte)[index] != seal.fp[index]);
    }
}

// ---------------------------------------------------------------------------
// State and instruction fetch
// ---------------------------------------------------------------------------

#[derive(Debug)]
pub struct NativeState {
    pub seal: Seal,
    pub history: Option<History>,
    pub fault_resume: Option<u64>,
}

impl NativeState {
    /// A state with an empty seal, and with a history where bytes are asked for.
    pub fn new(evidence_bytes: usize) -> (result: Result<Self, HistoryError>)
        ensures
            evidence_bytes == 0 ==> result is Ok && (result->Ok_0).history is None,
            evidence_bytes != 0 && !(MIN_HISTORY <= evidence_bytes <= MAX_HISTORY) ==> result
                == Err::<Self, HistoryError>(HistoryError::InvalidInput),
            evidence_bytes != 0 && MIN_HISTORY <= evidence_bytes <= MAX_HISTORY ==> match result {
                Ok(state) => state.history is Some && (state.history->0)@ == (HistoryModel {
                    content: Seq::empty(),
                    capacity: evidence_bytes,
                    records: 0,
                    failed: false,
                }),
                Err(error) => error == HistoryError::OutOfMemory,
            },
            result is Ok ==> !(result->Ok_0).seal.live && (result->Ok_0).seal.generation == 0 && (
            result->Ok_0).fault_resume is None,
    {
        let history: Option<History> = if evidence_bytes == 0 {
            None
        } else {
            match History::new(evidence_bytes) {
                Ok(history) => Some(history),
                Err(error) => return Err(error),
            }
        };
        Ok(NativeState { seal: Seal::default(), history, fault_resume: None })
    }
}

/// Some range holds the address.
pub open spec fn in_some_range(ranges: Seq<Range<u64>>, address: int) -> bool {
    exists|i: int|
        0 <= i < ranges.len() && (#[trigger] ranges[i]).start <= address < ranges[i].end
}

/// How many of the fifteen bytes at `pc` may be read, from `count` on: up to the
/// first one that no range holds.
pub open spec fn fetchable(ranges: Seq<Range<u64>>, pc: u64, count: int) -> int
    decreases 15 - count,
{
    if count >= 15 || pc + count >= USER_END || !in_some_range(ranges, pc + count) {
        count
    } else {
        fetchable(ranges, pc, count + 1)
    }
}

/// How many bytes of an instruction at `pc` are admitted.
pub open spec fn admitted(ranges: Seq<Range<u64>>, pc: u64) -> int {
    if pc == 0 {
        0
    } else {
        fetchable(ranges, pc, 0)
    }
}

proof fn fetchable_grows(ranges: Seq<Range<u64>>, pc: u64, count: int)
    requires
        count <= 15,
    ensures
        count <= fetchable(ranges, pc, count) <= 15,
    decreases 15 - count,
{
    if fetchable(ranges, pc, count) != count {
        fetchable_grows(ranges, pc, count + 1);
    }
}

fn some_range(ranges: &[Range<u64>], address: u64) -> (result: bool)
    ensures
        result == in_some_range(ranges@, address as int),
{
    let mut index: usize = 0;
    while index < ranges.len()
        invariant
            index <= ranges.len(),
            forall|i: int|
                0 <= i < index ==> !((#[trigger] ranges@[i]).start <= address < ranges@[i].end),
        decreases ranges.len() - index,
    {
        if ranges[index].start <= address && address < ranges[index].end {
            return true;
        }
        index = index + 1;
    }
    false
}

/// Reads the instruction bytes at `pc` through `read`, which is asked for the admitted
/// bytes and for no others: not at all where none is, and for nothing behind the first
/// one that is not.
pub fn fetch_with<F: Fn(u64) -> u8>(ranges: &[Range<u64>], pc: u64, read: F) -> (result: Option<
    ([u8; 15], usize),
>)
    requires
        forall|address: u64|
            pc <= address < pc + admitted(ranges@, pc) ==> #[trigger] read.requires((address,)),
    ensures
        ({
            let length = admitted(ranges@, pc);
            match result {
                Some((bytes, count)) => {
                    &&& count == length > 0
                    &&& forall|i: int|
                        0 <= i < length ==> read.ensures(
                            ((pc + i) as u64,),
                            #[trigger] bytes@[i],
                        )
                    &&& forall|i: int| length <= i < 15 ==> bytes@[i] == 0
                },
                None => length == 0,
            }
        }),
{
    if pc == 0 || pc >= USER_END {
        return None;
    }
    let mut bytes: [u8; 15] = [0; 15];
    let mut length: usize = 0;
    while length < 15
        invariant_except_break
            length <= 15,
            0 < pc < USER_END,
            fetchable(ranges@, pc, 0) == fetchable(ranges@, pc, length as int),
            forall|address: u64|
                pc <= address < pc + admitted(ranges@, pc) ==> #[trigger] read.requires(
                    (address,),
                ),
            forall|i: int|
                0 <= i < length ==> read.ensures(((pc + i) as u64,), #[trigger] bytes@[i]),
            forall|i: int| length <= i < 15 ==> bytes@[i] == 0,
        ensures
            length == fetchable(ranges@, pc, 0),
            length <= 15,
            forall|i: int|
                0 <= i < length ==> read.ensures(((pc + i) as u64,), #[trigger] bytes@[i]),
            forall|i: int| length <= i < 15 ==> bytes@[i] == 0,
        decreases 15 - length,
    {
        let address: u64 = pc + length as u64;
        if address >= USER_END || !some_range(ranges, address) {
            break;
        }
        proof {
            fetchable_grows(ranges@, pc, length + 1);
        }
        bytes[length] = read(address);
        length = length + 1;
    }
    if length != 0 {
        Some((bytes, length))
    } else {
        None
    }
}

} // verus!

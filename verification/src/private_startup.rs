//! The one-use transition from a private startup into the first guest instruction.

pub mod laws;
pub mod provider;

use vstd::prelude::*;

use crate::bytes::read_u32;
use crate::bytes::read_u64;
use crate::bytes::u32_at;
use crate::bytes::u64_at;
use crate::registers::HookContext;
use crate::registers::RESUME_FLAG;
use crate::startup::USER_END;
use crate::sys::SIGSEGV;

verus! {

/// Bytes of the captured record before its extended state.
pub const CAPTURE_HEADER: usize = 320;

/// Bytes of a whole captured record.
pub const CAPTURE_SIZE: usize = 4416;

/// Bytes of extended state.
pub const XSTATE_SIZE: usize = 2440;

/// Bytes of the extended state in a signal frame, with its trailer.
pub const FP_SIZE: usize = 2444;

/// The state components that are supported.
pub const XFEATURES: u64 = 0x2e7;

/// The components that the kernel always materializes.
pub const LEGACY_FEATURES: u64 = 3;

/// Flags that a captured start may not have: trap, fault-resume, virtual-8086.
pub const FORBIDDEN_FLAGS: u64 = 0x30100;

/// Where the captured record holds the flags.
pub const CAPTURED_FLAGS: usize = 168;

/// Where the captured record holds the general registers.
pub const CAPTURED_GENERAL: usize = 40;

#[derive(Clone, Copy, Debug, PartialEq, Eq)]
pub struct InitialMismatch {
    pub field: &'static str,
    pub index: usize,
    pub expected: u64,
    pub observed: u64,
    pub raw_flags: Option<u64>,
}

/// A mismatch without flags of its own.
pub open spec fn mismatch_at(
    field: &'static str,
    index: int,
    expected: int,
    observed: int,
) -> InitialMismatch {
    InitialMismatch {
        field,
        index: index as usize,
        expected: expected as u64,
        observed: observed as u64,
        raw_flags: None,
    }
}

/// One line of a report.
#[derive(Clone, Copy, Debug, PartialEq, Eq)]
pub struct MismatchRecord {
    pub field: &'static str,
    pub detail: &'static str,
    pub value: i64,
}

pub open spec fn half_records(
    field: &'static str,
    high: &'static str,
    low: &'static str,
    value: u64,
) -> Seq<MismatchRecord> {
    seq![
        MismatchRecord { field, detail: high, value: (value / 0x1_0000_0000) as i64 },
        MismatchRecord { field, detail: low, value: (value % 0x1_0000_0000) as i64 },
    ]
}

pub open spec fn mismatch_records(mismatch: InitialMismatch) -> Seq<MismatchRecord> {
    seq![
        MismatchRecord { field: mismatch.field, detail: "index", value: mismatch.index as i64 },
    ] + half_records(mismatch.field, "expected-high32", "expected-low32", mismatch.expected)
        + half_records(mismatch.field, "observed-high32", "observed-low32", mismatch.observed)
        + match mismatch.raw_flags {
        Some(flags) => half_records(mismatch.field, "raw-flags-high32", "raw-flags-low32", flags),
        None => Seq::empty(),
    }
}

fn push_halves(
    records: &mut Vec<MismatchRecord>,
    field: &'static str,
    high: &'static str,
    low: &'static str,
    value: u64,
)
    ensures
        final(records)@ == old(records)@ + half_records(field, high, low, value),
{
    records.push(MismatchRecord { field, detail: high, value: (value / 0x1_0000_0000) as i64 });
    records.push(MismatchRecord { field, detail: low, value: (value % 0x1_0000_0000) as i64 });
    assert(records@ =~= old(records)@ + half_records(field, high, low, value));
}

impl InitialMismatch {
    pub fn new(field: &'static str, index: usize, expected: u64, observed: u64) -> (mismatch: Self)
        ensures
            mismatch == mismatch_at(field, index as int, expected as int, observed as int),
    {
        InitialMismatch { field, index, expected, observed, raw_flags: None }
    }

    /// Describes the mismatch in plain words, high halves first.
    pub fn report(&self) -> (records: Vec<MismatchRecord>)
        ensures
            records@ == mismatch_records(*self),
    {
        let mut records: Vec<MismatchRecord> = Vec::new();
        records.push(
            MismatchRecord { field: self.field, detail: "index", value: self.index as i64 },
        );
        assert(records@ =~= seq![
            MismatchRecord { field: self.field, detail: "index", value: self.index as i64 },
        ]);
        push_halves(&mut records, self.field, "expected-high32", "expected-low32", self.expected);
        push_halves(&mut records, self.field, "observed-high32", "observed-low32", self.observed);
        let ghost described = records@;
        match self.raw_flags {
            Some(flags) => push_halves(
                &mut records,
                self.field,
                "raw-flags-high32",
                "raw-flags-low32",
                flags,
            ),
            None => {
                assert(described =~= described + Seq::<MismatchRecord>::empty());
            },
        }
        records
    }
}

// ---------------------------------------------------------------------------
// Registers
// ---------------------------------------------------------------------------

/// The general registers in the order of a captured record.
pub open spec fn record_order(registers: HookContext) -> Seq<u64> {
    seq![
        registers.rax,
        registers.rbx,
        registers.rcx,
        registers.rdx,
        registers.rsi,
        registers.rdi,
        registers.rbp,
        registers.stack_pointer,
        registers.r8,
        registers.r9,
        registers.r10,
        registers.r11,
        registers.r12,
        registers.r13,
        registers.r14,
        registers.r15,
    ]
}

pub open spec fn register_field(index: int) -> &'static str {
    if index == 0 {
        "initial/rax"
    } else if index == 1 {
        "initial/rbx"
    } else if index == 2 {
        "initial/rcx"
    } else if index == 3 {
        "initial/rdx"
    } else if index == 4 {
        "initial/rsi"
    } else if index == 5 {
        "initial/rdi"
    } else if index == 6 {
        "initial/rbp"
    } else if index == 7 {
        "initial/rsp"
    } else if index == 8 {
        "initial/r8"
    } else if index == 9 {
        "initial/r9"
    } else if index == 10 {
        "initial/r10"
    } else if index == 11 {
        "initial/r11"
    } else if index == 12 {
        "initial/r12"
    } else if index == 13 {
        "initial/r13"
    } else if index == 14 {
        "initial/r14"
    } else {
        "initial/r15"
    }
}

/// The registers are those of the record, and the flags are the captured ones with
/// fault-resume set.
pub open spec fn registers_agree(capture: Seq<u8>, registers: HookContext) -> bool {
    &&& capture.len() >= CAPTURE_HEADER
    &&& u64_at(capture, 0) == 1
    &&& u64_at(capture, 8) == CAPTURE_SIZE
    &&& u64_at(capture, 16) == 31
    &&& u64_at(capture, 24) == 0
    &&& forall|i: int|
        0 <= i < 16 ==> #[trigger] record_order(registers)[i] == u64_at(
            capture,
            CAPTURED_GENERAL + 8 * i,
        )
    &&& u64_at(capture, CAPTURED_FLAGS as int) as u64 & FORBIDDEN_FLAGS == 0
    &&& registers.rflags == u64_at(capture, CAPTURED_FLAGS as int) as u64 | RESUME_FLAG
}

/// The first register, from `index` on, that is not the captured one.
pub open spec fn register_mismatch(
    capture: Seq<u8>,
    registers: HookContext,
    index: int,
) -> Option<InitialMismatch>
    decreases 16 - index,
{
    let offset = CAPTURED_GENERAL + 8 * index;
    if index >= 16 {
        None
    } else if record_order(registers)[index] != u64_at(capture, offset) {
        Some(
            mismatch_at(
                register_field(index),
                offset,
                u64_at(capture, offset),
                record_order(registers)[index] as int,
            ),
        )
    } else {
        register_mismatch(capture, registers, index + 1)
    }
}

/// The first way in which a stopped thread is not the captured start.
pub open spec fn start_mismatch(
    capture: Seq<u8>,
    registers: HookContext,
    fp: Seq<u8>,
) -> Option<InitialMismatch> {
    let flags = u64_at(capture, CAPTURED_FLAGS as int) as u64;
    if capture.len() < CAPTURE_HEADER {
        Some(
            mismatch_at(
                "initial/capture-min-length",
                0,
                CAPTURE_HEADER as int,
                capture.len() as int,
            ),
        )
    } else if u64_at(capture, 0) != 1 {
        Some(mismatch_at("initial/version", 0, 1, u64_at(capture, 0)))
    } else if u64_at(capture, 8) != CAPTURE_SIZE {
        Some(mismatch_at("initial/record-size", 8, CAPTURE_SIZE as int, u64_at(capture, 8)))
    } else if u64_at(capture, 16) != 31 {
        Some(mismatch_at("initial/valid", 16, 31, u64_at(capture, 16)))
    } else if u64_at(capture, 24) != 0 {
        Some(mismatch_at("initial/failure", 24, 0, u64_at(capture, 24)))
    } else if register_mismatch(capture, registers, 0) is Some {
        register_mismatch(capture, registers, 0)
    } else if flags & FORBIDDEN_FLAGS != 0 {
        Some(
            InitialMismatch {
                raw_flags: Some(flags),
                ..mismatch_at(
                    "initial/captured-rflags-forbidden-bits",
                    CAPTURED_FLAGS as int,
                    0,
                    (flags & FORBIDDEN_FLAGS) as int,
                )
            },
        )
    } else if registers.rflags != flags | RESUME_FLAG {
        Some(
            mismatch_at(
                "initial/signal-rflags",
                CAPTURED_FLAGS as int,
                (flags | RESUME_FLAG) as int,
                registers.rflags as int,
            ),
        )
    } else {
        fp_mismatch(capture, fp)
    }
}

fn register_name(index: usize) -> (field: &'static str)
    ensures
        field == register_field(index as int),
{
    match index {
        0 => "initial/rax",
        1 => "initial/rbx",
        2 => "initial/rcx",
        3 => "initial/rdx",
        4 => "initial/rsi",
        5 => "initial/rdi",
        6 => "initial/rbp",
        7 => "initial/rsp",
        8 => "initial/r8",
        9 => "initial/r9",
        10 => "initial/r10",
        11 => "initial/r11",
        12 => "initial/r12",
        13 => "initial/r13",
        14 => "initial/r14",
        _ => "initial/r15",
    }
}

fn in_record_order(registers: &HookContext) -> (words: [u64; 16])
    ensures
        words@ == record_order(*registers),
{
    let words: [u64; 16] = [
        registers.rax,
        registers.rbx,
        registers.rcx,
        registers.rdx,
        registers.rsi,
        registers.rdi,
        registers.rbp,
        registers.stack_pointer,
        registers.r8,
        registers.r9,
        registers.r10,
        registers.r11,
        registers.r12,
        registers.r13,
        registers.r14,
        registers.r15,
    ];
    assert(words@ =~= record_order(*registers));
    words
}

pub fn matches_registers(capture: &[u8], registers: &HookContext) -> (result: bool)
    ensures
        result == registers_agree(capture@, *registers),
{
    if capture.len() < CAPTURE_HEADER || read_u64(capture, 0) != 1 || read_u64(capture, 8)
        != CAPTURE_SIZE as u64 || read_u64(capture, 16) != 31 || read_u64(capture, 24) != 0 {
        return false;
    }
    let words: [u64; 16] = in_record_order(registers);
    let mut index: usize = 0;
    while index < 16
        invariant
            index <= 16,
            capture.len() >= CAPTURE_HEADER,
            words@ == record_order(*registers),
            forall|i: int|
                0 <= i < index ==> #[trigger] record_order(*registers)[i] == u64_at(
                    capture@,
                    CAPTURED_GENERAL + 8 * i,
                ),
        decreases 16 - index,
    {
        if words[index] != read_u64(capture, CAPTURED_GENERAL + 8 * index) {
            assert(record_order(*registers)[index as int] != u64_at(
                capture@,
                CAPTURED_GENERAL + 8 * index,
            ));
            return false;
        }
        index = index + 1;
    }
    let flags: u64 = read_u64(capture, CAPTURED_FLAGS);
    flags & FORBIDDEN_FLAGS == 0 && registers.rflags == flags | RESUME_FLAG
}

fn first_register_mismatch(capture: &[u8], registers: &HookContext) -> (result: Option<
    InitialMismatch,
>)
    requires
        capture.len() >= CAPTURE_HEADER,
    ensures
        result == register_mismatch(capture@, *registers, 0),
{
    let words: [u64; 16] = in_record_order(registers);
    let mut index: usize = 0;
    while index < 16
        invariant
            index <= 16,
            capture.len() >= CAPTURE_HEADER,
            words@ == record_order(*registers),
            register_mismatch(capture@, *registers, 0) == register_mismatch(
                capture@,
                *registers,
                index as int,
            ),
        decreases 16 - index,
    {
        let offset: usize = CAPTURED_GENERAL + 8 * index;
        let expected: u64 = read_u64(capture, offset);
        if words[index] != expected {
            return Some(
                InitialMismatch::new(register_name(index), offset, expected, words[index]),
            );
        }
        index = index + 1;
    }
    None
}

pub fn first_mismatch(capture: &[u8], registers: &HookContext, fp: &[u8]) -> (result: Option<
    InitialMismatch,
>)
    ensures
        result == start_mismatch(capture@, *registers, fp@),
{
    if capture.len() < CAPTURE_HEADER {
        return Some(
            InitialMismatch::new(
                "initial/capture-min-length",
                0,
                CAPTURE_HEADER as u64,
                capture.len() as u64,
            ),
        );
    }
    let version: u64 = read_u64(capture, 0);
    if version != 1 {
        return Some(InitialMismatch::new("initial/version", 0, 1, version));
    }
    let size: u64 = read_u64(capture, 8);
    if size != CAPTURE_SIZE as u64 {
        return Some(InitialMismatch::new("initial/record-size", 8, CAPTURE_SIZE as u64, size));
    }
    let valid: u64 = read_u64(capture, 16);
    if valid != 31 {
        return Some(InitialMismatch::new("initial/valid", 16, 31, valid));
    }
    let failure: u64 = read_u64(capture, 24);
    if failure != 0 {
        return Some(InitialMismatch::new("initial/failure", 24, 0, failure));
    }
    let register = first_register_mismatch(capture, registers);
    if register.is_some() {
        return register;
    }
    let flags: u64 = read_u64(capture, CAPTURED_FLAGS);
    let forbidden: u64 = flags & FORBIDDEN_FLAGS;
    if forbidden != 0 {
        return Some(
            InitialMismatch {
                field: "initial/captured-rflags-forbidden-bits",
                index: CAPTURED_FLAGS,
                expected: 0,
                observed: forbidden,
                raw_flags: Some(flags),
            },
        );
    }
    if registers.rflags != flags | RESUME_FLAG {
        return Some(
            InitialMismatch::new(
                "initial/signal-rflags",
                CAPTURED_FLAGS,
                flags | RESUME_FLAG,
                registers.rflags,
            ),
        );
    }
    first_fp_mismatch(capture, fp)
}

// ---------------------------------------------------------------------------
// Extended state
// ---------------------------------------------------------------------------

/// The first byte of `low..high` that is not zero.
pub open spec fn first_nonzero(bytes: Seq<u8>, low: int, high: int) -> Option<int>
    decreases high - low,
{
    if low >= high {
        None
    } else if bytes[low] != 0 {
        Some(low)
    } else {
        first_nonzero(bytes, low + 1, high)
    }
}

/// The first byte of `low..high` in which the image differs from the capture.
pub open spec fn first_unequal(capture: Seq<u8>, fp: Seq<u8>, low: int, high: int) -> Option<int>
    decreases high - low,
{
    if low >= high {
        None
    } else if capture[CAPTURE_HEADER + low] != fp[low] {
        Some(low)
    } else {
        first_unequal(capture, fp, low + 1, high)
    }
}

pub open spec fn byte_mismatch(
    capture: Seq<u8>,
    fp: Seq<u8>,
    index: Option<int>,
) -> Option<InitialMismatch> {
    match index {
        Some(index) => Some(
            mismatch_at(
                "initial/fp-byte",
                index,
                capture[CAPTURE_HEADER + index] as int,
                fp[index] as int,
            ),
        ),
        None => None,
    }
}

pub open spec fn reserved_mismatch(fp: Seq<u8>, index: Option<int>) -> Option<InitialMismatch> {
    match index {
        Some(index) => Some(
            mismatch_at("initial/signal-xsave-reserved-byte", index, 0, fp[index] as int),
        ),
        None => None,
    }
}

pub open spec fn metadata_mismatch(
    fp: Seq<u8>,
    offset: int,
    expected: int,
) -> Option<InitialMismatch> {
    if u32_at(fp, offset) != expected {
        Some(
            mismatch_at("initial/signal-xsave-metadata", offset, expected, u32_at(fp, offset)),
        )
    } else {
        None
    }
}

/// Linux always materializes the legacy components in a signal frame.
pub open spec fn expected_components(captured: u64) -> u64 {
    captured | LEGACY_FEATURES
}

/// The first way in which the extended state is not the captured one.
pub open spec fn fp_mismatch(capture: Seq<u8>, fp: Seq<u8>) -> Option<InitialMismatch> {
    let captured = u64_at(capture, CAPTURE_HEADER + 512) as u64;
    let header = first_nonzero(capture, CAPTURE_HEADER + 520, CAPTURE_HEADER + 576);
    let low = first_nonzero(fp, 484, 512);
    let high = first_nonzero(fp, 520, 576);
    let legacy = first_unequal(capture, fp, 0, 464);
    let extended = first_unequal(capture, fp, 576, XSTATE_SIZE as int);
    if capture.len() < CAPTURE_HEADER + XSTATE_SIZE {
        Some(
            mismatch_at(
                "initial/capture-fp-min-length",
                CAPTURE_HEADER as int,
                CAPTURE_HEADER + XSTATE_SIZE,
                capture.len() as int,
            ),
        )
    } else if fp.len() != FP_SIZE {
        Some(mismatch_at("initial/signal-fp-length", 0, FP_SIZE as int, fp.len() as int))
    } else if u64_at(capture, 216) != XFEATURES {
        Some(mismatch_at("initial/xcr0", 216, XFEATURES as int, u64_at(capture, 216)))
    } else if u64_at(capture, 224) != XSTATE_SIZE {
        Some(mismatch_at("initial/xstate-size", 224, XSTATE_SIZE as int, u64_at(capture, 224)))
    } else if metadata_mismatch(fp, 464, 0x46505853) is Some {
        metadata_mismatch(fp, 464, 0x46505853)
    } else if metadata_mismatch(fp, 468, FP_SIZE as int) is Some {
        metadata_mismatch(fp, 468, FP_SIZE as int)
    } else if metadata_mismatch(fp, 480, XSTATE_SIZE as int) is Some {
        metadata_mismatch(fp, 480, XSTATE_SIZE as int)
    } else if metadata_mismatch(fp, 2440, 0x46505845) is Some {
        metadata_mismatch(fp, 2440, 0x46505845)
    } else if u64_at(fp, 472) != XFEATURES {
        Some(mismatch_at("initial/signal-xfeatures", 472, XFEATURES as int, u64_at(fp, 472)))
    } else if captured & !XFEATURES != 0 {
        Some(
            mismatch_at(
                "initial/captured-xstate-bv-allowed",
                512,
                XFEATURES as int,
                captured as int,
            ),
        )
    } else if header is Some {
        Some(
            mismatch_at(
                "initial/captured-xsave-header-byte",
                header->0 - CAPTURE_HEADER,
                0,
                capture[header->0] as int,
            ),
        )
    } else if low is Some {
        reserved_mismatch(fp, low)
    } else if high is Some {
        reserved_mismatch(fp, high)
    } else if u64_at(fp, 512) != expected_components(captured) {
        Some(
            mismatch_at(
                "initial/signal-xstate-bv",
                512,
                expected_components(captured) as int,
                u64_at(fp, 512),
            ),
        )
    } else if legacy is Some {
        byte_mismatch(capture, fp, legacy)
    } else {
        byte_mismatch(capture, fp, extended)
    }
}

fn find_nonzero(bytes: &[u8], low: usize, high: usize) -> (result: Option<usize>)
    requires
        high <= bytes.len(),
    ensures
        match first_nonzero(bytes@, low as int, high as int) {
            Some(index) => result == Some(index as usize) && low <= index < high,
            None => result is None,
        },
{
    let mut index: usize = low;
    while index < high
        invariant
            low <= index,
            high <= bytes.len(),
            first_nonzero(bytes@, low as int, high as int) == first_nonzero(
                bytes@,
                index as int,
                high as int,
            ),
        decreases high - index,
    {
        if bytes[index] != 0 {
            return Some(index);
        }
        index = index + 1;
    }
    None
}

fn find_unequal(capture: &[u8], fp: &[u8], low: usize, high: usize) -> (result: Option<usize>)
    requires
        high <= fp.len(),
        CAPTURE_HEADER + high <= capture.len(),
    ensures
        match first_unequal(capture@, fp@, low as int, high as int) {
            Some(index) => result == Some(index as usize) && low <= index < high,
            None => result is None,
        },
{
    let mut index: usize = low;
    while index < high
        invariant
            low <= index,
            high <= fp.len(),
            CAPTURE_HEADER + high <= capture.len(),
            first_unequal(capture@, fp@, low as int, high as int) == first_unequal(
                capture@,
                fp@,
                index as int,
                high as int,
            ),
        decreases high - index,
    {
        if capture[CAPTURE_HEADER + index] != fp[index] {
            return Some(index);
        }
        index = index + 1;
    }
    None
}

fn check_metadata(fp: &[u8], offset: usize, expected: u32) -> (result: Option<InitialMismatch>)
    requires
        offset + 4 <= fp.len(),
    ensures
        result == metadata_mismatch(fp@, offset as int, expected as int),
{
    let observed: u32 = read_u32(fp, offset);
    if observed != expected {
        Some(
            InitialMismatch::new(
                "initial/signal-xsave-metadata",
                offset,
                expected as u64,
                observed as u64,
            ),
        )
    } else {
        None
    }
}

fn check_sizes(capture: &[u8], fp: &[u8]) -> (result: Option<InitialMismatch>)
    ensures
        capture.len() >= CAPTURE_HEADER + XSTATE_SIZE && fp.len() == FP_SIZE ==> result is None,
        !(capture.len() >= CAPTURE_HEADER + XSTATE_SIZE && fp.len() == FP_SIZE) ==> result is Some
            && result == fp_mismatch(capture@, fp@),
{
    if capture.len() < CAPTURE_HEADER + XSTATE_SIZE {
        return Some(
            InitialMismatch::new(
                "initial/capture-fp-min-length",
                CAPTURE_HEADER,
                (CAPTURE_HEADER + XSTATE_SIZE) as u64,
                capture.len() as u64,
            ),
        );
    }
    if fp.len() != FP_SIZE {
        return Some(
            InitialMismatch::new("initial/signal-fp-length", 0, FP_SIZE as u64, fp.len() as u64),
        );
    }
    None
}

pub fn first_fp_mismatch(capture: &[u8], fp: &[u8]) -> (result: Option<InitialMismatch>)
    ensures
        result == fp_mismatch(capture@, fp@),
{
    let sizes = check_sizes(capture, fp);
    if sizes.is_some() {
        return sizes;
    }
    let xcr0: u64 = read_u64(capture, 216);
    if xcr0 != XFEATURES {
        return Some(InitialMismatch::new("initial/xcr0", 216, XFEATURES, xcr0));
    }
    let xstate: u64 = read_u64(capture, 224);
    if xstate != XSTATE_SIZE as u64 {
        return Some(InitialMismatch::new("initial/xstate-size", 224, XSTATE_SIZE as u64, xstate));
    }
    let magic = check_metadata(fp, 464, 0x46505853);
    if magic.is_some() {
        return magic;
    }
    let extended_size = check_metadata(fp, 468, FP_SIZE as u32);
    if extended_size.is_some() {
        return extended_size;
    }
    let state_size = check_metadata(fp, 480, XSTATE_SIZE as u32);
    if state_size.is_some() {
        return state_size;
    }
    let trailer = check_metadata(fp, 2440, 0x46505845);
    if trailer.is_some() {
        return trailer;
    }
    let features: u64 = read_u64(fp, 472);
    if features != XFEATURES {
        return Some(InitialMismatch::new("initial/signal-xfeatures", 472, XFEATURES, features));
    }
    let captured: u64 = read_u64(capture, CAPTURE_HEADER + 512);
    if captured & !XFEATURES != 0 {
        return Some(
            InitialMismatch::new("initial/captured-xstate-bv-allowed", 512, XFEATURES, captured),
        );
    }
    if let Some(index) = find_nonzero(capture, CAPTURE_HEADER + 520, CAPTURE_HEADER + 576) {
        return Some(
            InitialMismatch::new(
                "initial/captured-xsave-header-byte",
                index - CAPTURE_HEADER,
                0,
                capture[index] as u64,
            ),
        );
    }
    if let Some(index) = find_nonzero(fp, 484, 512) {
        return Some(
            InitialMismatch::new(
                "initial/signal-xsave-reserved-byte",
                index,
                0,
                fp[index] as u64,
            ),
        );
    }
    if let Some(index) = find_nonzero(fp, 520, 576) {
        return Some(
            InitialMismatch::new(
                "initial/signal-xsave-reserved-byte",
                index,
                0,
                fp[index] as u64,
            ),
        );
    }
    let observed: u64 = read_u64(fp, 512);
    if observed != captured | LEGACY_FEATURES {
        return Some(
            InitialMismatch::new(
                "initial/signal-xstate-bv",
                512,
                captured | LEGACY_FEATURES,
                observed,
            ),
        );
    }
    if let Some(index) = find_unequal(capture, fp, 0, 464) {
        return Some(
            InitialMismatch::new(
                "initial/fp-byte",
                index,
                capture[CAPTURE_HEADER + index] as u64,
                fp[index] as u64,
            ),
        );
    }
    if let Some(index) = find_unequal(capture, fp, 576, XSTATE_SIZE) {
        return Some(
            InitialMismatch::new(
                "initial/fp-byte",
                index,
                capture[CAPTURE_HEADER + index] as u64,
                fp[index] as u64,
            ),
        );
    }
    None
}

pub fn matches_fp(capture: &[u8], fp: &[u8]) -> (result: bool)
    ensures
        result == (fp_mismatch(capture@, fp@) is None),
{
    first_fp_mismatch(capture, fp).is_none()
}

// ---------------------------------------------------------------------------
// The transition
// ---------------------------------------------------------------------------

pub fn initial_mask_matches(retained: Option<u64>, observed: u64) -> (result: bool)
    ensures
        result == (retained == Some(observed)),
{
    match retained {
        Some(mask) => mask == observed,
        None => false,
    }
}

#[derive(Clone, Copy, Debug, PartialEq, Eq, Structural)]
pub enum PrepareError {
    ProviderUnavailable,
    MaskRetained,
    AlreadyRequested,
}

impl PrepareError {
    pub fn text(self) -> (text: &'static str)
        ensures
            text == match self {
                PrepareError::ProviderUnavailable => "private CRT provider unavailable",
                PrepareError::MaskRetained => "initial guest mask already retained",
                PrepareError::AlreadyRequested => "initial Tool transition already requested",
            },
    {
        match self {
            PrepareError::ProviderUnavailable => "private CRT provider unavailable",
            PrepareError::MaskRetained => "initial guest mask already retained",
            PrepareError::AlreadyRequested => "initial Tool transition already requested",
        }
    }
}

/// Whether the one transition was asked for, and the guest mask it was asked with.
#[derive(Clone, Copy, Debug, PartialEq, Eq, Structural)]
pub struct InitialTransition {
    pub requested: bool,
    pub mask: Option<u64>,
}

impl Default for InitialTransition {
    fn default() -> (transition: Self)
        ensures
            transition == (InitialTransition { requested: false, mask: None }),
    {
        InitialTransition { requested: false, mask: None }
    }
}

/// The record that the private startup left.
#[derive(Clone, Copy, Debug)]
pub struct InitialRecord<'a> {
    pub capture: Option<&'a [u8]>,
    pub loader_entry: u64,
    pub fault_site: u64,
}

/// What the first stop of a thread comes to.
#[derive(Clone, Copy, Debug, PartialEq, Eq)]
pub enum InitialCapture {
    /// No transition was asked for.
    NotRequested,
    /// The stop is not the one that was prepared for.
    Refused,
    /// The stop differs from the capture as described.
    Mismatch(InitialMismatch),
    /// The guest starts here.
    Enter(u64),
}

/// The fault that the prepared start takes.
pub open spec fn is_prepared_fault(
    signal: i32,
    instruction_pointer: u64,
    loader_entry: u64,
    fault_site: u64,
) -> bool {
    &&& signal == SIGSEGV
    &&& instruction_pointer == fault_site
    &&& 0 < loader_entry < USER_END
}

pub open spec fn initial_outcome(
    transition: InitialTransition,
    record: Option<InitialRecord<'_>>,
    signal: i32,
    registers: HookContext,
    fp: Seq<u8>,
    guest_mask: u64,
) -> InitialCapture {
    if !transition.requested {
        InitialCapture::NotRequested
    } else if transition.mask != Some(guest_mask) {
        InitialCapture::Refused
    } else {
        match record {
            None => InitialCapture::Refused,
            Some(record) => if record.capture is None || !is_prepared_fault(
                signal,
                registers.instruction_pointer,
                record.loader_entry,
                record.fault_site,
            ) {
                InitialCapture::Refused
            } else {
                match start_mismatch((record.capture->0)@, registers, fp) {
                    Some(mismatch) => InitialCapture::Mismatch(mismatch),
                    None => InitialCapture::Enter(record.loader_entry),
                }
            },
        }
    }
}

impl InitialTransition {
    /// Retains the guest mask and asks for the transition, once each.
    pub fn prepare(&mut self, available: bool, provider: bool, mask: u64) -> (result: Result<
        (),
        PrepareError,
    >)
        ensures
            !(available && provider) ==> result == Err::<(), PrepareError>(
                PrepareError::ProviderUnavailable,
            ) && *final(self) == *old(self),
            available && provider && old(self).mask is Some ==> result == Err::<(), PrepareError>(
                PrepareError::MaskRetained,
            ) && *final(self) == *old(self),
            available && provider && old(self).mask is None ==> final(self).mask == Some(mask)
                && final(self).requested && result == if old(self).requested {
                Err::<(), PrepareError>(PrepareError::AlreadyRequested)
            } else {
                Ok(())
            },
    {
        if !available || !provider {
            return Err(PrepareError::ProviderUnavailable);
        }
        if self.mask.is_some() {
            return Err(PrepareError::MaskRetained);
        }
        self.mask = Some(mask);
        if self.requested {
            return Err(PrepareError::AlreadyRequested);
        }
        self.requested = true;
        Ok(())
    }

    /// Judges the first stop. The request is consumed whatever comes of it.
    pub fn capture(
        &mut self,
        record: Option<InitialRecord<'_>>,
        signal: i32,
        registers: &HookContext,
        fp: &[u8],
        guest_mask: u64,
    ) -> (result: InitialCapture)
        ensures
            result == initial_outcome(*old(self), record, signal, *registers, fp@, guest_mask),
            *final(self) == (InitialTransition { requested: false, ..*old(self) }),
    {
        if !self.requested {
            return InitialCapture::NotRequested;
        }
        self.requested = false;
        if !initial_mask_matches(self.mask, guest_mask) {
            return InitialCapture::Refused;
        }
        let record = match record {
            Some(record) => record,
            None => return InitialCapture::Refused,
        };
        let capture = match record.capture {
            Some(capture) => capture,
            None => return InitialCapture::Refused,
        };
        if signal != SIGSEGV || registers.instruction_pointer != record.fault_site
            || record.loader_entry == 0 || record.loader_entry >= USER_END {
            return InitialCapture::Refused;
        }
        match first_mismatch(capture, registers, fp) {
            Some(mismatch) => InitialCapture::Mismatch(mismatch),
            None => InitialCapture::Enter(record.loader_entry),
        }
    }
}

// ---------------------------------------------------------------------------
// Laws
// ---------------------------------------------------------------------------

proof fn no_register_mismatch(capture: Seq<u8>, registers: HookContext, index: int)
    requires
        0 <= index <= 16,
    ensures
        register_mismatch(capture, registers, index) is None <==> forall|i: int|
            index <= i < 16 ==> #[trigger] record_order(registers)[i] == u64_at(
                capture,
                CAPTURED_GENERAL + 8 * i,
            ),
    decreases 16 - index,
{
    if index < 16 {
        no_register_mismatch(capture, registers, index + 1);
    }
}

/// A stop has a first mismatch exactly when its registers or its extended state do
/// not match the capture.
pub proof fn mismatch_iff_no_match(capture: Seq<u8>, registers: HookContext, fp: Seq<u8>)
    ensures
        start_mismatch(capture, registers, fp) is None <==> registers_agree(capture, registers)
            && fp_mismatch(capture, fp) is None,
{
    no_register_mismatch(capture, registers, 0);
}

proof fn nothing_unequal(capture: Seq<u8>, fp: Seq<u8>, low: int, high: int)
    requires
        first_unequal(capture, fp, low, high) is None,
    ensures
        forall|i: int| low <= i < high ==> #[trigger] fp[i] == capture[CAPTURE_HEADER + i],
    decreases high - low,
{
    if low < high {
        nothing_unequal(capture, fp, low + 1, high);
    }
}

/// Extended state without a mismatch is the captured one byte for byte outside its
/// software words and its header, and its component bits are the captured ones with the
/// legacy ones added.
pub proof fn matching_fp_keeps_every_payload_byte(capture: Seq<u8>, fp: Seq<u8>, index: int)
    requires
        fp_mismatch(capture, fp) is None,
        0 <= index < 464 || 576 <= index < XSTATE_SIZE,
    ensures
        fp.len() == FP_SIZE,
        fp[index] == capture[CAPTURE_HEADER + index],
        u64_at(fp, 512) == expected_components(u64_at(capture, CAPTURE_HEADER + 512) as u64),
{
    nothing_unequal(capture, fp, 0, 464);
    nothing_unequal(capture, fp, 576, XSTATE_SIZE as int);
}

} // verus!

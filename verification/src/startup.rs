//! Checked, non-executing plans for replacing a controlled ELF interpreter.
//!
//! The layout supports ELF64 x86-64, 4 KiB pages, zero-based ET_DYN interpreters
//! and nonoverlapping load pages in the lower 48-bit user range. Other Linux
//! layouts are refused, not declared invalid Linux executables. Zero-fill is
//! supported only in the final, writable non-executable load. No function maps
//! memory, changes auxv or brk, or executes an interpreter. Supplied bytes,
//! addresses and reservations are planning inputs, not authenticated
//! observations of a kernel exec.

pub mod laws;
pub mod original_interpreter;

use std::ops::Range;

use vstd::arithmetic::power2::is_pow2;
use vstd::prelude::*;

use crate::bytes::read_u16;
use crate::bytes::read_u32;
use crate::bytes::read_u64;
use crate::bytes::u16_at;
use crate::bytes::u32_at;
use crate::bytes::u64_at;
use crate::text::decimal;
use crate::text::join;
use crate::text::join_decimal;

verus! {

pub const PAGE: u64 = 4096;

pub const USER_END: u64 = 0x8000_0000_0000;

pub const ELF_HEADER: usize = 64;

pub const PROGRAM_HEADER: usize = 56;

pub const AT_PHDR: u64 = 3;

pub const AT_PHENT: u64 = 4;

pub const AT_PHNUM: u64 = 5;

pub const AT_PAGESZ: u64 = 6;

pub const AT_BASE: u64 = 7;

pub const AT_ENTRY: u64 = 9;

pub const AT_RANDOM: u64 = 25;

pub const AT_EXECFN: u64 = 31;

pub const AT_SYSINFO_EHDR: u64 = 33;

#[derive(Clone, Copy, Debug, PartialEq, Eq)]
pub enum PlanError {
    Truncated(&'static str),
    Invalid(&'static str),
    Unsupported(&'static str),
    Overflow(&'static str),
    Overlap(&'static str),
    MissingAuxv(u64),
    DuplicateAuxv(u64),
}

/// The words that describe an error.
pub open spec fn plan_error_text(error: PlanError) -> Seq<char> {
    match error {
        PlanError::Truncated(field) => "truncated "@ + field@,
        PlanError::Invalid(field) => "invalid "@ + field@,
        PlanError::Unsupported(field) => "unsupported "@ + field@,
        PlanError::Overflow(field) => "overflow in "@ + field@,
        PlanError::Overlap(field) => "overlap with "@ + field@,
        PlanError::MissingAuxv(tag) => "missing auxv tag "@ + decimal(tag as nat),
        PlanError::DuplicateAuxv(tag) => "duplicate auxv tag "@ + decimal(tag as nat),
    }
}

impl PlanError {
    pub fn text(&self) -> (text: String)
        ensures
            text@ == plan_error_text(*self),
    {
        match self {
            PlanError::Truncated(field) => join("truncated ", field),
            PlanError::Invalid(field) => join("invalid ", field),
            PlanError::Unsupported(field) => join("unsupported ", field),
            PlanError::Overflow(field) => join("overflow in ", field),
            PlanError::Overlap(field) => join("overlap with ", field),
            PlanError::MissingAuxv(tag) => join_decimal("missing auxv tag ", *tag),
            PlanError::DuplicateAuxv(tag) => join_decimal("duplicate auxv tag ", *tag),
        }
    }
}

// ---------------------------------------------------------------------------
// Ranges and pages
// ---------------------------------------------------------------------------

/// A nonempty range of user addresses that leaves out the null address.
pub open spec fn is_user_range(range: Range<u64>) -> bool {
    0 < range.start < range.end <= USER_END
}

pub open spec fn range_contains(outer: Range<u64>, inner: Range<u64>) -> bool {
    outer.start <= inner.start && inner.end <= outer.end
}

/// Whether some address could lie in both half-open ranges.
pub open spec fn ranges_overlap(left: Range<u64>, right: Range<u64>) -> bool {
    left.start < right.end && right.start < left.end
}

pub open spec fn within(range: Range<u64>, address: int) -> bool {
    range.start <= address < range.end
}

/// The start of the page that holds `value`.
pub open spec fn floor_page(value: int) -> int {
    value - value % 4096
}

/// The first page start that is not below `value`.
pub open spec fn ceil_page(value: int) -> int {
    floor_page(value + 4095)
}

fn span(start: u64, size: u64, name: &'static str) -> (result: Result<Range<u64>, PlanError>)
    ensures
        start + size <= u64::MAX ==> result == Ok::<Range<u64>, PlanError>(
            (Range { start, end: (start + size) as u64 }),
        ),
        start + size > u64::MAX ==> result == Err::<Range<u64>, PlanError>(
            PlanError::Overflow(name),
        ),
{
    match start.checked_add(size) {
        Some(end) => Ok(Range { start, end }),
        None => Err(PlanError::Overflow(name)),
    }
}

fn user_range(range: &Range<u64>, name: &'static str) -> (result: Result<(), PlanError>)
    ensures
        is_user_range(*range) ==> result == Ok::<(), PlanError>(()),
        !is_user_range(*range) ==> result == Err::<(), PlanError>(PlanError::Invalid(name)),
{
    if range.start == 0 || range.start >= range.end || range.end > USER_END {
        return Err(PlanError::Invalid(name));
    }
    Ok(())
}

fn page_floor(value: u64) -> (page: u64)
    ensures
        page == floor_page(value as int),
        page % PAGE == 0,
        page <= value,
{
    value - value % PAGE
}

fn page_ceil(value: u64) -> (result: Result<u64, PlanError>)
    ensures
        value + 4095 <= u64::MAX ==> result == Ok::<u64, PlanError>(
            ceil_page(value as int) as u64,
        ) && ceil_page(value as int) <= u64::MAX && ceil_page(value as int) % 4096 == 0,
        value + 4095 > u64::MAX ==> result == Err::<u64, PlanError>(
            PlanError::Overflow("page rounding"),
        ),
{
    match value.checked_add(PAGE - 1) {
        Some(sum) => Ok(page_floor(sum)),
        None => Err(PlanError::Overflow("page rounding")),
    }
}

fn contains(outer: &Range<u64>, inner: &Range<u64>) -> (result: bool)
    ensures
        result == range_contains(*outer, *inner),
{
    outer.start <= inner.start && inner.end <= outer.end
}

fn overlaps(left: &Range<u64>, right: &Range<u64>) -> (result: bool)
    ensures
        result == ranges_overlap(*left, *right),
{
    left.start < right.end && right.start < left.end
}

fn power_of_two(value: u64) -> (result: bool)
    ensures
        result == is_pow2(value as int),
{
    proof {
        reveal(is_pow2);
    }
    if value == 0 {
        return false;
    }
    let mut rest: u64 = value;
    while rest % 2 == 0
        invariant
            rest > 0,
            is_pow2(value as int) == is_pow2(rest as int),
        decreases rest,
    {
        proof {
            reveal(is_pow2);
        }
        rest = rest / 2;
    }
    rest == 1
}

// ---------------------------------------------------------------------------
// The auxiliary vector
// ---------------------------------------------------------------------------

/// What an accepted auxiliary vector says.
pub struct AuxvModel {
    pub bytes: Seq<u8>,
    pub stack: Range<u64>,
    pub brk: u64,
    pub base: u64,
    pub program_headers: Range<u64>,
    pub guest_entry: u64,
    pub random: Range<u64>,
    pub execfn: u64,
    pub vdso: u64,
}

pub open spec fn auxv_tag(bytes: Seq<u8>, index: int) -> int {
    u64_at(bytes, 16 * index)
}

pub open spec fn auxv_value(bytes: Seq<u8>, index: int) -> int {
    u64_at(bytes, 16 * index + 8)
}

/// The tags that must occur exactly once.
pub open spec fn is_required(tag: int) -> bool {
    ||| tag == AT_PHDR
    ||| tag == AT_PHENT
    ||| tag == AT_PHNUM
    ||| tag == AT_PAGESZ
    ||| tag == AT_BASE
    ||| tag == AT_ENTRY
    ||| tag == AT_RANDOM
    ||| tag == AT_EXECFN
    ||| tag == AT_SYSINFO_EHDR
}

/// The value of the first of the `count` leading entries that carries `tag`.
pub open spec fn auxv_lookup(bytes: Seq<u8>, count: int, tag: int) -> Option<u64>
    decreases count,
{
    if count <= 0 {
        None
    } else {
        match auxv_lookup(bytes, count - 1, tag) {
            Some(value) => Some(value),
            None => if auxv_tag(bytes, count - 1) == tag {
                Some(auxv_value(bytes, count - 1) as u64)
            } else {
                None
            },
        }
    }
}

/// What is wrong with the entry at `index`, given the entries before it.
pub open spec fn auxv_entry_error(bytes: Seq<u8>, index: int) -> Option<PlanError> {
    let tag = auxv_tag(bytes, index);
    if tag == 0 {
        if auxv_value(bytes, index) != 0 || 16 * (index + 1) != bytes.len() {
            Some(PlanError::Invalid("auxv terminator"))
        } else {
            None
        }
    } else if is_required(tag) && auxv_lookup(bytes, index, tag) is Some {
        Some(PlanError::DuplicateAuxv(tag as u64))
    } else {
        None
    }
}

/// The error of the first faulty entry among the `count` leading ones.
pub open spec fn auxv_scan_error(bytes: Seq<u8>, count: int) -> Option<PlanError>
    decreases count,
{
    if count <= 0 {
        None
    } else {
        match auxv_scan_error(bytes, count - 1) {
            Some(error) => Some(error),
            None => auxv_entry_error(bytes, count - 1),
        }
    }
}

/// The first required tag, in ascending order, that no entry carries.
pub open spec fn auxv_missing(bytes: Seq<u8>) -> Option<u64> {
    let count = bytes.len() as int / 16;
    if auxv_lookup(bytes, count, AT_PHDR as int) is None {
        Some(AT_PHDR)
    } else if auxv_lookup(bytes, count, AT_PHENT as int) is None {
        Some(AT_PHENT)
    } else if auxv_lookup(bytes, count, AT_PHNUM as int) is None {
        Some(AT_PHNUM)
    } else if auxv_lookup(bytes, count, AT_PAGESZ as int) is None {
        Some(AT_PAGESZ)
    } else if auxv_lookup(bytes, count, AT_BASE as int) is None {
        Some(AT_BASE)
    } else if auxv_lookup(bytes, count, AT_ENTRY as int) is None {
        Some(AT_ENTRY)
    } else if auxv_lookup(bytes, count, AT_RANDOM as int) is None {
        Some(AT_RANDOM)
    } else if auxv_lookup(bytes, count, AT_EXECFN as int) is None {
        Some(AT_EXECFN)
    } else if auxv_lookup(bytes, count, AT_SYSINFO_EHDR as int) is None {
        Some(AT_SYSINFO_EHDR)
    } else {
        None
    }
}

/// The value of a tag that some entry carries.
pub open spec fn auxv_known(bytes: Seq<u8>, tag: u64) -> u64 {
    auxv_lookup(bytes, bytes.len() as int / 16, tag as int)->0
}

/// What is wrong with one address that must be a user address.
pub open spec fn user_address_error(address: u64, name: &'static str) -> Option<PlanError> {
    if address == u64::MAX {
        Some(PlanError::Overflow(name))
    } else if !(0 < address < USER_END) {
        Some(PlanError::Invalid(name))
    } else {
        None
    }
}

/// What is wrong with the coordinates that a complete table names.
pub open spec fn auxv_coordinate_error(bytes: Seq<u8>, stack: Range<u64>) -> Option<PlanError> {
    let phdr = auxv_known(bytes, AT_PHDR);
    let size = auxv_known(bytes, AT_PHNUM) * PROGRAM_HEADER;
    let base = auxv_known(bytes, AT_BASE);
    let entry = auxv_known(bytes, AT_ENTRY);
    let vdso = auxv_known(bytes, AT_SYSINFO_EHDR);
    let random = auxv_known(bytes, AT_RANDOM);
    let execfn = auxv_known(bytes, AT_EXECFN);
    if auxv_known(bytes, AT_PHENT) != PROGRAM_HEADER || auxv_known(bytes, AT_PHNUM) == 0 {
        Some(PlanError::Invalid("guest program headers"))
    } else if auxv_known(bytes, AT_PAGESZ) != PAGE {
        Some(PlanError::Unsupported("AT_PAGESZ"))
    } else if size > u64::MAX {
        Some(PlanError::Overflow("AT_PHNUM"))
    } else if phdr + size > u64::MAX {
        Some(PlanError::Overflow("guest program headers"))
    } else if phdr == 0 || phdr + size > USER_END {
        Some(PlanError::Invalid("guest program headers"))
    } else if user_address_error(base, "AT_BASE") is Some {
        user_address_error(base, "AT_BASE")
    } else if user_address_error(entry, "AT_ENTRY") is Some {
        user_address_error(entry, "AT_ENTRY")
    } else if user_address_error(vdso, "vDSO") is Some {
        user_address_error(vdso, "vDSO")
    } else if base % PAGE != 0 || vdso % PAGE != 0 {
        Some(PlanError::Invalid("auxv mapping alignment"))
    } else if random + 16 > u64::MAX {
        Some(PlanError::Overflow("AT_RANDOM"))
    } else if !(stack.start <= random && random + 16 <= stack.end) {
        Some(PlanError::Invalid("stack auxv pointers"))
    } else if execfn + 1 > u64::MAX {
        Some(PlanError::Overflow("AT_EXECFN"))
    } else if !(stack.start <= execfn && execfn + 1 <= stack.end) {
        Some(PlanError::Invalid("stack auxv pointers"))
    } else {
        None
    }
}

/// Why a table with its stack and break is refused, if it is.
pub open spec fn auxv_error(bytes: Seq<u8>, stack: Range<u64>, brk: u64) -> Option<PlanError> {
    if !is_user_range(stack) {
        Some(PlanError::Invalid("initial stack"))
    } else if user_address_error(brk, "initial brk") is Some {
        user_address_error(brk, "initial brk")
    } else if bytes.len() == 0 || bytes.len() % 16 != 0 {
        Some(PlanError::Truncated("auxv"))
    } else if auxv_scan_error(bytes, bytes.len() as int / 16) is Some {
        auxv_scan_error(bytes, bytes.len() as int / 16)
    } else if auxv_tag(bytes, bytes.len() as int / 16 - 1) != 0 {
        Some(PlanError::Truncated("auxv terminator"))
    } else if auxv_missing(bytes) is Some {
        Some(PlanError::MissingAuxv(auxv_missing(bytes)->0))
    } else {
        auxv_coordinate_error(bytes, stack)
    }
}

/// What an accepted table says.
pub open spec fn auxv_model(bytes: Seq<u8>, stack: Range<u64>, brk: u64) -> AuxvModel {
    let phdr = auxv_known(bytes, AT_PHDR);
    let random = auxv_known(bytes, AT_RANDOM);
    AuxvModel {
        bytes,
        stack,
        brk,
        base: auxv_known(bytes, AT_BASE),
        program_headers: (Range {
            start: phdr,
            end: (phdr + auxv_known(bytes, AT_PHNUM) * PROGRAM_HEADER) as u64,
        }),
        guest_entry: auxv_known(bytes, AT_ENTRY),
        random: (Range { start: random, end: (random + 16) as u64 }),
        execfn: auxv_known(bytes, AT_EXECFN),
        vdso: auxv_known(bytes, AT_SYSINFO_EHDR),
    }
}

/// The coordinates that every accepted table has.
pub open spec fn auxv_wf(model: AuxvModel) -> bool {
    &&& is_user_range(model.stack)
    &&& 0 < model.brk < USER_END
    &&& 0 < model.base < USER_END
    &&& model.base % PAGE == 0
    &&& is_user_range(model.program_headers)
    &&& 0 < model.guest_entry < USER_END
    &&& range_contains(model.stack, model.random)
    &&& model.random.end - model.random.start == 16
    &&& within(model.stack, model.execfn as int)
    &&& 0 < model.vdso < USER_END
    &&& model.vdso % PAGE == 0
}

/// An immutable copy of a complete auxv table, including unknown entries.
/// Parsing validates coordinates only; it does not read pointed-to memory or
/// certify kernel provenance, string termination, timer history or ownership.
#[derive(Debug, PartialEq, Eq)]
pub struct AuxvSnapshot {
    bytes: Vec<u8>,
    stack: Range<u64>,
    brk: u64,
    base: u64,
    program_headers: Range<u64>,
    guest_entry: u64,
    random: Range<u64>,
    execfn: u64,
    vdso: u64,
}

impl View for AuxvSnapshot {
    type V = AuxvModel;

    closed spec fn view(&self) -> AuxvModel {
        AuxvModel {
            bytes: self.bytes@,
            stack: self.stack,
            brk: self.brk,
            base: self.base,
            program_headers: self.program_headers,
            guest_entry: self.guest_entry,
            random: self.random,
            execfn: self.execfn,
            vdso: self.vdso,
        }
    }
}

fn copy_bytes(bytes: &[u8]) -> (copy: Vec<u8>)
    ensures
        copy@ == bytes@,
{
    let mut copy: Vec<u8> = Vec::new();
    let mut index: usize = 0;
    while index < bytes.len()
        invariant
            index <= bytes@.len(),
            copy@ == bytes@.take(index as int),
        decreases bytes@.len() - index,
    {
        copy.push(bytes[index]);
        index = index + 1;
        assert(bytes@.take(index as int) =~= bytes@.take(index - 1).push(bytes@[index - 1]));
    }
    assert(bytes@.take(index as int) =~= bytes@);
    copy
}

fn required_tag(tag: u64) -> (result: bool)
    ensures
        result == is_required(tag as int),
{
    tag == AT_PHDR || tag == AT_PHENT || tag == AT_PHNUM || tag == AT_PAGESZ || tag == AT_BASE
        || tag == AT_ENTRY || tag == AT_RANDOM || tag == AT_EXECFN || tag == AT_SYSINFO_EHDR
}

fn find_entry(bytes: &[u8], count: usize, tag: u64) -> (found: Option<u64>)
    requires
        16 * count <= bytes.len(),
    ensures
        found == auxv_lookup(bytes@, count as int, tag as int),
{
    let mut found: Option<u64> = None;
    let mut index: usize = 0;
    while index < count
        invariant
            index <= count,
            16 * count <= bytes.len(),
            found == auxv_lookup(bytes@, index as int, tag as int),
        decreases count - index,
    {
        if found.is_none() && read_u64(bytes, 16 * index) == tag {
            found = Some(read_u64(bytes, 16 * index + 8));
        }
        index = index + 1;
    }
    found
}

fn check_entries(bytes: &[u8]) -> (result: Result<(), PlanError>)
    requires
        bytes@.len() % 16 == 0,
    ensures
        match auxv_scan_error(bytes@, bytes@.len() as int / 16) {
            Some(error) => result == Err::<(), PlanError>(error),
            None => result == Ok::<(), PlanError>(()),
        },
{
    let count: usize = bytes.len() / 16;
    let mut index: usize = 0;
    while index < count
        invariant
            index <= count,
            count == bytes.len() / 16,
            bytes@.len() % 16 == 0,
            auxv_scan_error(bytes@, index as int) is None,
        decreases count - index,
    {
        let tag: u64 = read_u64(bytes, 16 * index);
        let value: u64 = read_u64(bytes, 16 * index + 8);
        if tag == 0 {
            if value != 0 || index + 1 != count {
                proof {
                    auxv_scan_error_is_final(bytes@, index + 1, count as int);
                }
                return Err(PlanError::Invalid("auxv terminator"));
            }
        } else if required_tag(tag) && find_entry(bytes, index, tag).is_some() {
            proof {
                auxv_scan_error_is_final(bytes@, index + 1, count as int);
            }
            return Err(PlanError::DuplicateAuxv(tag));
        }
        index = index + 1;
    }
    Ok(())
}

proof fn auxv_scan_error_is_final(bytes: Seq<u8>, low: int, high: int)
    requires
        low <= high,
        auxv_scan_error(bytes, low) is Some,
    ensures
        auxv_scan_error(bytes, high) == auxv_scan_error(bytes, low),
    decreases high - low,
{
    if low < high {
        auxv_scan_error_is_final(bytes, low, high - 1);
    }
}

fn known_entry(bytes: &[u8], tag: u64) -> (result: Result<u64, PlanError>)
    ensures
        match auxv_lookup(bytes@, bytes@.len() as int / 16, tag as int) {
            Some(value) => result == Ok::<u64, PlanError>(value),
            None => result == Err::<u64, PlanError>(PlanError::MissingAuxv(tag)),
        },
{
    match find_entry(bytes, bytes.len() / 16, tag) {
        Some(value) => Ok(value),
        None => Err(PlanError::MissingAuxv(tag)),
    }
}

fn user_address(address: u64, name: &'static str) -> (result: Result<(), PlanError>)
    ensures
        match user_address_error(address, name) {
            Some(error) => result == Err::<(), PlanError>(error),
            None => result == Ok::<(), PlanError>(()),
        },
{
    let range = span(address, 1, name)?;
    user_range(&range, name)
}

impl AuxvSnapshot {
    #[verifier::type_invariant]
    spec fn coordinates_hold(self) -> bool {
        auxv_wf(self@)
    }

    pub fn parse(bytes: &[u8], stack: Range<u64>, brk: u64) -> (result: Result<Self, PlanError>)
        ensures
            match auxv_error(bytes@, stack, brk) {
                Some(error) => result matches Err(actual) && actual == error,
                None => result matches Ok(snapshot) && snapshot@ == auxv_model(bytes@, stack, brk)
                    && auxv_wf(snapshot@),
            },
    {
        user_range(&stack, "initial stack")?;
        user_address(brk, "initial brk")?;
        if bytes.len() == 0 || bytes.len() % 16 != 0 {
            return Err(PlanError::Truncated("auxv"));
        }
        check_entries(bytes)?;
        if read_u64(bytes, bytes.len() - 16) != 0 {
            return Err(PlanError::Truncated("auxv terminator"));
        }
        let phdr: u64 = known_entry(bytes, AT_PHDR)?;
        let phent: u64 = known_entry(bytes, AT_PHENT)?;
        let phnum: u64 = known_entry(bytes, AT_PHNUM)?;
        let pagesz: u64 = known_entry(bytes, AT_PAGESZ)?;
        let base: u64 = known_entry(bytes, AT_BASE)?;
        let guest_entry: u64 = known_entry(bytes, AT_ENTRY)?;
        let random_start: u64 = known_entry(bytes, AT_RANDOM)?;
        let execfn: u64 = known_entry(bytes, AT_EXECFN)?;
        let vdso: u64 = known_entry(bytes, AT_SYSINFO_EHDR)?;
        if phent != PROGRAM_HEADER as u64 || phnum == 0 {
            return Err(PlanError::Invalid("guest program headers"));
        }
        if pagesz != PAGE {
            return Err(PlanError::Unsupported("AT_PAGESZ"));
        }
        let size: u64 = match phnum.checked_mul(phent) {
            Some(size) => size,
            None => return Err(PlanError::Overflow("AT_PHNUM")),
        };
        let program_headers = span(phdr, size, "guest program headers")?;
        user_range(&program_headers, "guest program headers")?;
        user_address(base, "AT_BASE")?;
        user_address(guest_entry, "AT_ENTRY")?;
        user_address(vdso, "vDSO")?;
        if base % PAGE != 0 || vdso % PAGE != 0 {
            return Err(PlanError::Invalid("auxv mapping alignment"));
        }
        let random = span(random_start, 16, "AT_RANDOM")?;
        if !contains(&stack, &random) {
            return Err(PlanError::Invalid("stack auxv pointers"));
        }
        let name = span(execfn, 1, "AT_EXECFN")?;
        if !contains(&stack, &name) {
            return Err(PlanError::Invalid("stack auxv pointers"));
        }
        Ok(
            AuxvSnapshot {
                bytes: copy_bytes(bytes),
                stack,
                brk,
                base,
                program_headers,
                guest_entry,
                random,
                execfn,
                vdso,
            },
        )
    }

    pub fn bytes(&self) -> (bytes: &[u8])
        ensures
            bytes@ == self@.bytes,
    {
        self.bytes.as_slice()
    }

    pub fn stack(&self) -> (range: &Range<u64>)
        ensures
            *range == self@.stack,
    {
        &self.stack
    }

    pub fn brk(&self) -> (address: u64)
        ensures
            address == self@.brk,
    {
        self.brk
    }

    pub fn base(&self) -> (address: u64)
        ensures
            address == self@.base,
    {
        self.base
    }

    pub fn program_headers(&self) -> (range: &Range<u64>)
        ensures
            *range == self@.program_headers,
    {
        &self.program_headers
    }

    pub fn guest_entry(&self) -> (address: u64)
        ensures
            address == self@.guest_entry,
    {
        self.guest_entry
    }

    pub fn random(&self) -> (range: &Range<u64>)
        ensures
            *range == self@.random,
    {
        &self.random
    }

    pub fn execfn(&self) -> (address: u64)
        ensures
            address == self@.execfn,
    {
        self.execfn
    }

    pub fn vdso(&self) -> (address: u64)
        ensures
            address == self@.vdso,
    {
        self.vdso
    }
}

impl Clone for AuxvSnapshot {
    fn clone(&self) -> (copy: Self)
        ensures
            copy@ == self@,
    {
        proof {
            use_type_invariant(self);
        }
        AuxvSnapshot {
            bytes: copy_bytes(self.bytes.as_slice()),
            stack: copy_range(&self.stack),
            brk: self.brk,
            base: self.base,
            program_headers: copy_range(&self.program_headers),
            guest_entry: self.guest_entry,
            random: copy_range(&self.random),
            execfn: self.execfn,
            vdso: self.vdso,
        }
    }
}

// ---------------------------------------------------------------------------
// The interpreter image
// ---------------------------------------------------------------------------

/// One nonempty PT_LOAD header.
#[derive(Clone, Copy, Debug, PartialEq, Eq)]
pub struct Load {
    pub offset: u64,
    pub address: u64,
    pub file_size: u64,
    pub memory_size: u64,
    pub flags: u32,
}

/// The loads found so far, the end of their pages and their alignment.
pub struct LoadScan {
    pub loads: Seq<Load>,
    pub end: u64,
    pub alignment: u64,
}

/// What an accepted image says.
pub struct ImageModel {
    pub bytes: Seq<u8>,
    pub loads: Seq<Load>,
    pub end: u64,
    pub entry: u64,
    pub alignment: u64,
}

/// Readable, and not both writable and executable.
pub open spec fn load_flags_supported(flags: int) -> bool {
    flags == 4 || flags == 5 || flags == 6
}

/// What is wrong with the `size` file bytes at `start`.
pub open spec fn file_error(
    bytes: Seq<u8>,
    start: int,
    size: int,
    name: &'static str,
) -> Option<PlanError> {
    if start + size > u64::MAX || start + size > usize::MAX {
        Some(PlanError::Overflow(name))
    } else if start + size > bytes.len() {
        Some(PlanError::Truncated(name))
    } else {
        None
    }
}

/// What is wrong with the fixed part of the header.
pub open spec fn elf_header_error(bytes: Seq<u8>) -> Option<PlanError> {
    if bytes.len() < ELF_HEADER {
        Some(PlanError::Truncated("ELF header"))
    } else if !(bytes[0] == 0x7f && bytes[1] == 0x45 && bytes[2] == 0x4c && bytes[3] == 0x46) {
        Some(PlanError::Invalid("ELF magic"))
    } else if !(bytes[4] == 2 && bytes[5] == 1 && bytes[6] == 1 && (bytes[7] == 0 || bytes[7] == 3)
        && bytes[8] == 0 && u16_at(bytes, 16) == 3 && u16_at(bytes, 18) == 62 && u32_at(bytes, 20)
        == 1 && u32_at(bytes, 48) == 0) {
        Some(PlanError::Unsupported("ELF64 x86-64 ET_DYN ABI"))
    } else if u16_at(bytes, 52) != ELF_HEADER || u16_at(bytes, 54) != PROGRAM_HEADER {
        Some(PlanError::Invalid("ELF header sizes"))
    } else if u16_at(bytes, 56) == 0 || u16_at(bytes, 56) == u16::MAX {
        Some(PlanError::Unsupported("ELF program header count"))
    } else if u64_at(bytes, 32) < ELF_HEADER {
        Some(PlanError::Invalid("program header offset"))
    } else {
        file_error(
            bytes,
            u64_at(bytes, 32),
            u16_at(bytes, 56) * PROGRAM_HEADER,
            "program header table",
        )
    }
}

/// What the program header at `at` adds after loads that end at `end`: the new
/// alignment, and the load with the end of its pages unless it is no nonempty load.
pub open spec fn load_outcome(
    bytes: Seq<u8>,
    at: int,
    first: bool,
    end: u64,
    alignment: u64,
) -> Result<(u64, Option<(Load, u64)>), PlanError> {
    let kind = u32_at(bytes, at);
    let flags = u32_at(bytes, at + 4);
    let offset = u64_at(bytes, at + 8);
    let address = u64_at(bytes, at + 16);
    let file_size = u64_at(bytes, at + 32);
    let memory_size = u64_at(bytes, at + 40);
    let align = u64_at(bytes, at + 48);
    let widest = if align > alignment {
        align as u64
    } else {
        alignment
    };
    if kind == 3 {
        Err(PlanError::Unsupported("nested PT_INTERP"))
    } else if kind != 1 {
        Ok((alignment, None))
    } else if !load_flags_supported(flags) {
        Err(PlanError::Unsupported("load permissions"))
    } else if (align > 1 && (!is_pow2(align) || address % align != offset % align)) || address
        % 4096 != offset % 4096 {
        Err(PlanError::Invalid("load alignment"))
    } else if file_size > memory_size {
        Err(PlanError::Invalid("load file size exceeds memory size"))
    } else if file_error(bytes, offset, file_size, "load file") is Some {
        Err(file_error(bytes, offset, file_size, "load file")->0)
    } else if address + memory_size > u64::MAX {
        Err(PlanError::Overflow("load memory"))
    } else if memory_size == 0 {
        Ok((widest, None))
    } else if address + memory_size + 4095 > u64::MAX {
        Err(PlanError::Overflow("page rounding"))
    } else if first && (address != 0 || offset != 0) {
        Err(PlanError::Unsupported("nonzero first load base"))
    } else if floor_page(address) < end {
        Err(PlanError::Unsupported("overlapping or unordered load pages"))
    } else {
        let load = Load {
            offset: offset as u64,
            address: address as u64,
            file_size: file_size as u64,
            memory_size: memory_size as u64,
            flags: flags as u32,
        };
        Ok((widest, Some((load, ceil_page(address + memory_size) as u64))))
    }
}

/// The loads among the `count` leading program headers of the table at `table`.
pub open spec fn load_scan(bytes: Seq<u8>, table: int, count: int) -> Result<LoadScan, PlanError>
    decreases count,
{
    if count <= 0 {
        Ok(LoadScan { loads: Seq::empty(), end: 0, alignment: PAGE })
    } else {
        match load_scan(bytes, table, count - 1) {
            Err(error) => Err(error),
            Ok(scan) => match load_outcome(
                bytes,
                table + (count - 1) * PROGRAM_HEADER,
                scan.loads.len() == 0,
                scan.end,
                scan.alignment,
            ) {
                Err(error) => Err(error),
                Ok((alignment, None)) => Ok(
                    LoadScan { loads: scan.loads, end: scan.end, alignment },
                ),
                Ok((alignment, Some((load, end)))) => Ok(
                    LoadScan { loads: scan.loads.push(load), end, alignment },
                ),
            },
        }
    }
}

/// Bytes past the file part outside the final writable load.
pub open spec fn misplaced_bss(loads: Seq<Load>, index: int) -> bool {
    loads[index].file_size < loads[index].memory_size && (index + 1 != loads.len()
        || loads[index].flags != 6)
}

/// Whether `entry` is a file-backed byte of an executable load.
pub open spec fn holds_entry(load: Load, entry: int) -> bool {
    load.flags == 5 && load.address <= entry < load.address + load.file_size
}

/// Why an image is refused, if it is.
pub open spec fn image_error(bytes: Seq<u8>) -> Option<PlanError> {
    let table = u64_at(bytes, 32);
    let count = u16_at(bytes, 56);
    if elf_header_error(bytes) is Some {
        elf_header_error(bytes)
    } else {
        match load_scan(bytes, table, count) {
            Err(error) => Some(error),
            Ok(scan) => if scan.loads.len() == 0 || scan.loads[0].file_size < table + count
                * PROGRAM_HEADER {
                Some(PlanError::Unsupported("unmapped interpreter headers"))
            } else if exists|i: int|
                0 <= i < scan.loads.len() && #[trigger] misplaced_bss(scan.loads, i) {
                Some(PlanError::Unsupported("BSS outside final writable load"))
            } else if !exists|i: int|
                0 <= i < scan.loads.len() && #[trigger] holds_entry(
                    scan.loads[i],
                    u64_at(bytes, 24),
                ) {
                Some(PlanError::Invalid("entry outside file-backed executable load"))
            } else {
                None
            },
        }
    }
}

/// What an accepted image says.
pub open spec fn image_model(bytes: Seq<u8>) -> ImageModel {
    let scan = load_scan(bytes, u64_at(bytes, 32), u16_at(bytes, 56))->Ok_0;
    ImageModel {
        bytes,
        loads: scan.loads,
        end: scan.end,
        entry: u64_at(bytes, 24) as u64,
        alignment: scan.alignment,
    }
}

pub open spec fn load_end(load: Load) -> int {
    ceil_page(load.address + load.memory_size)
}

/// One load in itself.
pub open spec fn load_wf(load: Load) -> bool {
    &&& load.file_size <= load.memory_size
    &&& 0 < load.memory_size
    &&& load.address + load.memory_size + 4095 <= u64::MAX
    &&& load.address % PAGE == load.offset % PAGE
    &&& load_flags_supported(load.flags as int)
}

/// The loads of a scan: ascending, with disjoint pages that stop at `end`.
pub open spec fn loads_wf(loads: Seq<Load>, end: u64) -> bool {
    &&& forall|i: int| 0 <= i < loads.len() ==> load_wf(#[trigger] loads[i])
    &&& forall|i: int|
        0 <= i < loads.len() ==> load_end(#[trigger] loads[i]) <= end
    &&& forall|i: int, j: int|
        0 <= i < j < loads.len() ==> load_end(#[trigger] loads[i]) <= floor_page(
            (#[trigger] loads[j]).address as int,
        )
    &&& loads.len() > 0 ==> loads[0].address == 0 && loads[0].offset == 0 && load_end(loads.last())
        == end
}

/// The shape that every accepted image has.
pub open spec fn image_wf(image: ImageModel) -> bool {
    &&& loads_wf(image.loads, image.end)
    &&& image.loads.len() > 0
    &&& forall|i: int|
        0 <= i < image.loads.len() && (#[trigger] image.loads[i]).file_size
            < image.loads[i].memory_size ==> i == image.loads.len() - 1 && image.loads[i].flags == 6
    &&& exists|i: int|
        0 <= i < image.loads.len() && holds_entry(
            #[trigger] image.loads[i],
            image.entry as int,
        )
    &&& PAGE <= image.alignment
}

/// A checked interpreter layout, not a relocation or instruction-semantics audit.
/// The bytes remain borrowed.
#[derive(Debug)]
pub struct InterpreterImage<'a> {
    bytes: &'a [u8],
    loads: Vec<Load>,
    end: u64,
    entry: u64,
    alignment: u64,
}

impl<'a> View for InterpreterImage<'a> {
    type V = ImageModel;

    closed spec fn view(&self) -> ImageModel {
        ImageModel {
            bytes: self.bytes@,
            loads: self.loads@,
            end: self.end,
            entry: self.entry,
            alignment: self.alignment,
        }
    }
}

fn file_range(bytes: &[u8], start: u64, size: u64, name: &'static str) -> (result: Result<
    u64,
    PlanError,
>)
    ensures
        match file_error(bytes@, start as int, size as int, name) {
            Some(error) => result == Err::<u64, PlanError>(error),
            None => result == Ok::<u64, PlanError>((start + size) as u64) && start + size
                <= bytes.len(),
        },
{
    let range = span(start, size, name)?;
    if range.end > usize::MAX as u64 {
        return Err(PlanError::Overflow(name));
    }
    if range.end > bytes.len() as u64 {
        return Err(PlanError::Truncated(name));
    }
    Ok(range.end)
}

fn check_elf_header(bytes: &[u8]) -> (result: Result<u64, PlanError>)
    ensures
        match elf_header_error(bytes@) {
            Some(error) => result == Err::<u64, PlanError>(error),
            None => result matches Ok(table_end) && table_end == u64_at(bytes@, 32) + u16_at(
                bytes@,
                56,
            ) * PROGRAM_HEADER && table_end <= bytes.len(),
        },
{
    if bytes.len() < ELF_HEADER {
        return Err(PlanError::Truncated("ELF header"));
    }
    if !(bytes[0] == 0x7f && bytes[1] == 0x45 && bytes[2] == 0x4c && bytes[3] == 0x46) {
        return Err(PlanError::Invalid("ELF magic"));
    }
    if !(bytes[4] == 2 && bytes[5] == 1 && bytes[6] == 1 && (bytes[7] == 0 || bytes[7] == 3)
        && bytes[8] == 0 && read_u16(bytes, 16) == 3 && read_u16(bytes, 18) == 62 && read_u32(
        bytes,
        20,
    ) == 1 && read_u32(bytes, 48) == 0) {
        return Err(PlanError::Unsupported("ELF64 x86-64 ET_DYN ABI"));
    }
    if read_u16(bytes, 52) as usize != ELF_HEADER || read_u16(bytes, 54) as usize
        != PROGRAM_HEADER {
        return Err(PlanError::Invalid("ELF header sizes"));
    }
    let count: u16 = read_u16(bytes, 56);
    if count == 0 || count == u16::MAX {
        return Err(PlanError::Unsupported("ELF program header count"));
    }
    let offset: u64 = read_u64(bytes, 32);
    if offset < ELF_HEADER as u64 {
        return Err(PlanError::Invalid("program header offset"));
    }
    file_range(bytes, offset, count as u64 * PROGRAM_HEADER as u64, "program header table")
}

fn check_load(bytes: &[u8], at: usize, first: bool, end: u64, alignment: u64) -> (result: Result<
    (u64, Option<(Load, u64)>),
    PlanError,
>)
    requires
        at + PROGRAM_HEADER <= bytes.len(),
    ensures
        result == load_outcome(bytes@, at as int, first, end, alignment),
{
    let kind: u32 = read_u32(bytes, at);
    if kind == 3 {
        return Err(PlanError::Unsupported("nested PT_INTERP"));
    }
    if kind != 1 {
        return Ok((alignment, None));
    }
    let flags: u32 = read_u32(bytes, at + 4);
    let offset: u64 = read_u64(bytes, at + 8);
    let address: u64 = read_u64(bytes, at + 16);
    let file_size: u64 = read_u64(bytes, at + 32);
    let memory_size: u64 = read_u64(bytes, at + 40);
    let align: u64 = read_u64(bytes, at + 48);
    if !(flags == 4 || flags == 5 || flags == 6) {
        return Err(PlanError::Unsupported("load permissions"));
    }
    if (align > 1 && (!power_of_two(align) || address % align != offset % align)) || address % PAGE
        != offset % PAGE {
        return Err(PlanError::Invalid("load alignment"));
    }
    let widest: u64 = if align > alignment {
        align
    } else {
        alignment
    };
    if file_size > memory_size {
        return Err(PlanError::Invalid("load file size exceeds memory size"));
    }
    file_range(bytes, offset, file_size, "load file")?;
    let memory = span(address, memory_size, "load memory")?;
    if memory_size == 0 {
        return Ok((widest, None));
    }
    let pages_end: u64 = page_ceil(memory.end)?;
    if first && (address != 0 || offset != 0) {
        return Err(PlanError::Unsupported("nonzero first load base"));
    }
    if page_floor(address) < end {
        return Err(PlanError::Unsupported("overlapping or unordered load pages"));
    }
    Ok((widest, Some((Load { offset, address, file_size, memory_size, flags }, pages_end))))
}

proof fn load_scan_error_is_final(bytes: Seq<u8>, table: int, low: int, high: int)
    requires
        low <= high,
        load_scan(bytes, table, low) is Err,
    ensures
        load_scan(bytes, table, high) == load_scan(bytes, table, low),
    decreases high - low,
{
    if low < high {
        load_scan_error_is_final(bytes, table, low, high - 1);
    }
}

impl<'a> InterpreterImage<'a> {
    #[verifier::type_invariant]
    spec fn layout_holds(self) -> bool {
        image_wf(self@)
    }

    pub fn parse(bytes: &'a [u8]) -> (result: Result<Self, PlanError>)
        ensures
            match image_error(bytes@) {
                Some(error) => result matches Err(actual) && actual == error,
                None => result matches Ok(image) && image@ == image_model(bytes@) && image_wf(
                    image@,
                ),
            },
    {
        let table_end: u64 = check_elf_header(bytes)?;
        let count: usize = read_u16(bytes, 56) as usize;
        let table: usize = read_u64(bytes, 32) as usize;
        let entry: u64 = read_u64(bytes, 24);
        let mut loads: Vec<Load> = Vec::new();
        let mut end: u64 = 0;
        let mut alignment: u64 = PAGE;
        let mut index: usize = 0;
        while index < count
            invariant
                index <= count,
                count == u16_at(bytes@, 56),
                table == u64_at(bytes@, 32),
                elf_header_error(bytes@) is None,
                table + count * PROGRAM_HEADER <= bytes.len(),
                load_scan(bytes@, table as int, index as int) == Ok::<LoadScan, PlanError>(
                    (LoadScan { loads: loads@, end, alignment }),
                ),
                loads_wf(loads@, end),
                loads.len() <= index,
                PAGE <= alignment,
            decreases count - index,
        {
            let at: usize = table + index * PROGRAM_HEADER;
            let step = check_load(bytes, at, loads.len() == 0, end, alignment);
            match step {
                Err(error) => {
                    proof {
                        load_scan_error_is_final(
                            bytes@,
                            table as int,
                            index + 1,
                            count as int,
                        );
                    }
                    return Err(error);
                },
                Ok((widest, None)) => {
                    alignment = widest;
                },
                Ok((widest, Some((load, pages_end)))) => {
                    let ghost before = loads@;
                    alignment = widest;
                    loads.push(load);
                    proof {
                        assert(load_end(load) == pages_end);
                        assert(load_wf(load));
                        assert forall|i: int| 0 <= i < before.len() implies load_end(
                            #[trigger] loads@[i],
                        ) <= floor_page(load.address as int) by {
                            assert(load_end(before[i]) <= end);
                        }
                    }
                    end = pages_end;
                },
            }
            index = index + 1;
        }
        if loads.len() == 0 || loads[0].file_size < table_end {
            return Err(PlanError::Unsupported("unmapped interpreter headers"));
        }
        index = 0;
        while index < loads.len()
            invariant
                index <= loads.len(),
                elf_header_error(bytes@) is None,
                loads.len() > 0,
                loads[0].file_size >= table_end,
                table_end == u64_at(bytes@, 32) + u16_at(bytes@, 56) * PROGRAM_HEADER,
                load_scan(bytes@, u64_at(bytes@, 32), u16_at(bytes@, 56)) == Ok::<
                    LoadScan,
                    PlanError,
                >((LoadScan { loads: loads@, end, alignment })),
                forall|i: int| 0 <= i < index ==> !#[trigger] misplaced_bss(loads@, i),
            decreases loads.len() - index,
        {
            let load = loads[index];
            if load.file_size < load.memory_size && (index + 1 != loads.len() || load.flags != 6) {
                assert(misplaced_bss(loads@, index as int));
                return Err(PlanError::Unsupported("BSS outside final writable load"));
            }
            index = index + 1;
        }
        index = 0;
        let mut found: bool = false;
        while index < loads.len()
            invariant
                index <= loads.len(),
                found == exists|i: int|
                    0 <= i < index && #[trigger] holds_entry(loads@[i], entry as int),
            decreases loads.len() - index,
        {
            let load = loads[index];
            if load.flags == 5 && entry >= load.address && entry - load.address < load.file_size {
                assert(holds_entry(loads@[index as int], entry as int));
                found = true;
            }
            index = index + 1;
        }
        if !found {
            return Err(PlanError::Invalid("entry outside file-backed executable load"));
        }
        proof {
            assert forall|i: int|
                0 <= i < loads@.len() && (#[trigger] loads@[i]).file_size
                    < loads@[i].memory_size implies i == loads@.len() - 1 && loads@[i].flags
                == 6 by {
                assert(!misplaced_bss(loads@, i));
            }
        }
        Ok(InterpreterImage { bytes, loads, end, entry, alignment })
    }

    pub fn required_span(&self) -> (span: u64)
        ensures
            span == self@.end,
    {
        self.end
    }

    pub fn required_alignment(&self) -> (alignment: u64)
        ensures
            alignment == self@.alignment,
    {
        self.alignment
    }
}

// ---------------------------------------------------------------------------
// The plan
// ---------------------------------------------------------------------------

/// Coordinates only. A file mapping's final partial page may extend past the end
/// of the file; its first page retains the file prefix even when the file size is
/// zero but the address is unaligned. Mapping must be private, never modify the
/// original file. `zero_fill` starts at the end of the file bytes, not at a page
/// boundary, and runs to the end of the final zero-filled page. Full zero-filled
/// pages are anonymous.
#[derive(Debug, PartialEq, Eq)]
pub struct LoadMapping {
    pub pages: Range<u64>,
    pub memory: Range<u64>,
    pub file_pages: Option<(u64, Range<u64>)>,
    pub anonymous_pages: Range<u64>,
    pub zero_fill: Range<u64>,
    pub flags: u32,
}

impl LoadMapping {
    pub fn pages(&self) -> (range: &Range<u64>)
        ensures
            *range == self.pages,
    {
        &self.pages
    }

    pub fn memory(&self) -> (range: &Range<u64>)
        ensures
            *range == self.memory,
    {
        &self.memory
    }

    pub fn file_pages(&self) -> (mapping: Option<&(u64, Range<u64>)>)
        ensures
            match mapping {
                Some(mapping) => self.file_pages == Some(*mapping),
                None => self.file_pages is None,
            },
    {
        self.file_pages.as_ref()
    }

    pub fn anonymous_pages(&self) -> (range: &Range<u64>)
        ensures
            *range == self.anonymous_pages,
    {
        &self.anonymous_pages
    }

    pub fn zero_fill(&self) -> (range: &Range<u64>)
        ensures
            *range == self.zero_fill,
    {
        &self.zero_fill
    }

    pub fn flags(&self) -> (flags: u32)
        ensures
            flags == self.flags,
    {
        self.flags
    }
}

fn copy_range(range: &Range<u64>) -> (copy: Range<u64>)
    ensures
        copy == *range,
{
    Range { start: range.start, end: range.end }
}

impl Clone for LoadMapping {
    fn clone(&self) -> (copy: Self)
        ensures
            copy == *self,
    {
        LoadMapping {
            pages: copy_range(&self.pages),
            memory: copy_range(&self.memory),
            file_pages: match &self.file_pages {
                Some((offset, range)) => Some((*offset, copy_range(range))),
                None => None,
            },
            anonymous_pages: copy_range(&self.anonymous_pages),
            zero_fill: copy_range(&self.zero_fill),
            flags: self.flags,
        }
    }
}

pub open spec fn range_of(start: int, end: int) -> Range<u64> {
    Range { start: start as u64, end: end as u64 }
}

/// Where a load lies when the image starts at `base`.
pub open spec fn segment(load: Load, base: u64) -> LoadMapping {
    let start = base + load.address;
    let pages_end = ceil_page(start + load.memory_size);
    let data_end = start + load.file_size;
    let from_file = load.file_size != 0 || start != floor_page(start);
    LoadMapping {
        pages: range_of(floor_page(start), pages_end),
        memory: range_of(start, start + load.memory_size),
        file_pages: if from_file {
            Some(
                (
                    floor_page(load.offset as int) as u64,
                    range_of(floor_page(start), ceil_page(data_end)),
                ),
            )
        } else {
            None
        },
        anonymous_pages: range_of(
            if from_file {
                ceil_page(data_end)
            } else {
                floor_page(start)
            },
            pages_end,
        ),
        zero_fill: range_of(
            data_end,
            if load.file_size < load.memory_size {
                pages_end
            } else {
                data_end
            },
        ),
        flags: load.flags,
    }
}

pub open spec fn segments_of(loads: Seq<Load>, base: u64) -> Seq<LoadMapping> {
    Seq::new(loads.len(), |i: int| segment(loads[i], base))
}

/// The end of the pages of the `count` leading loads.
pub open spec fn pages_until(loads: Seq<Load>, base: u64, count: int) -> u64 {
    if count <= 0 {
        base
    } else {
        segment(loads[count - 1], base).pages.end
    }
}

/// The ranges between the pages of the `count` leading loads.
pub open spec fn gaps_between(loads: Seq<Load>, base: u64, count: int) -> Seq<Range<u64>>
    decreases count,
{
    if count <= 0 {
        Seq::empty()
    } else {
        let gap = Range {
            start: pages_until(loads, base, count - 1),
            end: segment(loads[count - 1], base).pages.start,
        };
        if gap.start < gap.end {
            gaps_between(loads, base, count - 1).push(gap)
        } else {
            gaps_between(loads, base, count - 1)
        }
    }
}

/// The ranges of the reservation that no load covers.
pub open spec fn gaps_of(loads: Seq<Load>, base: u64, reservation: Range<u64>) -> Seq<Range<u64>> {
    let between = gaps_between(loads, base, loads.len() as int);
    let tail = Range {
        start: pages_until(loads, base, loads.len() as int),
        end: reservation.end,
    };
    if tail.start < tail.end {
        between.push(tail)
    } else {
        between
    }
}

/// The complaint about the first faulty one of the `count` leading mappings.
pub open spec fn mapping_error(
    reservation: Range<u64>,
    mappings: Seq<Range<u64>>,
    count: int,
) -> Option<PlanError>
    decreases count,
{
    if count <= 0 {
        None
    } else {
        match mapping_error(reservation, mappings, count - 1) {
            Some(error) => Some(error),
            None => if !is_user_range(mappings[count - 1]) {
                Some(PlanError::Invalid("other mapping"))
            } else if ranges_overlap(reservation, mappings[count - 1]) {
                Some(PlanError::Overlap("other mapping"))
            } else {
                None
            },
        }
    }
}

/// Why an image cannot be planned into a reservation, if it cannot.
pub open spec fn plan_error(
    image: ImageModel,
    initial: AuxvModel,
    reservation: Range<u64>,
    mappings: Seq<Range<u64>>,
) -> Option<PlanError> {
    if !is_user_range(reservation) {
        Some(PlanError::Invalid("interpreter reservation"))
    } else if reservation.start != initial.base || reservation.start % image.alignment != 0
        || reservation.end % PAGE != 0 {
        Some(PlanError::Invalid("AT_BASE reservation alignment"))
    } else if initial.base + image.end > u64::MAX {
        Some(PlanError::Overflow("interpreter mapping"))
    } else if initial.base + image.end > reservation.end {
        Some(PlanError::Invalid("interpreter reservation too small"))
    } else if ranges_overlap(reservation, initial.stack) {
        Some(PlanError::Overlap("initial stack"))
    } else if ranges_overlap(reservation, initial.program_headers) {
        Some(PlanError::Overlap("guest program headers"))
    } else if within(reservation, initial.guest_entry as int) {
        Some(PlanError::Overlap("guest entry"))
    } else if within(reservation, initial.brk as int) {
        Some(PlanError::Overlap("initial brk"))
    } else if ranges_overlap(reservation, range_of(initial.vdso as int, initial.vdso + PAGE)) {
        Some(PlanError::Overlap("vDSO"))
    } else {
        mapping_error(reservation, mappings, mappings.len() as int)
    }
}

/// What a plan says.
pub struct PlanModel {
    pub image: Seq<u8>,
    pub initial: AuxvModel,
    pub reservation: Range<u64>,
    pub segments: Seq<LoadMapping>,
    pub gaps: Seq<Range<u64>>,
    pub entry: u64,
}

pub open spec fn plan_model(
    image: ImageModel,
    initial: AuxvModel,
    reservation: Range<u64>,
) -> PlanModel {
    PlanModel {
        image: image.bytes,
        initial,
        reservation,
        segments: segments_of(image.loads, initial.base),
        gaps: gaps_of(image.loads, initial.base, reservation),
        entry: (initial.base + image.entry) as u64,
    }
}

#[derive(Debug)]
pub struct InterpreterPlan<'a> {
    image: &'a [u8],
    initial: AuxvSnapshot,
    reservation: Range<u64>,
    segments: Vec<LoadMapping>,
    gaps: Vec<Range<u64>>,
    entry: u64,
}

impl<'a> View for InterpreterPlan<'a> {
    type V = PlanModel;

    closed spec fn view(&self) -> PlanModel {
        PlanModel {
            image: self.image@,
            initial: self.initial@,
            reservation: self.reservation,
            segments: self.segments@,
            gaps: self.gaps@,
            entry: self.entry,
        }
    }
}

impl<'a> InterpreterPlan<'a> {
    pub fn image(&self) -> (bytes: &'a [u8])
        ensures
            bytes@ == self@.image,
    {
        self.image
    }

    pub fn initial(&self) -> (initial: &AuxvSnapshot)
        ensures
            initial@ == self@.initial,
    {
        &self.initial
    }

    pub fn reservation(&self) -> (range: &Range<u64>)
        ensures
            *range == self@.reservation,
    {
        &self.reservation
    }

    pub fn segments(&self) -> (segments: &[LoadMapping])
        ensures
            segments@ == self@.segments,
    {
        self.segments.as_slice()
    }

    pub fn gaps(&self) -> (gaps: &[Range<u64>])
        ensures
            gaps@ == self@.gaps,
    {
        self.gaps.as_slice()
    }

    pub fn interpreter_entry(&self) -> (address: u64)
        ensures
            address == self@.entry,
    {
        self.entry
    }
}

fn check_mappings(reservation: &Range<u64>, mappings: &[Range<u64>]) -> (result: Result<
    (),
    PlanError,
>)
    ensures
        match mapping_error(*reservation, mappings@, mappings@.len() as int) {
            Some(error) => result == Err::<(), PlanError>(error),
            None => result == Ok::<(), PlanError>(()),
        },
{
    let mut index: usize = 0;
    while index < mappings.len()
        invariant
            index <= mappings.len(),
            mapping_error(*reservation, mappings@, index as int) is None,
        decreases mappings.len() - index,
    {
        let range = &mappings[index];
        if range.start == 0 || range.start >= range.end || range.end > USER_END {
            proof {
                mapping_error_is_final(
                    *reservation,
                    mappings@,
                    index + 1,
                    mappings@.len() as int,
                );
            }
            return Err(PlanError::Invalid("other mapping"));
        }
        if overlaps(reservation, range) {
            proof {
                mapping_error_is_final(
                    *reservation,
                    mappings@,
                    index + 1,
                    mappings@.len() as int,
                );
            }
            return Err(PlanError::Overlap("other mapping"));
        }
        index = index + 1;
    }
    Ok(())
}

proof fn mapping_error_is_final(
    reservation: Range<u64>,
    mappings: Seq<Range<u64>>,
    low: int,
    high: int,
)
    requires
        low <= high,
        mapping_error(reservation, mappings, low) is Some,
    ensures
        mapping_error(reservation, mappings, high) == mapping_error(reservation, mappings, low),
    decreases high - low,
{
    if low < high {
        mapping_error_is_final(reservation, mappings, low, high - 1);
    }
}

/// A load of a fitting image stays inside the image when it is moved to `base`.
proof fn load_fits(loads: Seq<Load>, end: u64, base: u64, index: int)
    requires
        loads_wf(loads, end),
        base % PAGE == 0,
        base + end <= USER_END,
        0 <= index < loads.len(),
    ensures
        ({
            let load = loads[index];
            let start = base + load.address;
            &&& start + load.memory_size + 4095 <= u64::MAX
            &&& ceil_page(start + load.memory_size) == base + load_end(load)
            &&& ceil_page(start + load.memory_size) <= base + end
            &&& floor_page(start) == base + floor_page(load.address as int)
            &&& floor_page(start) < ceil_page(start + load.memory_size)
            &&& ceil_page(start + load.file_size) <= ceil_page(start + load.memory_size)
            &&& floor_page(start) <= ceil_page(start + load.file_size)
        }),
{
    let load = loads[index];
    assert(load_wf(load));
    assert(load_end(load) <= end);
}

fn plan_segment(load: Load, base: u64) -> (mapping: LoadMapping)
    requires
        base + load.address + load.memory_size + 4095 <= u64::MAX,
        load.file_size <= load.memory_size,
    ensures
        mapping == segment(load, base),
{
    let start: u64 = base + load.address;
    let memory_end: u64 = start + load.memory_size;
    let pages_start: u64 = page_floor(start);
    let pages_end: u64 = page_floor(memory_end + (PAGE - 1));
    let data_end: u64 = start + load.file_size;
    let data_pages_end: u64 = page_floor(data_end + (PAGE - 1));
    let from_file: bool = load.file_size != 0 || start != pages_start;
    let file_pages = if from_file {
        Some((page_floor(load.offset), Range { start: pages_start, end: data_pages_end }))
    } else {
        None
    };
    LoadMapping {
        pages: (Range { start: pages_start, end: pages_end }),
        memory: (Range { start, end: memory_end }),
        file_pages,
        anonymous_pages: (Range {
            start: if from_file {
                data_pages_end
            } else {
                pages_start
            },
            end: pages_end,
        }),
        zero_fill: (Range {
            start: data_end,
            end: if load.file_size < load.memory_size {
                pages_end
            } else {
                data_end
            },
        }),
        flags: load.flags,
    }
}

impl<'a> InterpreterImage<'a> {
    /// Plans at the unchanged AT_BASE, refusing overlap with the original stack,
    /// main PHDR and ENTRY, brk, vDSO base page and all supplied other mappings.
    /// The caller must supply the complete inventory of other mappings and own
    /// `reservation`; success proves neither.
    pub fn plan_at_original_base(
        &self,
        initial: &AuxvSnapshot,
        reservation: Range<u64>,
        other_mappings: &[Range<u64>],
    ) -> (result: Result<InterpreterPlan<'a>, PlanError>)
        ensures
            match plan_error(self@, initial@, reservation, other_mappings@) {
                Some(error) => result matches Err(actual) && actual == error,
                None => result matches Ok(plan) && plan@ == plan_model(
                    self@,
                    initial@,
                    reservation,
                ),
            },
    {
        proof {
            use_type_invariant(self);
            use_type_invariant(initial);
        }
        user_range(&reservation, "interpreter reservation")?;
        let base: u64 = initial.base;
        if reservation.start != base || reservation.start % self.alignment != 0 || reservation.end
            % PAGE != 0 {
            return Err(PlanError::Invalid("AT_BASE reservation alignment"));
        }
        let required = span(base, self.end, "interpreter mapping")?;
        if !contains(&reservation, &required) {
            return Err(PlanError::Invalid("interpreter reservation too small"));
        }
        if overlaps(&reservation, &initial.stack) {
            return Err(PlanError::Overlap("initial stack"));
        }
        if overlaps(&reservation, &initial.program_headers) {
            return Err(PlanError::Overlap("guest program headers"));
        }
        let entry = Range { start: initial.guest_entry, end: initial.guest_entry + 1 };
        if overlaps(&reservation, &entry) {
            return Err(PlanError::Overlap("guest entry"));
        }
        let brk = Range { start: initial.brk, end: initial.brk + 1 };
        if overlaps(&reservation, &brk) {
            return Err(PlanError::Overlap("initial brk"));
        }
        let vdso = Range { start: initial.vdso, end: initial.vdso + PAGE };
        if overlaps(&reservation, &vdso) {
            return Err(PlanError::Overlap("vDSO"));
        }
        check_mappings(&reservation, other_mappings)?;
        let mut segments: Vec<LoadMapping> = Vec::new();
        let mut gaps: Vec<Range<u64>> = Vec::new();
        let mut cursor: u64 = base;
        let mut index: usize = 0;
        while index < self.loads.len()
            invariant
                index <= self.loads.len(),
                loads_wf(self.loads@, self.end),
                base % PAGE == 0,
                base + self.end <= USER_END,
                segments@ == segments_of(self.loads@, base).take(index as int),
                gaps@ == gaps_between(self.loads@, base, index as int),
                cursor == pages_until(self.loads@, base, index as int),
            decreases self.loads.len() - index,
        {
            proof {
                load_fits(self.loads@, self.end, base, index as int);
            }
            let mapping = plan_segment(self.loads[index], base);
            if cursor < mapping.pages.start {
                gaps.push(Range { start: cursor, end: mapping.pages.start });
            }
            cursor = mapping.pages.end;
            segments.push(mapping);
            index = index + 1;
            proof {
                let all = segments_of(self.loads@, base);
                assert(all.take(index as int) =~= all.take(index - 1).push(all[index - 1]));
            }
        }
        if cursor < reservation.end {
            gaps.push(Range { start: cursor, end: reservation.end });
        }
        proof {
            let all = segments_of(self.loads@, base);
            assert(all.take(index as int) =~= all);
            let i = choose|i: int|
                0 <= i < self.loads@.len() && holds_entry(
                    #[trigger] self.loads@[i],
                    self.entry as int,
                );
            assert(load_wf(self.loads@[i]));
            assert(load_end(self.loads@[i]) <= self.end);
        }
        Ok(
            InterpreterPlan {
                image: self.bytes,
                initial: initial.clone(),
                reservation,
                segments,
                gaps,
                entry: base + self.entry,
            },
        )
    }
}

// ---------------------------------------------------------------------------
// Laws of plans
// ---------------------------------------------------------------------------

/// Whether a load's pages hold `address`.
pub open spec fn in_segments(segments: Seq<LoadMapping>, address: int) -> bool {
    exists|i: int| 0 <= i < segments.len() && within((#[trigger] segments[i]).pages, address)
}

/// Whether a gap holds `address`.
pub open spec fn in_gaps(gaps: Seq<Range<u64>>, address: int) -> bool {
    exists|i: int| 0 <= i < gaps.len() && within(#[trigger] gaps[i], address)
}

proof fn gap_push(gaps: Seq<Range<u64>>, gap: Range<u64>, address: int)
    ensures
        in_gaps(gaps.push(gap), address) == (in_gaps(gaps, address) || within(gap, address)),
{
    let more = gaps.push(gap);
    if in_gaps(gaps, address) {
        let i = choose|i: int| 0 <= i < gaps.len() && within(#[trigger] gaps[i], address);
        assert(within(more[i], address));
    }
    if within(gap, address) {
        assert(within(more[gaps.len() as int], address));
    }
    if in_gaps(more, address) {
        let i = choose|i: int| 0 <= i < more.len() && within(#[trigger] more[i], address);
        if i < gaps.len() {
            assert(within(gaps[i], address));
        }
    }
}

proof fn segments_and_gaps_tile_prefix(
    loads: Seq<Load>,
    end: u64,
    base: u64,
    count: int,
    address: int,
)
    requires
        loads_wf(loads, end),
        base % PAGE == 0,
        base + end <= USER_END,
        0 <= count <= loads.len(),
    ensures
        base <= pages_until(loads, base, count) <= base + end,
        base <= address < pages_until(loads, base, count) ==> (in_segments(
            segments_of(loads, base).take(count),
            address,
        ) != in_gaps(gaps_between(loads, base, count), address)),
        !(base <= address < pages_until(loads, base, count)) ==> !in_segments(
            segments_of(loads, base).take(count),
            address,
        ) && !in_gaps(gaps_between(loads, base, count), address),
    decreases count,
{
    let all = segments_of(loads, base);
    if count > 0 {
        segments_and_gaps_tile_prefix(loads, end, base, count - 1, address);
        load_fits(loads, end, base, count - 1);
        let before = all.take(count - 1);
        let after = all.take(count);
        let last = segment(loads[count - 1], base);
        let cursor = pages_until(loads, base, count - 1);
        assert(after =~= before.push(last));
        if count > 1 {
            load_fits(loads, end, base, count - 2);
            assert(load_end(loads[count - 2]) <= floor_page(loads[count - 1].address as int));
        }
        assert(cursor <= last.pages.start);
        assert(in_segments(after, address) == (in_segments(before, address) || within(
            last.pages,
            address,
        ))) by {
            if in_segments(before, address) {
                let i = choose|i: int|
                    0 <= i < before.len() && within((#[trigger] before[i]).pages, address);
                assert(within(after[i].pages, address));
            }
            if within(last.pages, address) {
                assert(within(after[count - 1].pages, address));
            }
            if in_segments(after, address) {
                let i = choose|i: int|
                    0 <= i < after.len() && within((#[trigger] after[i]).pages, address);
                if i < count - 1 {
                    assert(within(before[i].pages, address));
                }
            }
        }
        let gap = Range { start: cursor, end: last.pages.start };
        gap_push(gaps_between(loads, base, count - 1), gap, address);
    }
}

/// Every address of the reservation of a plan lies in the pages of a load or in a
/// gap, and never in both; no load and no gap reaches outside the reservation.
pub proof fn plan_tiles_reservation(
    image: ImageModel,
    initial: AuxvModel,
    reservation: Range<u64>,
    mappings: Seq<Range<u64>>,
    address: int,
)
    requires
        image_wf(image),
        auxv_wf(initial),
        plan_error(image, initial, reservation, mappings) is None,
    ensures
        ({
            let plan = plan_model(image, initial, reservation);
            &&& within(reservation, address) ==> in_segments(plan.segments, address) != in_gaps(
                plan.gaps,
                address,
            )
            &&& !within(reservation, address) ==> !in_segments(plan.segments, address) && !in_gaps(
                plan.gaps,
                address,
            )
        }),
{
    let count = image.loads.len() as int;
    let base = initial.base;
    segments_and_gaps_tile_prefix(image.loads, image.end, base, count, address);
    let all = segments_of(image.loads, base);
    assert(all.take(count) =~= all);
    let tail = Range { start: pages_until(image.loads, base, count), end: reservation.end };
    gap_push(gaps_between(image.loads, base, count), tail, address);
}

/// The pages of different loads of a plan never meet, and they ascend.
pub proof fn plan_segments_ascend(
    image: ImageModel,
    initial: AuxvModel,
    reservation: Range<u64>,
    mappings: Seq<Range<u64>>,
    low: int,
    high: int,
)
    requires
        image_wf(image),
        auxv_wf(initial),
        plan_error(image, initial, reservation, mappings) is None,
        0 <= low < high < image.loads.len(),
    ensures
        ({
            let segments = plan_model(image, initial, reservation).segments;
            segments[low].pages.end <= segments[high].pages.start
        }),
{
    load_fits(image.loads, image.end, initial.base, low);
    load_fits(image.loads, image.end, initial.base, high);
}

proof fn segment_is_complete(load: Load, base: u64)
    requires
        load_wf(load),
        base + load.address + load.memory_size + 4095 <= u64::MAX,
    ensures
        ({
            let mapping = segment(load, base);
            let start = base + load.address;
            &&& mapping.pages.start == floor_page(start)
            &&& mapping.pages.end == ceil_page(start + load.memory_size)
            &&& mapping.pages.start % PAGE == 0 && mapping.pages.end % PAGE == 0
            &&& range_contains(mapping.pages, mapping.memory)
            &&& mapping.anonymous_pages.end == mapping.pages.end
            &&& match mapping.file_pages {
                Some((_, range)) => range.start == mapping.pages.start && range.end
                    == mapping.anonymous_pages.start,
                None => mapping.anonymous_pages.start == mapping.pages.start,
            }
            &&& load.file_size == load.memory_size ==> mapping.zero_fill.start
                == mapping.zero_fill.end
            &&& !(mapping.flags & 2 != 0 && mapping.flags & 1 != 0)
        }),
{
    assert(4u32 & 2 == 0 && 5u32 & 2 == 0 && 6u32 & 1 == 0) by (bit_vector);
    let start = base + load.address;
    assert(floor_page(start) % 4096 == 0);
    assert(ceil_page(start + load.memory_size) % 4096 == 0);
    assert(floor_page(start) <= start);
    assert(start + load.memory_size <= ceil_page(start + load.memory_size) <= u64::MAX);
}

/// The file pages of a load and its anonymous pages make up its pages, its memory
/// lies in them, and only the last load of a plan has bytes to zero.
pub proof fn plan_segment_is_complete(
    image: ImageModel,
    initial: AuxvModel,
    reservation: Range<u64>,
    mappings: Seq<Range<u64>>,
    index: int,
)
    requires
        image_wf(image),
        auxv_wf(initial),
        plan_error(image, initial, reservation, mappings) is None,
        0 <= index < image.loads.len(),
    ensures
        ({
            let mapping = plan_model(image, initial, reservation).segments[index];
            &&& mapping.pages.start % PAGE == 0 && mapping.pages.end % PAGE == 0
            &&& range_contains(mapping.pages, mapping.memory)
            &&& range_contains(reservation, mapping.pages)
            &&& mapping.anonymous_pages.end == mapping.pages.end
            &&& match mapping.file_pages {
                Some((_, range)) => range.start == mapping.pages.start && range.end
                    == mapping.anonymous_pages.start,
                None => mapping.anonymous_pages.start == mapping.pages.start,
            }
            &&& index < image.loads.len() - 1 ==> mapping.zero_fill.start == mapping.zero_fill.end
            &&& !(mapping.flags & 2 != 0 && mapping.flags & 1 != 0)
        }),
{
    load_fits(image.loads, image.end, initial.base, index);
    segment_is_complete(image.loads[index], initial.base);
}

/// A plan never touches what the guest already has: its stack, program headers,
/// entry, break, vDSO page and every mapping that was supplied.
pub proof fn plan_avoids_guest_ranges(
    image: ImageModel,
    initial: AuxvModel,
    reservation: Range<u64>,
    mappings: Seq<Range<u64>>,
    address: int,
    index: int,
)
    requires
        auxv_wf(initial),
        plan_error(image, initial, reservation, mappings) is None,
        within(reservation, address),
    ensures
        !within(initial.stack, address),
        !within(initial.program_headers, address),
        address != initial.guest_entry,
        address != initial.brk,
        !(initial.vdso <= address < initial.vdso + PAGE),
        0 <= index < mappings.len() ==> !within(mappings[index], address),
{
    if 0 <= index < mappings.len() {
        if mapping_error(reservation, mappings, index + 1) is Some {
            mapping_error_is_final(reservation, mappings, index + 1, mappings.len() as int);
        }
    }
}

/// The entry of a plan lies in the memory of an executable load.
pub proof fn plan_entry_is_executable(
    image: ImageModel,
    initial: AuxvModel,
    reservation: Range<u64>,
    mappings: Seq<Range<u64>>,
) -> (index: int)
    requires
        image_wf(image),
        auxv_wf(initial),
        plan_error(image, initial, reservation, mappings) is None,
    ensures
        0 <= index < image.loads.len(),
        ({
            let plan = plan_model(image, initial, reservation);
            within(plan.segments[index].memory, plan.entry as int) && plan.segments[index].flags == 5
        }),
{
    let i = choose|i: int|
        0 <= i < image.loads.len() && holds_entry(#[trigger] image.loads[i], image.entry as int);
    load_fits(image.loads, image.end, initial.base, i);
    assert(load_wf(image.loads[i]));
    i
}

/// An accepted table ends with a null entry.
pub proof fn accepted_auxv_is_terminated(bytes: Seq<u8>, stack: Range<u64>, brk: u64)
    requires
        auxv_error(bytes, stack, brk) is None,
    ensures
        bytes.len() % 16 == 0,
        auxv_tag(bytes, bytes.len() as int / 16 - 1) == 0,
        auxv_value(bytes, bytes.len() as int / 16 - 1) == 0,
{
}

/// An accepted table carries each required tag.
pub proof fn accepted_auxv_is_complete(
    bytes: Seq<u8>,
    stack: Range<u64>,
    brk: u64,
    tag: int,
) -> (index: int)
    requires
        auxv_error(bytes, stack, brk) is None,
        is_required(tag),
    ensures
        0 <= index < bytes.len() / 16,
        auxv_tag(bytes, index) == tag,
        auxv_value(bytes, index) == auxv_known(bytes, tag as u64),
{
    lookup_is_carried(bytes, bytes.len() as int / 16, tag)
}

proof fn lookup_is_carried(bytes: Seq<u8>, count: int, tag: int) -> (index: int)
    requires
        auxv_lookup(bytes, count, tag) is Some,
    ensures
        0 <= index < count,
        auxv_tag(bytes, index) == tag,
        auxv_value(bytes, index) as u64 == auxv_lookup(bytes, count, tag)->0,
    decreases count,
{
    if auxv_lookup(bytes, count - 1, tag) is Some {
        lookup_is_carried(bytes, count - 1, tag)
    } else {
        count - 1
    }
}

/// No entry of an accepted table but the last is null, and no required tag occurs
/// twice.
pub proof fn accepted_auxv_tags_are_unique(
    bytes: Seq<u8>,
    stack: Range<u64>,
    brk: u64,
    first: int,
    second: int,
)
    requires
        auxv_error(bytes, stack, brk) is None,
        0 <= first < second < bytes.len() / 16,
    ensures
        auxv_tag(bytes, first) != 0,
        is_required(auxv_tag(bytes, second)) ==> auxv_tag(bytes, first) != auxv_tag(bytes, second),
{
    let count = bytes.len() as int / 16;
    if auxv_scan_error(bytes, first + 1) is Some {
        auxv_scan_error_is_final(bytes, first + 1, count);
    }
    if auxv_scan_error(bytes, second + 1) is Some {
        auxv_scan_error_is_final(bytes, second + 1, count);
    }
    if auxv_tag(bytes, first) == auxv_tag(bytes, second) {
        lookup_finds(bytes, first, second, auxv_tag(bytes, second));
    }
}

proof fn lookup_finds(bytes: Seq<u8>, index: int, count: int, tag: int)
    requires
        0 <= index < count,
        auxv_tag(bytes, index) == tag,
    ensures
        auxv_lookup(bytes, count, tag) is Some,
    decreases count,
{
    if index < count - 1 {
        lookup_finds(bytes, index, count - 1, tag);
    }
}

} // verus!

//! Reservations of private stacks with the startup provider.

use vstd::prelude::*;

pub mod laws;
use vstd::string::StringExecFns;

use crate::owned_context::stack::is_stack_size;
use crate::owned_context::stack::AllocationError;
use crate::owned_context::stack::StackAllocation;
use crate::text::append_decimal;
use crate::text::decimal;

verus! {

pub const RECORD_VERSION: u32 = 1;

pub const RECORD_SIZE: u32 = 80;

#[derive(Clone, Copy, Debug, PartialEq, Eq)]
pub struct StackRecord {
    pub version: u32,
    pub size: u32,
    pub allocation_id: u64,
    pub allocation_low: usize,
    pub allocation_size: usize,
    pub usable_low: usize,
    pub usable_size: usize,
    pub lower_guard_size: usize,
    pub upper_guard_size: usize,
    pub reserved: [u64; 2],
}

#[derive(Clone, Copy, Debug, PartialEq, Eq)]
pub struct StackInfo {
    pub storage: StackRecord,
    pub gnu_stack_low: usize,
    pub gnu_stack_size: usize,
    pub gnu_reported_guard_size: usize,
}

/// What the provider returns.
#[derive(Clone, Copy, Debug, PartialEq, Eq, Structural)]
pub struct RawResult {
    pub stage: u32,
    pub domain: u32,
    pub code: u32,
    pub reserved: u32,
}

#[derive(Clone, Copy, Debug, PartialEq, Eq, Structural)]
pub enum Stage {
    Root,
    Domain,
    Adopt,
    RootQuery,
    Prepare,
    Query,
    Rollback,
    Close,
    Check,
}

#[derive(Clone, Copy, Debug, PartialEq, Eq, Structural)]
pub enum GnuStatus {
    Success,
    NotReady,
    WrongOwner,
    Invalid,
    NoMemory,
    Exhausted,
}

#[derive(Clone, Copy, Debug, PartialEq, Eq, Structural)]
pub enum AdapterStatus {
    Success,
    Phase,
    Owner,
    Invalid,
    Exhausted,
    Mismatch,
}

#[derive(Clone, Copy, Debug, PartialEq, Eq, Structural)]
pub enum Status {
    Gnu(GnuStatus),
    Adapter(AdapterStatus),
    Unknown { stage: u32, domain: u32, code: u32, reserved: u32 },
}

#[derive(Clone, Copy, Debug, PartialEq, Eq, Structural)]
pub struct ProviderError {
    pub stage: Stage,
    pub status: Status,
}

pub open spec fn stage_name(stage: Stage) -> &'static str {
    match stage {
        Stage::Root => "Root",
        Stage::Domain => "Domain",
        Stage::Adopt => "Adopt",
        Stage::RootQuery => "RootQuery",
        Stage::Prepare => "Prepare",
        Stage::Query => "Query",
        Stage::Rollback => "Rollback",
        Stage::Close => "Close",
        Stage::Check => "Check",
    }
}

pub open spec fn gnu_name(status: GnuStatus) -> &'static str {
    match status {
        GnuStatus::Success => "Gnu(Ok)",
        GnuStatus::NotReady => "Gnu(NotReady)",
        GnuStatus::WrongOwner => "Gnu(WrongOwner)",
        GnuStatus::Invalid => "Gnu(Invalid)",
        GnuStatus::NoMemory => "Gnu(NoMemory)",
        GnuStatus::Exhausted => "Gnu(Exhausted)",
    }
}

pub open spec fn adapter_name(status: AdapterStatus) -> &'static str {
    match status {
        AdapterStatus::Success => "Adapter(Ok)",
        AdapterStatus::Phase => "Adapter(Phase)",
        AdapterStatus::Owner => "Adapter(Owner)",
        AdapterStatus::Invalid => "Adapter(Invalid)",
        AdapterStatus::Exhausted => "Adapter(Exhausted)",
        AdapterStatus::Mismatch => "Adapter(Mismatch)",
    }
}

pub open spec fn status_text(status: Status) -> Seq<char> {
    match status {
        Status::Gnu(status) => gnu_name(status)@,
        Status::Adapter(status) => adapter_name(status)@,
        Status::Unknown { stage, domain, code, reserved } => "Unknown { stage: "@ + decimal(
            stage as nat,
        ) + ", domain: "@ + decimal(domain as nat) + ", code: "@ + decimal(code as nat)
            + ", reserved: "@ + decimal(reserved as nat) + " }"@,
    }
}

fn spell_stage(stage: Stage) -> (name: &'static str)
    ensures
        name == stage_name(stage),
{
    match stage {
        Stage::Root => "Root",
        Stage::Domain => "Domain",
        Stage::Adopt => "Adopt",
        Stage::RootQuery => "RootQuery",
        Stage::Prepare => "Prepare",
        Stage::Query => "Query",
        Stage::Rollback => "Rollback",
        Stage::Close => "Close",
        Stage::Check => "Check",
    }
}

fn spell_gnu(status: GnuStatus) -> (name: &'static str)
    ensures
        name == gnu_name(status),
{
    match status {
        GnuStatus::Success => "Gnu(Ok)",
        GnuStatus::NotReady => "Gnu(NotReady)",
        GnuStatus::WrongOwner => "Gnu(WrongOwner)",
        GnuStatus::Invalid => "Gnu(Invalid)",
        GnuStatus::NoMemory => "Gnu(NoMemory)",
        GnuStatus::Exhausted => "Gnu(Exhausted)",
    }
}

fn spell_adapter(status: AdapterStatus) -> (name: &'static str)
    ensures
        name == adapter_name(status),
{
    match status {
        AdapterStatus::Success => "Adapter(Ok)",
        AdapterStatus::Phase => "Adapter(Phase)",
        AdapterStatus::Owner => "Adapter(Owner)",
        AdapterStatus::Invalid => "Adapter(Invalid)",
        AdapterStatus::Exhausted => "Adapter(Exhausted)",
        AdapterStatus::Mismatch => "Adapter(Mismatch)",
    }
}

fn append_status(text: &mut String, status: Status)
    ensures
        final(text)@ == old(text)@ + status_text(status),
{
    match status {
        Status::Gnu(status) => text.append(spell_gnu(status)),
        Status::Adapter(status) => text.append(spell_adapter(status)),
        Status::Unknown { stage, domain, code, reserved } => {
            text.append("Unknown { stage: ");
            append_decimal(text, stage as u64);
            text.append(", domain: ");
            append_decimal(text, domain as u64);
            text.append(", code: ");
            append_decimal(text, code as u64);
            text.append(", reserved: ");
            append_decimal(text, reserved as u64);
            text.append(" }");
        },
    }
    assert(text@ =~= old(text)@ + status_text(status));
}

impl ProviderError {
    /// The error in words.
    pub fn text(&self) -> (text: String)
        ensures
            text@ == "private GNU provider "@ + stage_name(self.stage)@ + ": "@ + status_text(
                self.status,
            ),
    {
        let mut text = String::from_str("private GNU provider ");
        text.append(spell_stage(self.stage));
        text.append(": ");
        append_status(&mut text, self.status);
        text
    }
}

/// The stage that a number stands for.
pub open spec fn stage_of(number: u32) -> Option<Stage> {
    if number == 1 {
        Some(Stage::Root)
    } else if number == 2 {
        Some(Stage::Domain)
    } else if number == 3 {
        Some(Stage::Adopt)
    } else if number == 4 {
        Some(Stage::RootQuery)
    } else if number == 5 {
        Some(Stage::Prepare)
    } else if number == 6 {
        Some(Stage::Query)
    } else if number == 7 {
        Some(Stage::Rollback)
    } else if number == 8 {
        Some(Stage::Close)
    } else if number == 9 {
        Some(Stage::Check)
    } else {
        None
    }
}

pub open spec fn unknown_status(raw: RawResult) -> Status {
    Status::Unknown {
        stage: raw.stage,
        domain: raw.domain,
        code: raw.code,
        reserved: raw.reserved,
    }
}

/// The status in either domain that the numbers stand for.
pub open spec fn status_of(raw: RawResult) -> Status {
    if raw.domain == 1 && raw.code == 0 {
        Status::Adapter(AdapterStatus::Success)
    } else if raw.domain == 1 && raw.code == 1 {
        Status::Adapter(AdapterStatus::Phase)
    } else if raw.domain == 1 && raw.code == 2 {
        Status::Adapter(AdapterStatus::Owner)
    } else if raw.domain == 1 && raw.code == 3 {
        Status::Adapter(AdapterStatus::Invalid)
    } else if raw.domain == 1 && raw.code == 4 {
        Status::Adapter(AdapterStatus::Exhausted)
    } else if raw.domain == 1 && raw.code == 5 {
        Status::Adapter(AdapterStatus::Mismatch)
    } else if raw.domain == 2 && raw.code == 0 {
        Status::Gnu(GnuStatus::Success)
    } else if raw.domain == 2 && raw.code == 1 {
        Status::Gnu(GnuStatus::NotReady)
    } else if raw.domain == 2 && raw.code == 2 {
        Status::Gnu(GnuStatus::WrongOwner)
    } else if raw.domain == 2 && raw.code == 3 {
        Status::Gnu(GnuStatus::Invalid)
    } else if raw.domain == 2 && raw.code == 4 {
        Status::Gnu(GnuStatus::NoMemory)
    } else if raw.domain == 2 && raw.code == 5 {
        Status::Gnu(GnuStatus::Exhausted)
    } else {
        unknown_status(raw)
    }
}

pub open spec fn is_ok(status: Status) -> bool {
    status == Status::Gnu(GnuStatus::Success) || status == Status::Adapter(AdapterStatus::Success)
}

/// Success is only the expected stage reporting success; a result that is malformed
/// or succeeds at another stage is unknown.
pub open spec fn checked_result(raw: RawResult, expected: Stage) -> Result<(), ProviderError> {
    if raw.reserved != 0 || stage_of(raw.stage) is None {
        Err(ProviderError { stage: expected, status: unknown_status(raw) })
    } else if is_ok(status_of(raw)) {
        if stage_of(raw.stage) == Some(expected) {
            Ok(())
        } else {
            Err(ProviderError { stage: expected, status: unknown_status(raw) })
        }
    } else {
        Err(ProviderError { stage: stage_of(raw.stage)->0, status: status_of(raw) })
    }
}

fn decode_stage(number: u32) -> (stage: Option<Stage>)
    ensures
        stage == stage_of(number),
{
    match number {
        1 => Some(Stage::Root),
        2 => Some(Stage::Domain),
        3 => Some(Stage::Adopt),
        4 => Some(Stage::RootQuery),
        5 => Some(Stage::Prepare),
        6 => Some(Stage::Query),
        7 => Some(Stage::Rollback),
        8 => Some(Stage::Close),
        9 => Some(Stage::Check),
        _ => None,
    }
}

fn decode_status(raw: RawResult) -> (status: Status)
    ensures
        status == status_of(raw),
{
    match (raw.domain, raw.code) {
        (1, 0) => Status::Adapter(AdapterStatus::Success),
        (1, 1) => Status::Adapter(AdapterStatus::Phase),
        (1, 2) => Status::Adapter(AdapterStatus::Owner),
        (1, 3) => Status::Adapter(AdapterStatus::Invalid),
        (1, 4) => Status::Adapter(AdapterStatus::Exhausted),
        (1, 5) => Status::Adapter(AdapterStatus::Mismatch),
        (2, 0) => Status::Gnu(GnuStatus::Success),
        (2, 1) => Status::Gnu(GnuStatus::NotReady),
        (2, 2) => Status::Gnu(GnuStatus::WrongOwner),
        (2, 3) => Status::Gnu(GnuStatus::Invalid),
        (2, 4) => Status::Gnu(GnuStatus::NoMemory),
        (2, 5) => Status::Gnu(GnuStatus::Exhausted),
        _ => Status::Unknown {
            stage: raw.stage,
            domain: raw.domain,
            code: raw.code,
            reserved: raw.reserved,
        },
    }
}

pub fn checked(raw: RawResult, expected: Stage) -> (result: Result<(), ProviderError>)
    ensures
        result == checked_result(raw, expected),
{
    let unknown = Status::Unknown {
        stage: raw.stage,
        domain: raw.domain,
        code: raw.code,
        reserved: raw.reserved,
    };
    let stage = match decode_stage(raw.stage) {
        Some(stage) => stage,
        None => return Err(ProviderError { stage: expected, status: unknown }),
    };
    if raw.reserved != 0 {
        return Err(ProviderError { stage: expected, status: unknown });
    }
    let status = decode_status(raw);
    if status == Status::Gnu(GnuStatus::Success) || status == Status::Adapter(AdapterStatus::Success) {
        return if stage == expected {
            Ok(())
        } else {
            Err(ProviderError { stage: expected, status: unknown })
        };
    }
    Err(ProviderError { stage, status })
}

// ---------------------------------------------------------------------------
// Reservations
// ---------------------------------------------------------------------------

/// A stack that is offered to the provider, with what the provider said of it.
#[derive(Debug)]
pub struct Reservation {
    pub ticket: u64,
    pub record: StackRecord,
    pub allocation: StackAllocation,
}

#[derive(Debug)]
pub enum ReserveError {
    /// There is no memory for the stack.
    Allocation(AllocationError),
    /// The provider refused; a stack that it never took goes back to the allocator.
    Provider(ProviderError, Option<StackAllocation>),
    /// The provider may hold the stack: it stays reserved.
    Retained(Reservation, ProviderError),
}

/// The record that offers a stack.
pub open spec fn offered_record(low: usize, length: usize, reserved: [u64; 2]) -> StackRecord {
    StackRecord {
        version: RECORD_VERSION,
        size: RECORD_SIZE,
        allocation_id: 0,
        allocation_low: low,
        allocation_size: length,
        usable_low: low,
        usable_size: length,
        lower_guard_size: 0,
        upper_guard_size: 0,
        reserved,
    }
}

/// A failure of which the provider says that it took nothing.
pub open spec fn took_nothing(error: ProviderError) -> bool {
    &&& error.stage == Stage::Prepare
    &&& match error.status {
        Status::Gnu(status) => status != GnuStatus::Success,
        Status::Adapter(status) => status != AdapterStatus::Success && status
            != AdapterStatus::Mismatch,
        Status::Unknown { stage, domain, code, reserved } => false,
    }
}

/// The provider's reply to an offer gives the stack back.
pub open spec fn gives_back(ticket: u64, raw: RawResult) -> bool {
    match checked_result(raw, Stage::Prepare) {
        Ok(()) => false,
        Err(error) => ticket == 0 && took_nothing(error),
    }
}

pub open spec fn mismatch_error(stage: Stage) -> ProviderError {
    ProviderError { stage, status: Status::Adapter(AdapterStatus::Mismatch) }
}

/// The record still describes exactly this stack, under a name that the provider
/// gave, and the provider's account of it agrees.
pub open spec fn info_agrees(record: StackRecord, low: usize, length: usize, info: StackInfo) -> bool {
    &&& record.version == RECORD_VERSION
    &&& record.size == RECORD_SIZE
    &&& record.allocation_id != 0
    &&& record.allocation_low == low
    &&& record.allocation_size == length
    &&& record.usable_low == low
    &&& record.usable_size == length
    &&& record.lower_guard_size == 0
    &&& record.upper_guard_size == 0
    &&& record.reserved@[0] == 0
    &&& record.reserved@[1] == 0
    &&& info.storage == record
    &&& info.gnu_stack_low == low
    &&& info.gnu_stack_size == length
    &&& info.gnu_reported_guard_size == 0
}

pub open spec fn query_result(
    record: StackRecord,
    low: usize,
    length: usize,
    raw: RawResult,
    info: StackInfo,
) -> Result<StackInfo, ProviderError> {
    match checked_result(raw, Stage::Query) {
        Err(error) => Err(error),
        Ok(()) => if info_agrees(record, low, length, info) {
            Ok(info)
        } else {
            Err(mismatch_error(Stage::Query))
        },
    }
}

fn mismatch(stage: Stage) -> (error: ProviderError)
    ensures
        error == mismatch_error(stage),
{
    ProviderError { stage, status: Status::Adapter(AdapterStatus::Mismatch) }
}

fn same_reserved(left: &[u64; 2], right: &[u64; 2]) -> (same: bool)
    ensures
        same == (*left == *right),
{
    let same: bool = left[0] == right[0] && left[1] == right[1];
    proof {
        if same {
            assert(*left =~= *right);
        }
    }
    same
}

fn same_record(left: &StackRecord, right: &StackRecord) -> (same: bool)
    ensures
        same == (*left == *right),
{
    left.version == right.version && left.size == right.size && left.allocation_id
        == right.allocation_id && left.allocation_low == right.allocation_low
        && left.allocation_size == right.allocation_size && left.usable_low == right.usable_low
        && left.usable_size == right.usable_size && left.lower_guard_size
        == right.lower_guard_size && left.upper_guard_size == right.upper_guard_size
        && same_reserved(&left.reserved, &right.reserved)
}

fn refuses_untaken(error: &ProviderError) -> (result: bool)
    ensures
        result == took_nothing(*error),
{
    error.stage == Stage::Prepare && match error.status {
        Status::Gnu(status) => status != GnuStatus::Success,
        Status::Adapter(status) => status != AdapterStatus::Success && status
            != AdapterStatus::Mismatch,
        Status::Unknown { stage: _, domain: _, code: _, reserved: _ } => false,
    }
}

impl Reservation {
    /// Offers a stack: the record that the provider is shown, without a ticket.
    pub fn offer(allocation: StackAllocation) -> (reservation: Self)
        ensures
            reservation.ticket == 0,
            reservation.allocation == allocation,
            reservation.record == offered_record(
                allocation.low(),
                allocation.length(),
                reservation.record.reserved,
            ),
            reservation.record.reserved@ == seq![0u64, 0u64],
    {
        let range = allocation.range();
        let reserved: [u64; 2] = [0, 0];
        assert(reserved@ =~= seq![0u64, 0u64]);
        let length: usize = range.end - range.start;
        Reservation {
            ticket: 0,
            record: StackRecord {
                version: RECORD_VERSION,
                size: RECORD_SIZE,
                allocation_id: 0,
                allocation_low: range.start,
                allocation_size: length,
                usable_low: range.start,
                usable_size: length,
                lower_guard_size: 0,
                upper_guard_size: 0,
                reserved,
            },
            allocation,
        }
    }

    /// Takes the provider's reply to the offer. The stack is given back only where
    /// no ticket was issued and the provider says that it took nothing.
    pub fn prepared(self, raw: RawResult) -> (result: Result<Self, ReserveError>)
        ensures
            result == match checked_result(raw, Stage::Prepare) {
                Err(error) => if gives_back(self.ticket, raw) {
                    Err::<Self, ReserveError>(
                        ReserveError::Provider(error, Some(self.allocation)),
                    )
                } else {
                    Err(ReserveError::Retained(self, error))
                },
                Ok(()) => if self.ticket == 0 {
                    Err(ReserveError::Retained(self, mismatch_error(Stage::Prepare)))
                } else {
                    Ok(self)
                },
            },
    {
        match checked(raw, Stage::Prepare) {
            Err(error) => {
                if self.ticket == 0 && refuses_untaken(&error) {
                    Err(ReserveError::Provider(error, Some(self.allocation)))
                } else {
                    Err(ReserveError::Retained(self, error))
                }
            },
            Ok(()) => {
                if self.ticket == 0 {
                    Err(ReserveError::Retained(self, mismatch(Stage::Prepare)))
                } else {
                    Ok(self)
                }
            },
        }
    }

    /// Judges the provider's account of the stack.
    pub fn query(&self, raw: RawResult, info: StackInfo) -> (result: Result<
        StackInfo,
        ProviderError,
    >)
        ensures
            result == query_result(
                self.record,
                self.allocation.low(),
                self.allocation.length(),
                raw,
                info,
            ),
    {
        match checked(raw, Stage::Query) {
            Ok(()) => {},
            Err(error) => return Err(error),
        }
        let range = self.allocation.range();
        let length: usize = range.end - range.start;
        if self.record.version != RECORD_VERSION || self.record.size != RECORD_SIZE
            || self.record.allocation_id == 0 || self.record.allocation_low != range.start
            || self.record.allocation_size != length || self.record.usable_low != range.start
            || self.record.usable_size != length || self.record.lower_guard_size != 0
            || self.record.upper_guard_size != 0 || self.record.reserved[0] != 0
            || self.record.reserved[1] != 0 || !same_record(&info.storage, &self.record)
            || info.gnu_stack_low != range.start || info.gnu_stack_size != length
            || info.gnu_reported_guard_size != 0 {
            return Err(mismatch(Stage::Query));
        }
        Ok(info)
    }

    /// Finishes a reservation with the provider's account of the stack.
    pub fn queried(self, raw: RawResult, info: StackInfo) -> (result: Result<Self, ReserveError>)
        ensures
            result == match query_result(
                self.record,
                self.allocation.low(),
                self.allocation.length(),
                raw,
                info,
            ) {
                Ok(_) => Ok::<Self, ReserveError>(self),
                Err(error) => Err(ReserveError::Retained(self, error)),
            },
    {
        match self.query(raw, info) {
            Ok(_) => Ok(self),
            Err(error) => Err(ReserveError::Retained(self, error)),
        }
    }

    /// Takes the provider's reply to a rollback: the stack, or the reservation as it
    /// was.
    pub fn rollback(self, raw: RawResult) -> (result: Result<
        StackAllocation,
        (Self, ProviderError),
    >)
        ensures
            result == match checked_result(raw, Stage::Rollback) {
                Ok(()) => Ok::<StackAllocation, (Self, ProviderError)>(self.allocation),
                Err(error) => Err((self, error)),
            },
    {
        match checked(raw, Stage::Rollback) {
            Ok(()) => Ok(self.allocation),
            Err(error) => Err((self, error)),
        }
    }
}

/// The open startup of a process, and how it ends.
#[derive(Debug)]
pub struct Startup {
    pub open: bool,
}

impl Startup {
    pub fn prepare(raw: RawResult) -> (result: Result<Self, ProviderError>)
        ensures
            result == match checked_result(raw, Stage::Root) {
                Ok(()) => Ok::<Self, ProviderError>(Startup { open: true }),
                Err(error) => Err(error),
            },
    {
        match checked(raw, Stage::Root) {
            Ok(()) => Ok(Startup { open: true }),
            Err(error) => Err(error),
        }
    }

    /// Allocates a stack, once the provider said that it is open, and offers it.
    /// `address` is what the allocator gave for the size, zero where there was no
    /// memory.
    pub fn reserve(&self, check: RawResult, bytes: usize, address: usize) -> (result: Result<
        Reservation,
        ReserveError,
    >)
        requires
            address + bytes <= usize::MAX,
        ensures
            match checked_result(check, Stage::Check) {
                Err(error) => result == Err::<Reservation, ReserveError>(
                    ReserveError::Provider(error, None),
                ),
                Ok(()) => if !is_stack_size(bytes) {
                    result == Err::<Reservation, ReserveError>(
                        ReserveError::Allocation(AllocationError::InvalidSize),
                    )
                } else if address == 0 {
                    result == Err::<Reservation, ReserveError>(
                        ReserveError::Allocation(AllocationError::OutOfMemory),
                    )
                } else {
                    &&& result is Ok
                    &&& (result->Ok_0).ticket == 0
                    &&& (result->Ok_0).allocation.low() == address
                    &&& (result->Ok_0).allocation.length() == bytes
                    &&& (result->Ok_0).record == offered_record(
                        address,
                        bytes,
                        (result->Ok_0).record.reserved,
                    )
                    &&& (result->Ok_0).record.reserved@ == seq![0u64, 0u64]
                },
            },
    {
        match checked(check, Stage::Check) {
            Ok(()) => {},
            Err(error) => return Err(ReserveError::Provider(error, None)),
        }
        match StackAllocation::allocate(bytes, address) {
            Ok(allocation) => Ok(Reservation::offer(allocation)),
            Err(error) => Err(ReserveError::Allocation(error)),
        }
    }

    pub fn close(self, raw: RawResult) -> (result: Result<(), ProviderError>)
        ensures
            result == checked_result(raw, Stage::Close),
    {
        checked(raw, Stage::Close)
    }
}

/// Only the expected stage can succeed, and a failure names the stage and the
/// status that the provider reported, unless it is malformed.
pub proof fn success_is_the_expected_stage(raw: RawResult, expected: Stage)
    ensures
        checked_result(raw, expected) is Ok <==> raw.reserved == 0 && stage_of(raw.stage) == Some(
            expected,
        ) && raw.code == 0 && (raw.domain == 1 || raw.domain == 2),
        checked_result(raw, expected) matches Err(error) ==> !is_ok(error.status),
{
}

/// A failed reservation gives the stack back exactly where no ticket was issued and
/// the provider itself said, in the stage that would have taken the stack, why it did
/// not; a mismatch, or anything malformed, keeps the stack reserved.
pub proof fn only_untaken_stacks_are_given_back(ticket: u64, raw: RawResult)
    ensures
        gives_back(ticket, raw) <==> {
            &&& ticket == 0
            &&& raw.reserved == 0
            &&& stage_of(raw.stage) == Some(Stage::Prepare)
            &&& (raw.domain == 1 && 1 <= raw.code <= 4) || (raw.domain == 2 && 1 <= raw.code <= 5)
        },
{
}

} // verus!

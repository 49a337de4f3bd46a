//! What reservations with the provider promise.

use std::ops::Range;

use vstd::prelude::*;

use crate::owned_context::stack::check_size;
use crate::owned_context::stack::AllocationError;
use crate::owned_context::stack::StackAllocation;
use crate::private_startup::provider::checked;
use crate::private_startup::provider::AdapterStatus;
use crate::private_startup::provider::GnuStatus;
use crate::private_startup::provider::ProviderError;
use crate::private_startup::provider::RawResult;
use crate::private_startup::provider::Reservation;
use crate::private_startup::provider::ReserveError;
use crate::private_startup::provider::StackInfo;
use crate::private_startup::provider::Stage;
use crate::private_startup::provider::Startup;
use crate::private_startup::provider::Status;

verus! {

/// The number by which the provider names a stage.
pub open spec fn number_of(stage: Stage) -> int {
    match stage {
        Stage::Root => 1,
        Stage::Domain => 2,
        Stage::Adopt => 3,
        Stage::RootQuery => 4,
        Stage::Prepare => 5,
        Stage::Query => 6,
        Stage::Rollback => 7,
        Stage::Close => 8,
        Stage::Check => 9,
    }
}

/// The domain and the code by which the provider names a status.
pub open spec fn numbers_of(status: Status) -> (int, int) {
    match status {
        Status::Adapter(AdapterStatus::Success) => (1, 0),
        Status::Adapter(AdapterStatus::Phase) => (1, 1),
        Status::Adapter(AdapterStatus::Owner) => (1, 2),
        Status::Adapter(AdapterStatus::Invalid) => (1, 3),
        Status::Adapter(AdapterStatus::Exhausted) => (1, 4),
        Status::Adapter(AdapterStatus::Mismatch) => (1, 5),
        Status::Gnu(GnuStatus::Success) => (2, 0),
        Status::Gnu(GnuStatus::NotReady) => (2, 1),
        Status::Gnu(GnuStatus::WrongOwner) => (2, 2),
        Status::Gnu(GnuStatus::Invalid) => (2, 3),
        Status::Gnu(GnuStatus::NoMemory) => (2, 4),
        Status::Gnu(GnuStatus::Exhausted) => (2, 5),
        Status::Unknown { stage, domain, code, reserved } => (domain as int, code as int),
    }
}

/// The provider succeeded in this stage.
pub open spec fn succeeded(raw: RawResult, stage: Stage) -> bool {
    raw.reserved == 0 && raw.stage == number_of(stage) && raw.code == 0 && (raw.domain == 1
        || raw.domain == 2)
}

/// A result is a success exactly where the expected stage says so. A failure keeps what the
/// provider said: its stage and its status, or all of its numbers where they stand for nothing
/// or for another stage's success.
pub proof fn results_keep_what_the_provider_said(
    raw: RawResult,
    expected: Stage,
    result: Result<(), ProviderError>,
)
    requires
        call_ensures(checked, (raw, expected), result),
    ensures
        result is Ok <==> succeeded(raw, expected),
        result matches Err(error) ==> {
            &&& numbers_of(error.status).0 == raw.domain
            &&& numbers_of(error.status).1 == raw.code
            &&& error.status is Unknown <==> raw.reserved != 0 || raw.stage < 1 || raw.stage > 9
                || raw.domain < 1 || raw.domain > 2 || raw.code > 5 || raw.code == 0
            &&& !(error.status is Unknown) ==> number_of(error.stage) == raw.stage
            &&& (error.status matches Status::Unknown { stage, domain, code, reserved } ==> stage
                == raw.stage && reserved == raw.reserved)
            &&& raw.reserved != 0 || raw.stage < 1 || raw.stage > 9 ==> error.stage == expected
        },
{
}

/// An offered stack is described as it was allocated, without guards, a name or a ticket.
pub proof fn offers_describe_the_stack(
    bytes: usize,
    address: usize,
    allocated: Result<StackAllocation, AllocationError>,
    reservation: Reservation,
)
    requires
        address + bytes <= usize::MAX,
        call_ensures(StackAllocation::allocate, (bytes, address), allocated),
        allocated is Ok,
        call_ensures(Reservation::offer, (allocated->Ok_0,), reservation),
    ensures
        reservation.ticket == 0,
        reservation.allocation == allocated->Ok_0,
        ({
            let record = reservation.record;
            &&& record.version == 1
            &&& record.size == 80
            &&& record.allocation_id == 0
            &&& record.allocation_low == address
            &&& record.usable_low == address
            &&& record.allocation_size == bytes
            &&& record.usable_size == bytes
            &&& record.lower_guard_size == 0
            &&& record.upper_guard_size == 0
            &&& record.reserved@[0] == 0
            &&& record.reserved@[1] == 0
        }),
{
}

/// A prepared stack is one that the provider took under a ticket. It is given back only where
/// no ticket was issued and the provider said why it did not take it; otherwise it stays
/// reserved. No stack gets lost.
pub proof fn offered_stacks_are_never_lost(
    reservation: Reservation,
    raw: RawResult,
    result: Result<Reservation, ReserveError>,
)
    requires
        call_ensures(Reservation::prepared, (reservation, raw), result),
    ensures
        result is Ok <==> succeeded(raw, Stage::Prepare) && reservation.ticket != 0,
        result matches Ok(kept) ==> kept == reservation,
        result matches Err(error) ==> {
            let untaken = reservation.ticket == 0 && raw.reserved == 0 && raw.stage == 5 && (
            (raw.domain == 1 && 1 <= raw.code <= 4) || (raw.domain == 2 && 1 <= raw.code <= 5));
            match error {
                ReserveError::Allocation(_) => false,
                ReserveError::Provider(_, returned) => untaken && returned == Some(
                    reservation.allocation,
                ),
                ReserveError::Retained(kept, _) => !untaken && kept == reservation,
            }
        },
{
}

/// The provider's account of a stack is believed exactly where it says of it what the
/// reservation does, and the reservation describes its own stack under a name that the provider
/// gave.
pub proof fn accounts_agree_with_the_stack(
    reservation: Reservation,
    raw: RawResult,
    info: StackInfo,
    range: Range<usize>,
    result: Result<StackInfo, ProviderError>,
    kept: Result<Reservation, ReserveError>,
)
    requires
        call_ensures(StackAllocation::range, (&reservation.allocation,), range),
        call_ensures(Reservation::query, (&reservation, raw, info), result),
        call_ensures(Reservation::queried, (reservation, raw, info), kept),
    ensures
        result is Ok <==> {
            let record = reservation.record;
            let size = range.end - range.start;
            &&& succeeded(raw, Stage::Query)
            &&& record.version == 1
            &&& record.size == 80
            &&& record.allocation_id != 0
            &&& record.allocation_low == range.start
            &&& record.allocation_size == size
            &&& record.usable_low == range.start
            &&& record.usable_size == size
            &&& record.lower_guard_size == 0
            &&& record.upper_guard_size == 0
            &&& record.reserved@[0] == 0
            &&& record.reserved@[1] == 0
            &&& info.storage == record
            &&& info.gnu_stack_low == range.start
            &&& info.gnu_stack_size == size
            &&& info.gnu_reported_guard_size == 0
        },
        result matches Ok(account) ==> account == info,
        kept is Ok <==> result is Ok,
        kept matches Ok(same) ==> same == reservation,
        kept matches Err(error) ==> (error matches ReserveError::Retained(same, _) && same
            == reservation),
        result is Err && succeeded(raw, Stage::Query) ==> (result matches Err(error) && error.stage
            == Stage::Query && error.status == Status::Adapter(AdapterStatus::Mismatch)),
{
}

/// A rollback gives the stack of the reservation, or the reservation as it was.
pub proof fn rollbacks_give_the_stack_or_the_reservation(
    reservation: Reservation,
    raw: RawResult,
    result: Result<StackAllocation, (Reservation, ProviderError)>,
)
    requires
        call_ensures(Reservation::rollback, (reservation, raw), result),
    ensures
        result is Ok <==> succeeded(raw, Stage::Rollback),
        result matches Ok(stack) ==> stack == reservation.allocation,
        result matches Err(failure) ==> failure.0 == reservation,
{
}

/// A startup opens by its root stage and closes by its own; a stack is reserved exactly where
/// the provider is open, the size is a stack's and there is memory for it.
pub proof fn startups_open_reserve_and_close(
    root: RawResult,
    check: RawResult,
    close: RawResult,
    bytes: usize,
    address: usize,
    opened: Result<Startup, ProviderError>,
    startup: Startup,
    size: Result<(), AllocationError>,
    reserved: Result<Reservation, ReserveError>,
    closed: Result<(), ProviderError>,
    range: Range<usize>,
)
    requires
        address + bytes <= usize::MAX,
        call_ensures(Startup::prepare, (root,), opened),
        call_ensures(check_size, (bytes,), size),
        call_ensures(Startup::reserve, (&startup, check, bytes, address), reserved),
        reserved is Ok ==> call_ensures(
            StackAllocation::range,
            (&reserved->Ok_0.allocation,),
            range,
        ),
        call_ensures(Startup::close, (startup, close), closed),
    ensures
        opened is Ok <==> succeeded(root, Stage::Root),
        opened matches Ok(startup) ==> startup.open,
        closed is Ok <==> succeeded(close, Stage::Close),
        reserved is Ok <==> succeeded(check, Stage::Check) && size is Ok && address != 0,
        reserved matches Ok(reservation) ==> reservation.ticket == 0 && range.start == address
            && range.end == address + bytes && reservation.record.allocation_low == address
            && reservation.record.allocation_size == bytes && reservation.record.usable_low
            == address && reservation.record.usable_size == bytes
            && reservation.record.allocation_id == 0,
        reserved matches Err(error) ==> match error {
            ReserveError::Provider(_, returned) => !succeeded(check, Stage::Check) && returned
                is None,
            ReserveError::Allocation(_) => succeeded(check, Stage::Check),
            ReserveError::Retained(_, _) => false,
        },
{
}

} // verus!

//! Thread-local storage bases of the guest and of the runtime.

use vstd::prelude::*;

pub mod laws;

use crate::owned_context::Phase;

verus! {

pub const ARCH_SET_GS: u64 = 0x1001;

pub const ARCH_SET_FS: u64 = 0x1002;

pub const ARCH_GET_FS: u64 = 0x1003;

pub const ARCH_GET_GS: u64 = 0x1004;

/// The phase in which the guest bases are deferred to the runtime.
pub const PHASE_DEFERRED: u64 = 2;

/// What the kernel transaction reports: its result and both guest bases.
#[derive(Clone, Copy, Debug, PartialEq, Eq)]
pub struct Observation {
    pub result: i64,
    pub guest: [u64; 2],
}

/// The bases, FS first, with who owns them.
#[derive(Clone, Copy, Debug, PartialEq, Eq)]
pub struct State {
    pub private: [u64; 2],
    pub guest: [u64; 2],
    pub owner: u64,
    pub phase: u64,
    pub deferred: u64,
}

/// The thread owns deferred bases inside the runtime, and the runtime's own FS base
/// is set and is not the guest's.
pub open spec fn is_owned(state: State, tid: i64, phase: Phase) -> bool {
    &&& state.phase == PHASE_DEFERRED
    &&& state.deferred == 1
    &&& tid > 0
    &&& state.owner == tid
    &&& phase == Phase::Runtime
    &&& state.private@[0] != 0
    &&& state.private@[0] != state.guest@[0]
}

/// Why an operation never reaches the kernel.
pub open spec fn request_error(
    state: State,
    operation: u64,
    argument: u64,
) -> Option<&'static str> {
    if operation == ARCH_SET_FS && argument == state.private@[0] {
        Some("guest/private FS identity collision")
    } else if operation != ARCH_SET_GS && operation != ARCH_SET_FS && operation != ARCH_GET_FS
        && operation != ARCH_GET_GS {
        Some("unsupported arch_prctl operation")
    } else {
        None
    }
}

/// The guest bases that a kernel result explains: a successful set changes the one
/// it names, everything else changes nothing.
pub open spec fn explained(
    guest: Seq<u64>,
    operation: u64,
    argument: u64,
    result: i64,
) -> Seq<u64> {
    if result == 0 && operation == ARCH_SET_GS {
        guest.update(1, argument)
    } else if result == 0 && operation == ARCH_SET_FS {
        guest.update(0, argument)
    } else {
        guest
    }
}

/// Why what the kernel reported is not believed.
pub open spec fn completion_error(
    before: State,
    operation: u64,
    argument: u64,
    observed: Observation,
) -> Option<&'static str> {
    if observed.result > 0 || observed.result < -4095 {
        Some("invalid arch_prctl kernel result")
    } else if observed.result == 0 && operation != ARCH_SET_GS && operation != ARCH_SET_FS
        && operation != ARCH_GET_FS && operation != ARCH_GET_GS {
        Some("unsupported arch_prctl completion")
    } else if observed.guest@ != explained(before.guest@, operation, argument, observed.result) {
        Some("arch_prctl guest controls disagree with kernel result")
    } else {
        None
    }
}

fn same_pair(left: &[u64; 2], right: &[u64; 2]) -> (same: bool)
    ensures
        same == (left@ == right@),
        same == (*left == *right),
{
    let same: bool = left[0] == right[0] && left[1] == right[1];
    proof {
        if same {
            assert(left@ =~= right@);
            assert(*left =~= *right);
        }
    }
    same
}

pub fn owned(state: State, tid: i64, phase: Phase) -> (result: bool)
    ensures
        result == is_owned(state, tid, phase),
{
    state.phase == PHASE_DEFERRED && state.deferred == 1 && tid > 0 && state.owner == tid as u64
        && phase == Phase::Runtime && state.private[0] != 0 && state.private[0] != state.guest[0]
}

/// The guest bases, for the thread that owns them.
pub fn bases(state: State, tid: i64, phase: Phase) -> (result: Result<[u64; 2], &'static str>)
    ensures
        result == if is_owned(state, tid, phase) {
            Ok::<[u64; 2], &'static str>(state.guest)
        } else {
            Err("TLS owner/continuation unavailable")
        },
{
    if !owned(state, tid, phase) {
        return Err("TLS owner/continuation unavailable");
    }
    Ok(state.guest)
}

pub fn request(state: State, operation: u64, argument: u64) -> (result: Result<(), &'static str>)
    ensures
        result == match request_error(state, operation, argument) {
            Some(error) => Err::<(), &'static str>(error),
            None => Ok(()),
        },
{
    if operation == ARCH_SET_FS && argument == state.private[0] {
        return Err("guest/private FS identity collision");
    }
    if operation == ARCH_SET_GS || operation == ARCH_SET_FS || operation == ARCH_GET_FS || operation
        == ARCH_GET_GS {
        Ok(())
    } else {
        Err("unsupported arch_prctl operation")
    }
}

pub fn completion(before: State, operation: u64, argument: u64, observed: Observation) -> (result:
    Result<[u64; 2], &'static str>)
    ensures
        match completion_error(before, operation, argument, observed) {
            Some(error) => result == Err::<[u64; 2], &'static str>(error),
            None => result matches Ok(guest) && guest@ == explained(
                before.guest@,
                operation,
                argument,
                observed.result,
            ) && guest@ == observed.guest@,
        },
{
    if observed.result > 0 || observed.result < -4095 {
        return Err("invalid arch_prctl kernel result");
    }
    let mut expected: [u64; 2] = before.guest;
    if observed.result == 0 {
        if operation == ARCH_SET_GS {
            expected[1] = argument;
        } else if operation == ARCH_SET_FS {
            expected[0] = argument;
        } else if operation != ARCH_GET_FS && operation != ARCH_GET_GS {
            return Err("unsupported arch_prctl completion");
        }
    }
    assert(expected@ =~= explained(before.guest@, operation, argument, observed.result));
    if !same_pair(&observed.guest, &expected) {
        return Err("arch_prctl guest controls disagree with kernel result");
    }
    Ok(expected)
}

/// Why an operation is refused before the kernel is asked.
pub open spec fn entry_error(
    before: State,
    tid: i64,
    phase: Phase,
    operation: u64,
    argument: u64,
) -> Option<&'static str> {
    if !is_owned(before, tid, phase) {
        Some("TLS owner/continuation unavailable")
    } else {
        request_error(before, operation, argument)
    }
}

/// Whether the kernel is to be asked at all.
pub fn enter(before: State, tid: i64, phase: Phase, operation: u64, argument: u64) -> (result:
    Result<(), &'static str>)
    ensures
        result == match entry_error(before, tid, phase, operation, argument) {
            Some(error) => Err::<(), &'static str>(error),
            None => Ok(()),
        },
{
    if !owned(before, tid, phase) {
        return Err("TLS owner/continuation unavailable");
    }
    request(before, operation, argument)
}

/// Runs one transaction: refuses before the kernel is asked, asks it through
/// `execute`, and hands on only what the kernel's result explains.
pub fn execute_with<F: FnOnce() -> Observation>(
    before: State,
    tid: i64,
    phase: Phase,
    operation: u64,
    argument: u64,
    execute: F,
) -> (result: Result<Observation, &'static str>)
    requires
        entry_error(before, tid, phase, operation, argument) is None ==> execute.requires(()),
    ensures
        match entry_error(before, tid, phase, operation, argument) {
            Some(error) => result == Err::<Observation, &'static str>(error),
            None => exists|observed: Observation|
                {
                    &&& #[trigger] execute.ensures((), observed)
                    &&& result == match completion_error(before, operation, argument, observed) {
                        Some(error) => Err::<Observation, &'static str>(error),
                        None => Ok(observed),
                    }
                },
        },
{
    match enter(before, tid, phase, operation, argument) {
        Ok(()) => {},
        Err(error) => return Err(error),
    }
    let observed = execute();
    match completion(before, operation, argument, observed) {
        Ok(_) => Ok(observed),
        Err(error) => Err(error),
    }
}

fn same_state(left: &State, right: &State) -> (same: bool)
    ensures
        same == (*left == *right),
{
    same_pair(&left.private, &right.private) && same_pair(&left.guest, &right.guest) && left.owner
        == right.owner && left.phase == right.phase && left.deferred == right.deferred
}

/// Publishes the guest bases of a believed transaction, unless the owner changed
/// meanwhile.
pub fn publish(
    control: &mut State,
    before: State,
    operation: u64,
    argument: u64,
    observed: Observation,
) -> (result: Result<i64, &'static str>)
    ensures
        match completion_error(before, operation, argument, observed) {
            Some(error) => result == Err::<i64, &'static str>(error) && *final(control) == *old(control),
            None => if *old(control) != before {
                result == Err::<i64, &'static str>("TLS owner changed during kernel transaction")
                    && *final(control) == *old(control)
            } else {
                &&& result == Ok::<i64, &'static str>(observed.result)
                &&& final(control).guest@ == explained(
                    before.guest@,
                    operation,
                    argument,
                    observed.result,
                )
                &&& final(control).private == before.private
                &&& final(control).owner == before.owner
                &&& final(control).phase == before.phase
                &&& final(control).deferred == before.deferred
            },
        },
{
    let guest: [u64; 2] = match completion(before, operation, argument, observed) {
        Ok(guest) => guest,
        Err(error) => return Err(error),
    };
    if !same_state(control, &before) {
        return Err("TLS owner changed during kernel transaction");
    }
    control.guest = guest;
    Ok(observed.result)
}

/// Only a successful set changes a guest base, and only the one that it names; a
/// base that was read never becomes the guest's.
pub proof fn only_the_named_base_changes(
    guest: Seq<u64>,
    operation: u64,
    argument: u64,
    result: i64,
)
    requires
        guest.len() == 2,
    ensures
        ({
            let next = explained(guest, operation, argument, result);
            &&& next.len() == 2
            &&& next[0] != guest[0] ==> operation == ARCH_SET_FS && result == 0 && next[0]
                == argument
            &&& next[1] != guest[1] ==> operation == ARCH_SET_GS && result == 0 && next[1]
                == argument
            &&& result != 0 ==> next == guest
        }),
{
}

/// A thread that owned its bases still does after a believed transaction: the
/// guest's FS base never becomes the runtime's.
pub proof fn ownership_survives_publication(
    before: State,
    after: State,
    tid: i64,
    phase: Phase,
    operation: u64,
    argument: u64,
    observed: Observation,
)
    requires
        entry_error(before, tid, phase, operation, argument) is None,
        completion_error(before, operation, argument, observed) is None,
        after.guest@ == explained(before.guest@, operation, argument, observed.result),
        after.private == before.private,
        after.owner == before.owner,
        after.phase == before.phase,
        after.deferred == before.deferred,
    ensures
        is_owned(after, tid, phase),
{
}

} // verus!

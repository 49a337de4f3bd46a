//! What the authority to exit promises.

use vstd::prelude::*;

use crate::owned_context::exit::authorize;
use crate::owned_context::exit::finish_dispatch;
use crate::owned_context::exit::operation;
use crate::owned_context::exit::Binding;
use crate::owned_context::exit::BrokenCallback;
use crate::owned_context::exit::Outcome;
use crate::owned_context::exit::Request;
use crate::owned_context::exit::Unsupported;

verus! {

/// Only the two calls that end a thread or a process are exits.
pub proof fn exits_are_two_calls(number: i64, result: bool)
    requires
        call_ensures(operation, (number,), result),
    ensures
        result <==> number == 60 || number == 231,
{
}

/// An exit is authorized exactly for the one thread of the one process that its binding
/// names, with no other state alive, and is the exit that was asked for.
pub proof fn exits_are_authorized_for_the_only_thread(
    binding: Option<Binding>,
    root: i64,
    tid: i64,
    pid: i64,
    states: usize,
    number: i64,
    args: [u64; 6],
    result: Result<Request, Unsupported>,
)
    requires
        call_ensures(authorize, (binding, root, tid, pid, states, number, args), result),
    ensures
        result is Ok <==> (number == 60 || number == 231) && states == 1 && (binding
            matches Some(bound) && bound.owner > 0 && bound.owner == root && bound.owner == tid
            && bound.owner == pid && bound.generation != 0 && bound.site != 0),
        result matches Ok(request) ==> Some(request.binding) == binding && request.number == number
            && request.args@ == args@,
{
}

/// An authorized exit is consumed under its own binding and under no other.
pub proof fn exits_are_consumed_where_they_were_authorized(
    binding: Binding,
    root: i64,
    tid: i64,
    pid: i64,
    states: usize,
    number: i64,
    args: [u64; 6],
    request: Request,
    other: Binding,
    consumed: bool,
)
    requires
        call_ensures(
            authorize,
            (Some(binding), root, tid, pid, states, number, args),
            Ok::<Request, Unsupported>(request),
        ),
        call_ensures(Request::matches, (&request, other), consumed),
    ensures
        consumed <==> other.owner == binding.owner && other.generation == binding.generation
            && other.number == binding.number && other.site == binding.site,
{
}

/// A callback leaves a result or an exit, and an exit only where the binding is used up.
pub proof fn callbacks_leave_one_thing(
    request: Option<Request>,
    result: Option<i64>,
    bound: bool,
    outcome: Result<Outcome, BrokenCallback>,
)
    requires
        call_ensures(finish_dispatch, (request, result, bound), outcome),
    ensures
        outcome is Ok <==> (request is Some && result is None && !bound) || (request is None
            && result is Some),
        outcome matches Ok(Outcome::Exit(left)) ==> request == Some(left),
        outcome matches Ok(Outcome::Returned(value)) ==> result == Some(value),
        request is None && result is None <==> outcome == Err::<Outcome, BrokenCallback>(
            BrokenCallback::Unset,
        ),
{
}

} // verus!

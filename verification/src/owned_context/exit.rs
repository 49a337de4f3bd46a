//! Authority of an owned thread to end its process.

use vstd::prelude::*;

pub mod laws;

use crate::sys::SYS_EXIT;
use crate::sys::SYS_EXIT_GROUP;

verus! {

#[derive(Clone, Copy, Debug, PartialEq, Eq, Structural)]
pub struct Binding {
    pub owner: i64,
    pub generation: u64,
    pub number: i64,
    pub site: u64,
}

/// An authorized exit, to be consumed by the thread that it is bound to.
#[derive(Debug, PartialEq, Eq)]
pub struct Request {
    pub binding: Binding,
    pub number: i64,
    pub args: [u64; 6],
}

#[derive(Debug, PartialEq, Eq)]
pub enum Outcome {
    Returned(i64),
    Exit(Request),
}

/// The thread may not exit this way.
#[derive(Clone, Copy, Debug, PartialEq, Eq, Structural)]
pub struct Unsupported;

pub open spec fn is_exit(number: i64) -> bool {
    number == SYS_EXIT || number == SYS_EXIT_GROUP
}

/// A live binding of the only thread of the root process, which has the only state.
pub open spec fn may_exit(
    binding: Binding,
    root: i64,
    tid: i64,
    pid: i64,
    states: usize,
    number: i64,
) -> bool {
    &&& is_exit(number)
    &&& binding.owner > 0
    &&& binding.generation != 0
    &&& binding.site != 0
    &&& root == binding.owner
    &&& tid == binding.owner
    &&& pid == binding.owner
    &&& states == 1
}

pub fn operation(number: i64) -> (result: bool)
    ensures
        result == is_exit(number),
{
    number == SYS_EXIT || number == SYS_EXIT_GROUP
}

/// Binds an exit to the thread that asked for it, keeping its number and arguments.
pub fn authorize(
    binding: Option<Binding>,
    root: i64,
    tid: i64,
    pid: i64,
    states: usize,
    number: i64,
    args: [u64; 6],
) -> (result: Result<Request, Unsupported>)
    ensures
        binding is Some && may_exit(binding->0, root, tid, pid, states, number) ==> result == Ok::<
            Request,
            Unsupported,
        >((Request { binding: binding->0, number, args })),
        !(binding is Some && may_exit(binding->0, root, tid, pid, states, number)) ==> result
            == Err::<Request, Unsupported>(Unsupported),
{
    let binding = match binding {
        Some(binding) => binding,
        None => return Err(Unsupported),
    };
    if !operation(number) || binding.owner <= 0 || binding.generation == 0 || binding.site == 0
        || root != binding.owner || tid != binding.owner || pid != root || states != 1 {
        return Err(Unsupported);
    }
    Ok(Request { binding, number, args })
}

/// The request may be consumed under this binding.
pub open spec fn is_consumable(request: Request, binding: Binding) -> bool {
    request.binding == binding && is_exit(request.number)
}

impl Request {
    /// Whether the request may be consumed under this binding.
    pub fn matches(&self, binding: Binding) -> (result: bool)
        ensures
            result == is_consumable(*self, binding),
    {
        self.binding == binding && operation(self.number)
    }
}

/// What a broken callback left behind.
#[derive(Clone, Copy, Debug, PartialEq, Eq, Structural)]
pub enum BrokenCallback {
    /// An exit beside a result, or one that did not use up the binding.
    Exit,
    /// Neither an exit nor a result.
    Unset,
}

impl BrokenCallback {
    /// The stage under which it ends the process.
    pub fn stage(self) -> (stage: &'static str)
        ensures
            stage == match self {
                BrokenCallback::Exit => "owned-exit/outcome",
                BrokenCallback::Unset => "owned-syscall/unset-result",
            },
    {
        match self {
            BrokenCallback::Exit => "owned-exit/outcome",
            BrokenCallback::Unset => "owned-syscall/unset-result",
        }
    }
}

/// What a dispatched system call came to: a request only where no result was set and
/// the binding was taken, a result only where one was set.
pub open spec fn dispatch_outcome(
    request: Option<Request>,
    result: Option<i64>,
    bound: bool,
) -> Result<Outcome, BrokenCallback> {
    match request {
        Some(request) => if result is Some || bound {
            Err(BrokenCallback::Exit)
        } else {
            Ok(Outcome::Exit(request))
        },
        None => match result {
            Some(value) => Ok(Outcome::Returned(value)),
            None => Err(BrokenCallback::Unset),
        },
    }
}

/// Judges the state that a callback left behind.
pub fn finish_dispatch(request: Option<Request>, result: Option<i64>, bound: bool) -> (outcome:
    Result<Outcome, BrokenCallback>)
    ensures
        outcome == dispatch_outcome(request, result, bound),
{
    match request {
        Some(request) => if result.is_some() || bound {
            Err(BrokenCallback::Exit)
        } else {
            Ok(Outcome::Exit(request))
        },
        None => match result {
            Some(value) => Ok(Outcome::Returned(value)),
            None => Err(BrokenCallback::Unset),
        },
    }
}

/// An authorized request is consumed under its own binding and under no other.
pub proof fn requests_are_bound(
    binding: Binding,
    root: i64,
    tid: i64,
    pid: i64,
    states: usize,
    number: i64,
    args: [u64; 6],
    other: Binding,
)
    requires
        may_exit(binding, root, tid, pid, states, number),
    ensures
        is_consumable((Request { binding, number, args }), other) <==> other == binding,
{
}

} // verus!

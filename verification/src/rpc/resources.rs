//! The life of the connections that share one owner: counted while they live, drained
//! when they end.

use vstd::prelude::*;

pub mod laws;

verus! {

#[derive(Clone, Copy, Debug, PartialEq, Eq, Structural)]
pub enum AcquireError {
    Closed,
    Exhausted,
}

impl AcquireError {
    pub fn text(self) -> (text: &'static str)
        ensures
            text == match self {
                AcquireError::Closed => "RPC resource lifetime is closing or failed",
                AcquireError::Exhausted => "RPC resource count exhausted",
            },
    {
        match self {
            AcquireError::Closed => "RPC resource lifetime is closing or failed",
            AcquireError::Exhausted => "RPC resource count exhausted",
        }
    }
}

/// Resources in use, and who waits for the last of them to be released.
#[derive(Debug)]
pub struct Resources<W> {
    pub active: usize,
    pub closing: bool,
    pub failure: Option<i32>,
    pub waiter: Option<W>,
}

/// One resource in use, to be released once.
#[derive(Debug)]
pub struct Lease {
    token: (),
}

/// What draining comes to for now.
#[derive(Debug)]
pub enum Drain<W> {
    /// Resources can still be acquired: nothing can be drained.
    Open,
    /// All are released; the first failure to release one, if any.
    Finished(Result<(), i32>),
    /// Some are in use. The waiter that was replaced, if any, is let go.
    Pending(Option<W>),
}

/// Something can be acquired.
pub open spec fn acquirable<W>(resources: Resources<W>) -> bool {
    !resources.closing && resources.failure is None && resources.active < usize::MAX
}

pub open spec fn acquired<W>(resources: Resources<W>) -> Resources<W> {
    Resources { active: (resources.active + 1) as usize, ..resources }
}

/// The resources after the release of one, and the waiter to be woken.
pub open spec fn released<W>(resources: Resources<W>) -> (Resources<W>, Option<W>) {
    let active = (resources.active - 1) as usize;
    if active == 0 {
        (Resources { active, waiter: None, ..resources }, resources.waiter)
    } else {
        (Resources { active, ..resources }, None)
    }
}

/// The first failure is kept.
pub open spec fn failure_recorded<W>(resources: Resources<W>, errno: i32) -> Resources<W> {
    Resources {
        failure: match resources.failure {
            Some(first) => Some(first),
            None => Some(errno),
        },
        ..resources
    }
}

pub open spec fn drained<W>(resources: Resources<W>, waiter: W) -> (Resources<W>, Drain<W>) {
    if !resources.closing {
        (resources, Drain::Open)
    } else if resources.active == 0 {
        (
            resources,
            Drain::Finished(
                match resources.failure {
                    Some(errno) => Err(errno),
                    None => Ok(()),
                },
            ),
        )
    } else {
        (Resources { waiter: Some(waiter), ..resources }, Drain::Pending(resources.waiter))
    }
}

impl<W> Resources<W> {
    pub fn new() -> (resources: Self)
        ensures
            resources.active == 0,
            !resources.closing,
            resources.failure is None,
            resources.waiter is None,
    {
        Resources { active: 0, closing: false, failure: None, waiter: None }
    }

    pub fn acquire(&mut self) -> (result: Result<Lease, AcquireError>)
        ensures
            acquirable(*old(self)) ==> result is Ok && *final(self) == acquired(*old(self)),
            !acquirable(*old(self)) ==> *final(self) == *old(self) && result == Err::<
                Lease,
                AcquireError,
            >(
                if old(self).closing || old(self).failure is Some {
                    AcquireError::Closed
                } else {
                    AcquireError::Exhausted
                },
            ),
    {
        if self.closing || self.failure.is_some() {
            return Err(AcquireError::Closed);
        }
        match self.active.checked_add(1) {
            Some(active) => {
                self.active = active;
                Ok(Lease { token: () })
            },
            None => Err(AcquireError::Exhausted),
        }
    }

    pub fn close(&mut self)
        ensures
            *final(self) == (Resources { closing: true, ..*old(self) }),
    {
        self.closing = true;
    }

    /// Asks for all resources to be released. While some are in use the given waiter
    /// takes the place of the last.
    pub fn drain(&mut self, waiter: W) -> (drain: Drain<W>)
        ensures
            (*final(self), drain) == drained(*old(self), waiter),
    {
        if !self.closing {
            return Drain::Open;
        }
        if self.active == 0 {
            return match self.failure {
                Some(errno) => Drain::Finished(Err(errno)),
                None => Drain::Finished(Ok(())),
            };
        }
        let replaced = self.waiter.take();
        self.waiter = Some(waiter);
        Drain::Pending(replaced)
    }

    pub fn active(&self) -> (active: usize)
        ensures
            active == self.active,
    {
        self.active
    }

    /// Records a failure to release the resource of a lease.
    pub fn failed(&mut self, _lease: &Lease, errno: i32)
        ensures
            *final(self) == failure_recorded(*old(self), errno),
    {
        if self.failure.is_none() {
            self.failure = Some(errno);
        }
    }

    /// Releases the resource of a lease. The last one gives out the waiter, to be woken.
    pub fn release(&mut self, _lease: Lease) -> (woken: Option<W>)
        requires
            old(self).active > 0,
        ensures
            (*final(self), woken) == released(*old(self)),
    {
        self.active = self.active - 1;
        if self.active == 0 {
            self.waiter.take()
        } else {
            None
        }
    }
}

/// Releasing what was acquired leaves as many resources in use as before.
pub proof fn leases_are_counted<W>(resources: Resources<W>)
    requires
        acquirable(resources),
    ensures
        released(acquired(resources)).0.active == resources.active,
        released(acquired(resources)).0.failure == resources.failure,
{
}

/// Draining succeeds exactly when the resources are closed, none is in use and no
/// release failed. Closed resources stay closed, and nothing can be acquired from them.
pub proof fn drained_resources_are_released_and_closed<W>(
    resources: Resources<W>,
    waiter: W,
    errno: i32,
)
    ensures
        drained(resources, waiter).1 == Drain::<W>::Finished(Ok(())) <==> resources.closing
            && resources.active == 0 && resources.failure is None,
        resources.closing ==> !acquirable(resources) && drained(resources, waiter).0.closing
            && released(resources).0.closing && failure_recorded(resources, errno).closing,
{
}

/// A failed release is never forgotten: what is recorded later does not replace it, and
/// the drain reports it.
pub proof fn failures_are_reported<W>(resources: Resources<W>, first: i32, later: i32, waiter: W)
    requires
        resources.failure is None,
        resources.closing,
        resources.active == 0,
    ensures
        drained(failure_recorded(failure_recorded(resources, first), later), waiter).1 == Drain::<
            W,
        >::Finished(Err(first)),
        !acquirable(failure_recorded(resources, first)),
{
}

/// The waiter of the last drain is woken when the last resource is released.
pub proof fn the_last_release_wakes_the_waiter<W>(resources: Resources<W>, waiter: W)
    requires
        resources.closing,
        resources.active == 1,
    ensures
        drained(resources, waiter).1 == Drain::Pending(resources.waiter),
        released(drained(resources, waiter).0).1 == Some(waiter),
{
}

} // verus!

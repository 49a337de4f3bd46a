//! How deep a thread is inside the runtime, an installation or an allocation.

use vstd::prelude::*;

pub mod laws;

verus! {

/// The depths of one thread.
#[derive(Clone, Copy, Debug, PartialEq, Eq, Structural)]
pub struct Domain {
    pub depth: u64,
    pub installation: u64,
    pub allocation: u64,
}

impl Default for Domain {
    fn default() -> (domain: Self)
        ensures
            domain == (Domain { depth: 0, installation: 0, allocation: 0 }),
    {
        Domain { depth: 0, installation: 0, allocation: 0 }
    }
}

/// Whether an installation is going on.
pub open spec fn is_installing(domain: Domain) -> bool {
    domain.installation != 0
}

/// Whether what is allocated is the runtime's.
pub open spec fn is_allocating(domain: Domain) -> bool {
    domain.depth != 0 || domain.allocation != 0
}

/// Whether a handler interrupted the runtime, as opposed to the guest. Two of the
/// scopes are the handler's own; without both of them nothing can be said.
pub open spec fn interrupted_runtime(domain: Domain, nested_callback: bool) -> Option<bool> {
    if domain.depth < 2 {
        None
    } else {
        Some(domain.depth > 2 || nested_callback)
    }
}

impl Domain {
    /// Enters the runtime.
    pub fn enter(&mut self)
        requires
            old(self).depth < u64::MAX,
        ensures
            *final(self) == (Domain { depth: (old(self).depth + 1) as u64, ..*old(self) }),
    {
        self.depth = self.depth + 1;
    }

    /// Leaves the runtime.
    pub fn leave(&mut self)
        requires
            old(self).depth > 0,
        ensures
            *final(self) == (Domain { depth: (old(self).depth - 1) as u64, ..*old(self) }),
    {
        self.depth = self.depth - 1;
    }

    pub fn installation_enter(&mut self)
        requires
            old(self).installation < u64::MAX,
        ensures
            *final(self) == (Domain {
                installation: (old(self).installation + 1) as u64,
                ..*old(self)
            }),
    {
        self.installation = self.installation + 1;
    }

    pub fn installation_leave(&mut self)
        requires
            old(self).installation > 0,
        ensures
            *final(self) == (Domain {
                installation: (old(self).installation - 1) as u64,
                ..*old(self)
            }),
    {
        self.installation = self.installation - 1;
    }

    pub fn installation_active(&self) -> (active: bool)
        ensures
            active == is_installing(*self),
    {
        self.installation != 0
    }

    pub fn allocation_enter(&mut self)
        requires
            old(self).allocation < u64::MAX,
        ensures
            *final(self) == (Domain {
                allocation: (old(self).allocation + 1) as u64,
                ..*old(self)
            }),
    {
        self.allocation = self.allocation + 1;
    }

    pub fn allocation_leave(&mut self)
        requires
            old(self).allocation > 0,
        ensures
            *final(self) == (Domain {
                allocation: (old(self).allocation - 1) as u64,
                ..*old(self)
            }),
    {
        self.allocation = self.allocation - 1;
    }

    pub fn allocation_active(&self) -> (active: bool)
        ensures
            active == is_allocating(*self),
    {
        self.depth != 0 || self.allocation != 0
    }

    /// Whether a clocked handler interrupted the runtime, from inside the scopes of the
    /// clock and of the handler.
    pub fn interrupted_runtime_in_clocked_preload_handler(&self, nested_callback: bool) -> (result:
        Option<bool>)
        ensures
            result == interrupted_runtime(*self, nested_callback),
    {
        match self.depth.checked_sub(2) {
            Some(inherited) => Some(inherited != 0 || nested_callback),
            None => None,
        }
    }

    /// Whether only the clock's own scope is left.
    pub fn terminal_clock_scope(&self) -> (result: bool)
        ensures
            result == (self.depth == 1),
    {
        self.depth == 1
    }
}

/// From inside its two scopes a handler tells the runtime from the guest: it
/// interrupted the runtime exactly if the thread was inside before, or in a tool
/// callback.
pub proof fn handlers_tell_whom_they_interrupted(before: Domain, nested_callback: bool)
    requires
        before.depth <= u64::MAX - 2,
    ensures
        interrupted_runtime(
            (Domain { depth: (before.depth + 2) as u64, ..before }),
            nested_callback,
        ) == Some(before.depth != 0 || nested_callback),
{
}

} // verus!

//! Guest time in retired conditional branches, without those of tool callbacks.

use vstd::prelude::*;

pub mod laws;

verus! {

#[derive(Clone, Copy, Debug, PartialEq, Eq, Structural)]
pub enum ClockError {
    /// An active boundary cannot be bound to another counter.
    RebindActive,
    /// The calling thread has no identity.
    OwnerUnknown,
    /// A counter that was asked for could not be made.
    CreateFailed,
    /// The counter could not be published.
    PublishFailed,
    /// The counter could not be read.
    Read(i32),
    /// A callback was entered while the boundary still counted.
    EnteredBeforeExclusion,
    /// The boundary counted again before a callback was left.
    RestartedBeforeTeardown,
    /// A callback was left that was never entered.
    DepthUnderflow,
    /// The clock was read while the boundary counted.
    ReadOutsideExclusion,
    /// A paused boundary has no counter.
    Unavailable,
    /// This host has no counter.
    Unsupported,
}

impl ClockError {
    /// The error in words, where it is not one of the system's.
    pub fn text(self) -> (text: Option<&'static str>)
        ensures
            text == match self {
                ClockError::RebindActive => Some("clock boundary cannot rebind an active counter"),
                ClockError::EnteredBeforeExclusion => Some(
                    "Rust callback reached before clock exclusion",
                ),
                ClockError::RestartedBeforeTeardown => Some(
                    "clock restarted before Rust callback teardown",
                ),
                ClockError::DepthUnderflow => Some("LiteInst RCB handler depth underflow"),
                ClockError::ReadOutsideExclusion => Some("clock read outside excluded runtime"),
                ClockError::Unavailable => Some("clock unavailable"),
                ClockError::Unsupported => Some(
                    "LiteInst in-guest RCB clock is unavailable on this host",
                ),
                ClockError::OwnerUnknown => None,
                ClockError::CreateFailed => None,
                ClockError::PublishFailed => None,
                ClockError::Read(_) => None,
            },
    {
        match self {
            ClockError::RebindActive => Some("clock boundary cannot rebind an active counter"),
            ClockError::EnteredBeforeExclusion => Some(
                "Rust callback reached before clock exclusion",
            ),
            ClockError::RestartedBeforeTeardown => Some(
                "clock restarted before Rust callback teardown",
            ),
            ClockError::DepthUnderflow => Some("LiteInst RCB handler depth underflow"),
            ClockError::ReadOutsideExclusion => Some("clock read outside excluded runtime"),
            ClockError::Unavailable => Some("clock unavailable"),
            ClockError::Unsupported => Some(
                "LiteInst in-guest RCB clock is unavailable on this host",
            ),
            ClockError::OwnerUnknown => None,
            ClockError::CreateFailed => None,
            ClockError::PublishFailed => None,
            ClockError::Read(_) => None,
        }
    }
}

/// Whether something outside stops the counter around the runtime.
#[derive(Clone, Copy, Debug, PartialEq, Eq, Structural)]
pub enum Boundary {
    Inactive,
    Counting,
    Paused,
}

/// One reading of the counter: its value, nothing where there is no counter, or the
/// error.
pub type Sample = Result<Option<u64>, i32>;

/// What one thread knows of its counter.
#[derive(Clone, Copy, Debug, PartialEq, Eq, Structural)]
pub struct RcbClock {
    /// There is a counter.
    pub present: bool,
    /// The thread that the counter measures.
    pub owner: i32,
    /// The thread was found to have no counter.
    pub unavailable: bool,
    /// What the counter read when the outermost active callback was entered.
    pub entry: u64,
    /// What was spent in callbacks that were left.
    pub deduction: u64,
    /// Callbacks that are active.
    pub depth: u32,
}

impl Default for RcbClock {
    fn default() -> (clock: Self)
        ensures
            clock == (RcbClock {
                present: false,
                owner: 0,
                unavailable: false,
                entry: 0,
                deduction: 0,
                depth: 0,
            }),
    {
        RcbClock {
            present: false,
            owner: 0,
            unavailable: false,
            entry: 0,
            deduction: 0,
            depth: 0,
        }
    }
}

/// What came of making a counter.
#[derive(Clone, Copy, Debug, PartialEq, Eq)]
pub enum Creation {
    Failed,
    /// The counter was made; what it read at once, and whether it was published.
    Created { sample: Result<u64, i32>, published: bool },
}

pub open spec fn sat_sub(left: u64, right: u64) -> u64 {
    if left >= right {
        (left - right) as u64
    } else {
        0
    }
}

pub open spec fn sat_add(left: u64, right: u64) -> u64 {
    if left + right <= u64::MAX {
        (left + right) as u64
    } else {
        u64::MAX
    }
}

pub open spec fn deeper(depth: u32) -> u32 {
    if depth == u32::MAX {
        u32::MAX
    } else {
        (depth + 1) as u32
    }
}

/// Entering a callback: the outermost one remembers what the counter read.
pub open spec fn entered(clock: RcbClock, boundary: Boundary, sample: Sample) -> (
    RcbClock,
    Result<(), ClockError>,
) {
    match boundary {
        Boundary::Paused => (clock, Ok(())),
        Boundary::Counting => (clock, Err(ClockError::EnteredBeforeExclusion)),
        Boundary::Inactive => match sample {
            Err(error) => (clock, Err(ClockError::Read(error))),
            Ok(None) => (RcbClock { depth: deeper(clock.depth), ..clock }, Ok(())),
            Ok(Some(value)) => (
                RcbClock {
                    entry: if clock.depth == 0 {
                        value
                    } else {
                        clock.entry
                    },
                    depth: deeper(clock.depth),
                    ..clock
                },
                Ok(()),
            ),
        },
    }
}

/// Leaving a callback, and whether it was the outermost one.
pub open spec fn left(clock: RcbClock, boundary: Boundary) -> (RcbClock, Result<bool, ClockError>) {
    match boundary {
        Boundary::Paused => (clock, Ok(false)),
        Boundary::Counting => (clock, Err(ClockError::RestartedBeforeTeardown)),
        Boundary::Inactive => if clock.depth == 0 {
            (clock, Err(ClockError::DepthUnderflow))
        } else {
            (RcbClock { depth: (clock.depth - 1) as u32, ..clock }, Ok(clock.depth == 1))
        },
    }
}

/// Deducting what was spent since the outermost callback was entered.
pub open spec fn deducted(clock: RcbClock, sample: Sample) -> (RcbClock, Result<(), ClockError>) {
    match sample {
        Err(error) => (clock, Err(ClockError::Read(error))),
        Ok(None) => (clock, Ok(())),
        Ok(Some(value)) => (
            RcbClock {
                deduction: sat_add(clock.deduction, sat_sub(value, clock.entry)),
                entry: 0,
                ..clock
            },
            Ok(()),
        ),
    }
}

/// Guest time: what the counter reads without what was spent in callbacks.
pub open spec fn guest_time(clock: RcbClock, boundary: Boundary, sample: Sample) -> Result<
    u64,
    ClockError,
> {
    match boundary {
        Boundary::Counting => Err(ClockError::ReadOutsideExclusion),
        Boundary::Paused => match sample {
            Err(error) => Err(ClockError::Read(error)),
            Ok(None) => Err(ClockError::Unavailable),
            Ok(Some(value)) => Ok(value),
        },
        Boundary::Inactive => match sample {
            Err(error) => Err(ClockError::Read(error)),
            Ok(None) => Err(ClockError::Unsupported),
            Ok(Some(value)) => {
                let active = if clock.depth == 0 {
                    0
                } else {
                    sat_sub(value, clock.entry)
                };
                Ok(sat_sub(sat_sub(value, clock.deduction), active))
            },
        },
    }
}

/// Nothing is known of a counter but whose it would be. The callbacks that are active
/// stay so.
pub open spec fn unbound(clock: RcbClock, owner: i32) -> RcbClock {
    RcbClock {
        present: false,
        owner,
        unavailable: true,
        entry: 0,
        deduction: 0,
        depth: clock.depth,
    }
}

impl RcbClock {
    /// Whether the counter must be bound to the calling thread first.
    pub fn is_foreign(&self, owner: i32) -> (result: bool)
        ensures
            result == (self.owner != owner),
    {
        self.owner != owner
    }

    /// Starts binding a counter to a thread. Until one is made the thread counts as one
    /// that has none, so that what is called meanwhile does not start over.
    pub fn initialize_rcb_clock(&mut self, boundary: Boundary, owner: i32) -> (result: Result<
        (),
        ClockError,
    >)
        ensures
            boundary != Boundary::Inactive ==> result == Err::<(), ClockError>(
                ClockError::RebindActive,
            ) && *final(self) == *old(self),
            boundary == Boundary::Inactive && owner <= 0 ==> result == Err::<(), ClockError>(
                ClockError::OwnerUnknown,
            ) && *final(self) == *old(self),
            boundary == Boundary::Inactive && owner > 0 ==> result == Ok::<(), ClockError>(())
                && *final(self) == unbound(*old(self), owner),
    {
        if boundary != Boundary::Inactive {
            return Err(ClockError::RebindActive);
        }
        if owner <= 0 {
            return Err(ClockError::OwnerUnknown);
        }
        self.present = false;
        self.owner = owner;
        self.unavailable = true;
        self.entry = 0;
        self.deduction = 0;
        Ok(())
    }

    /// Takes what came of making the counter. A counter is optional unless it was asked
    /// for.
    pub fn initialized(&mut self, creation: Creation, requested: bool) -> (result: Result<
        (),
        ClockError,
    >)
        ensures
            match creation {
                Creation::Failed => *final(self) == *old(self) && result == if requested {
                    Err::<(), ClockError>(ClockError::CreateFailed)
                } else {
                    Ok(())
                },
                Creation::Created { sample, published } => match sample {
                    Err(error) if old(self).depth != 0 => *final(self) == *old(self) && result
                        == Err::<(), ClockError>(ClockError::Read(error)),
                    _ => if requested && !published {
                        &&& *final(self) == (RcbClock { present: true, ..*old(self) })
                        &&& result == Err::<(), ClockError>(ClockError::PublishFailed)
                    } else {
                        &&& *final(self) == (RcbClock {
                            present: true,
                            unavailable: false,
                            entry: if old(self).depth == 0 {
                                0
                            } else {
                                sample->Ok_0
                            },
                            deduction: 0,
                            ..*old(self)
                        })
                        &&& result == Ok::<(), ClockError>(())
                    },
                },
            },
    {
        match creation {
            Creation::Failed => if requested {
                Err(ClockError::CreateFailed)
            } else {
                Ok(())
            },
            Creation::Created { sample, published } => {
                let mut entry: u64 = 0;
                if self.depth != 0 {
                    match sample {
                        Ok(value) => entry = value,
                        Err(error) => return Err(ClockError::Read(error)),
                    }
                }
                self.present = true;
                if requested && !published {
                    return Err(ClockError::PublishFailed);
                }
                self.unavailable = false;
                self.entry = entry;
                self.deduction = 0;
                Ok(())
            },
        }
    }

    /// Marks the entry into a callback.
    pub fn enter_rcb_handler(&mut self, boundary: Boundary, sample: Sample) -> (result: Result<
        (),
        ClockError,
    >)
        ensures
            (*final(self), result) == entered(*old(self), boundary, sample),
    {
        match boundary {
            Boundary::Paused => return Ok(()),
            Boundary::Counting => return Err(ClockError::EnteredBeforeExclusion),
            Boundary::Inactive => {},
        }
        match sample {
            Err(error) => return Err(ClockError::Read(error)),
            Ok(None) => {},
            Ok(Some(value)) => {
                if self.depth == 0 {
                    self.entry = value;
                }
            },
        }
        self.depth = self.depth.saturating_add(1);
        Ok(())
    }

    /// Marks the exit from a callback. After the outermost one the counter is read, and
    /// the reading deducted.
    pub fn leave_rcb_handler(&mut self, boundary: Boundary) -> (result: Result<bool, ClockError>)
        ensures
            (*final(self), result) == left(*old(self), boundary),
    {
        match boundary {
            Boundary::Paused => return Ok(false),
            Boundary::Counting => return Err(ClockError::RestartedBeforeTeardown),
            Boundary::Inactive => {},
        }
        let depth: u32 = self.depth;
        if depth == 0 {
            return Err(ClockError::DepthUnderflow);
        }
        self.depth = depth - 1;
        Ok(depth == 1)
    }

    /// Deducts what was spent in the callback that was left last.
    pub fn deduct_callback(&mut self, sample: Sample) -> (result: Result<(), ClockError>)
        ensures
            (*final(self), result) == deducted(*old(self), sample),
    {
        match sample {
            Err(error) => Err(ClockError::Read(error)),
            Ok(None) => Ok(()),
            Ok(Some(value)) => {
                self.deduction = self.deduction.saturating_add(value.saturating_sub(self.entry));
                self.entry = 0;
                Ok(())
            },
        }
    }

    /// Guest time, without all that was spent in callbacks, those that are active
    /// included.
    pub fn read_guest_rcb_clock(&self, boundary: Boundary, sample: Sample) -> (result: Result<
        u64,
        ClockError,
    >)
        ensures
            result == guest_time(*self, boundary, sample),
    {
        match boundary {
            Boundary::Counting => Err(ClockError::ReadOutsideExclusion),
            Boundary::Paused => match sample {
                Err(error) => Err(ClockError::Read(error)),
                Ok(None) => Err(ClockError::Unavailable),
                Ok(Some(value)) => Ok(value),
            },
            Boundary::Inactive => match sample {
                Err(error) => Err(ClockError::Read(error)),
                Ok(None) => Err(ClockError::Unsupported),
                Ok(Some(value)) => {
                    let active: u64 = if self.depth == 0 {
                        0
                    } else {
                        value.saturating_sub(self.entry)
                    };
                    Ok(value.saturating_sub(self.deduction).saturating_sub(active))
                },
            },
        }
    }
}

/// Guest time stands still inside a callback, and a callback that was left does not
/// count: time goes on from where it was entered.
pub proof fn callbacks_take_no_guest_time(
    clock: RcbClock,
    enter: u64,
    during: u64,
    leave: u64,
    later: u64,
)
    requires
        clock.depth == 0,
        clock.deduction <= enter <= during <= leave <= later,
    ensures
        ({
            let inside = entered(clock, Boundary::Inactive, Ok(Some(enter))).0;
            let outside = left(inside, Boundary::Inactive);
            let after = deducted(outside.0, Ok(Some(leave))).0;
            let before = guest_time(clock, Boundary::Inactive, Ok(Some(enter)));
            &&& before is Ok
            &&& guest_time(inside, Boundary::Inactive, Ok(Some(during))) == before
            &&& outside.1 == Ok::<bool, ClockError>(true)
            &&& after.depth == 0
            &&& guest_time(after, Boundary::Inactive, Ok(Some(later))) == Ok::<u64, ClockError>(
                ((before->Ok_0) + (later - leave)) as u64,
            )
        }),
{
}

/// A nested callback changes neither what its outer one remembers nor what was
/// deducted.
pub proof fn nested_callbacks_are_part_of_the_outer(clock: RcbClock, enter: Sample)
    requires
        0 < clock.depth < u32::MAX,
        enter is Ok,
    ensures
        ({
            let inside = entered(clock, Boundary::Inactive, enter).0;
            left(inside, Boundary::Inactive) == (clock, Ok::<bool, ClockError>(false))
        }),
{
}

} // verus!

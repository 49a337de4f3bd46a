//! Precise owned timers.
//!
//! A timer holds at most one request. The controller that counts instructions is
//! asked, never imitated: `*_question` says what to ask of it, and the transition
//! takes its reply. While a modeled interruption is open the request stands still,
//! whatever a callback asks for.

use vstd::prelude::*;

pub mod laws;

verus! {

/// One arming of the controller.
#[derive(Clone, Copy, Debug, PartialEq, Eq, Structural)]
pub struct Generation {
    pub number: u64,
}

impl Generation {
    pub fn value(self) -> (number: u64)
        ensures
            number == self.number,
    {
        self.number
    }
}

/// What the controller decides.
#[derive(Clone, Copy, Debug, PartialEq, Eq, Structural)]
pub enum Decision {
    Step,
    Deliver,
}

/// One completed instruction, as the controller is told of it.
#[derive(Clone, Copy, Debug, PartialEq, Eq, Structural)]
pub struct Observation {
    pub generation: Generation,
    pub sequence: u64,
    pub clock: u64,
    pub rip: u64,
}

#[derive(Clone, Copy, Debug, PartialEq, Eq, Structural)]
pub struct Ticket {
    pub generation: Generation,
    pub sequence: u64,
}

#[derive(Clone, Copy, Debug, PartialEq, Eq, Structural)]
pub enum Errno {
    EBUSY,
    EXDEV,
    EINVAL,
    EOVERFLOW,
    EOPNOTSUPP,
    ECANCELED,
}

impl Errno {
    /// The number that the kernel interface gives the error.
    pub fn code(self) -> (code: i32)
        ensures
            code == match self {
                Errno::EBUSY => crate::sys::EBUSY,
                Errno::EXDEV => crate::sys::EXDEV,
                Errno::EINVAL => crate::sys::EINVAL,
                Errno::EOVERFLOW => crate::sys::EOVERFLOW,
                Errno::EOPNOTSUPP => crate::sys::EOPNOTSUPP,
                Errno::ECANCELED => crate::sys::ECANCELED,
            },
    {
        match self {
            Errno::EBUSY => crate::sys::EBUSY,
            Errno::EXDEV => crate::sys::EXDEV,
            Errno::EINVAL => crate::sys::EINVAL,
            Errno::EOVERFLOW => crate::sys::EOVERFLOW,
            Errno::EOPNOTSUPP => crate::sys::EOPNOTSUPP,
            Errno::ECANCELED => crate::sys::ECANCELED,
        }
    }
}

/// When a timer is to fire: after retired branches, after branches and further
/// instructions, or after a number of nanoseconds.
#[derive(Clone, Copy, Debug, PartialEq, Eq, Structural)]
pub enum TimerSchedule {
    Rcbs(u64),
    RcbsAndInstructions(u64, u64),
    Time(u64),
}

#[derive(Clone, Copy, Debug, PartialEq, Eq, Structural)]
pub struct OwnedTimerPosition {
    pub generation: u64,
    pub sequence: u64,
    pub rip: u64,
    pub clock: u64,
    pub target: u64,
    pub suffix: u64,
}

#[derive(Clone, Copy, Debug, PartialEq, Eq, Structural)]
pub struct OwnedRequest {
    pub ticket: Ticket,
    pub target: u64,
    pub suffix: u64,
    pub immediate: bool,
    pub clock: u64,
}

/// The name of one modeled interruption.
#[derive(Debug, PartialEq, Eq, Structural)]
pub struct ModeledInterruption {
    pub owner: i64,
    pub sequence: u64,
}

#[derive(Clone, Copy, Debug, PartialEq, Eq, Structural)]
pub enum InterruptionResolution {
    Preserved(Option<OwnedTimerPosition>),
    Replaced,
}

#[derive(Clone, Copy, Debug, PartialEq, Eq, Structural)]
pub struct DeferredRequest {
    pub clock: u64,
    pub target: u64,
    pub rcbs: u64,
    pub suffix: u64,
}

#[derive(Debug, PartialEq, Eq, Structural)]
pub struct InterruptedTimer {
    pub identity: ModeledInterruption,
    pub pc: u64,
    pub clock: u64,
    pub replacement: Option<DeferredRequest>,
    pub failed: bool,
}

/// The timer of one thread, without the controller that counts for it.
#[derive(Debug)]
pub struct OwnedTimer {
    pub owner: i64,
    pub request: Option<OwnedRequest>,
    pub window: Option<(u64, u64)>,
    pub delivered: Option<OwnedTimerPosition>,
    pub interruption_sequence: u64,
    pub interrupted: Option<InterruptedTimer>,
}

// ---------------------------------------------------------------------------
// Access
// ---------------------------------------------------------------------------

/// Who may touch the timer of a thread: nobody while it is in use, and its own
/// thread while the clock stands still.
pub fn check_access(borrowed: bool, owner: Option<i64>, tid: i64, paused: bool) -> (result: Result<
    (),
    Errno,
>)
    ensures
        result == if borrowed {
            Err::<(), Errno>(Errno::EBUSY)
        } else if owner is None {
            Err(Errno::EOPNOTSUPP)
        } else if owner->0 != tid {
            Err(Errno::EXDEV)
        } else if !paused {
            Err(Errno::EBUSY)
        } else {
            Ok(())
        },
{
    if borrowed {
        return Err(Errno::EBUSY);
    }
    match owner {
        Some(owner) => {
            if owner != tid {
                return Err(Errno::EXDEV);
            }
        },
        None => return Err(Errno::EOPNOTSUPP),
    }
    if !paused {
        return Err(Errno::EBUSY);
    }
    Ok(())
}

/// Why a timer cannot be installed.
#[derive(Clone, Copy, Debug, PartialEq, Eq, Structural)]
pub enum InstallError {
    ClockNotOwned,
    AlreadyInstalled,
}

impl InstallError {
    pub fn text(self) -> (text: &'static str)
        ensures
            text == match self {
                InstallError::ClockNotOwned => "precise controller needs an owned paused counter",
                InstallError::AlreadyInstalled => "precise controller already installed",
            },
    {
        match self {
            InstallError::ClockNotOwned => "precise controller needs an owned paused counter",
            InstallError::AlreadyInstalled => "precise controller already installed",
        }
    }
}

/// Installs the timer of `owner` where the clock is owned, paused and free of
/// notifications, and none is installed.
pub fn initialize_owned(
    active: bool,
    paused: bool,
    notification_free: bool,
    installed: bool,
    owner: i64,
) -> (result: Result<OwnedTimer, InstallError>)
    ensures
        !(active && paused && notification_free) ==> result == Err::<OwnedTimer, InstallError>(
            InstallError::ClockNotOwned,
        ),
        active && paused && notification_free && installed ==> result == Err::<
            OwnedTimer,
            InstallError,
        >(InstallError::AlreadyInstalled),
        active && paused && notification_free && !installed ==> result == Ok::<
            OwnedTimer,
            InstallError,
        >(fresh_timer(owner)),
{
    if !active || !paused || !notification_free {
        return Err(InstallError::ClockNotOwned);
    }
    if installed {
        return Err(InstallError::AlreadyInstalled);
    }
    Ok(OwnedTimer::new(owner))
}

/// Why a notification timer cannot be installed.
#[derive(Clone, Copy, Debug, PartialEq, Eq, Structural)]
pub enum NotificationError {
    AlreadyInstalled,
    ThreadUnavailable,
}

impl NotificationError {
    pub fn text(self) -> (text: &'static str)
        ensures
            text == match self {
                NotificationError::AlreadyInstalled => "notification timer already installed",
                NotificationError::ThreadUnavailable => "notification timer thread unavailable",
            },
    {
        match self {
            NotificationError::AlreadyInstalled => "notification timer already installed",
            NotificationError::ThreadUnavailable => "notification timer thread unavailable",
        }
    }
}

/// Whether a notification timer is to be made for the thread `owner`: there is
/// nothing to do without an active clock.
pub fn initialize(active: bool, installed: bool, owner: i64) -> (result: Result<
    bool,
    NotificationError,
>)
    ensures
        result == if !active {
            Ok::<bool, NotificationError>(false)
        } else if installed {
            Err(NotificationError::AlreadyInstalled)
        } else if owner <= 0 {
            Err(NotificationError::ThreadUnavailable)
        } else {
            Ok(true)
        },
{
    if !active {
        return Ok(false);
    }
    if installed {
        return Err(NotificationError::AlreadyInstalled);
    }
    if owner <= 0 {
        return Err(NotificationError::ThreadUnavailable);
    }
    Ok(true)
}

/// How a notification timer may be borrowed.
pub fn check_borrow(
    tid: i64,
    owner: i64,
    paused: bool,
    borrowed: bool,
    revision: u64,
) -> (result: Result<u64, Errno>)
    ensures
        result == if tid != owner {
            Err::<u64, Errno>(Errno::EXDEV)
        } else if !paused || borrowed {
            Err(Errno::EBUSY)
        } else if revision == u64::MAX {
            Err(Errno::EOVERFLOW)
        } else {
            Ok((revision + 1) as u64)
        },
{
    if tid != owner {
        return Err(Errno::EXDEV);
    }
    if !paused || borrowed {
        return Err(Errno::EBUSY);
    }
    match revision.checked_add(1) {
        Some(next) => Ok(next),
        None => Err(Errno::EOVERFLOW),
    }
}

/// What is said to a request for a notification, which is always refused.
pub fn request_refusal(precise: bool) -> (text: &'static str)
    ensures
        text == if precise {
            "LiteInst precise timer delivery requires an exact position witness and safe Tool entry"
        } else {
            "LiteInst timer delivery requires a safe Tool entry"
        },
{
    if precise {
        "LiteInst precise timer delivery requires an exact position witness and safe Tool entry"
    } else {
        "LiteInst timer delivery requires a safe Tool entry"
    }
}

// ---------------------------------------------------------------------------
// Transitions
// ---------------------------------------------------------------------------

pub open spec fn fresh_timer(owner: i64) -> OwnedTimer {
    OwnedTimer {
        owner,
        request: None,
        window: None,
        delivered: None,
        interruption_sequence: 0,
        interrupted: None,
    }
}

pub open spec fn next_ticket_of(timer: OwnedTimer) -> Result<Option<Ticket>, Errno> {
    if timer.interrupted is Some {
        Err(Errno::EBUSY)
    } else {
        match timer.request {
            None => Ok(None),
            Some(request) => if request.immediate {
                Err(Errno::EINVAL)
            } else if request.ticket.sequence == u64::MAX {
                Err(Errno::EOVERFLOW)
            } else {
                Ok(
                    Some(
                        Ticket {
                            generation: request.ticket.generation,
                            sequence: (request.ticket.sequence + 1) as u64,
                        },
                    ),
                )
            },
        }
    }
}

/// Why a window cannot be opened.
pub open spec fn window_error(timer: OwnedTimer, pc: u64, clock: u64) -> Option<Errno> {
    if timer.window is Some {
        Some(Errno::EBUSY)
    } else {
        match timer.interrupted {
            Some(interrupted) => if interrupted.failed {
                Some(Errno::ECANCELED)
            } else if pc != interrupted.pc || clock != interrupted.clock {
                Some(Errno::EINVAL)
            } else {
                None
            },
            None => None,
        }
    }
}

/// Why a modeled interruption cannot begin.
pub open spec fn interruption_error(
    timer: OwnedTimer,
    ticket: Option<Ticket>,
    clock: u64,
) -> Option<Errno> {
    if timer.interrupted is Some || timer.window is Some || timer.delivered is Some {
        Some(Errno::EBUSY)
    } else {
        match next_ticket_of(timer) {
            Err(error) => Some(error),
            Ok(next) => if ticket != next || (timer.request is Some && clock
                < (timer.request->0).clock) {
                Some(Errno::EINVAL)
            } else if timer.interruption_sequence == u64::MAX {
                Some(Errno::EOVERFLOW)
            } else {
                None
            },
        }
    }
}

/// The name of the interruption that begins next.
pub open spec fn next_name(timer: OwnedTimer) -> ModeledInterruption {
    ModeledInterruption {
        owner: timer.owner,
        sequence: (timer.interruption_sequence + 1) as u64,
    }
}

/// The timer with a modeled interruption open.
pub open spec fn begun(timer: OwnedTimer, pc: u64, clock: u64) -> OwnedTimer {
    OwnedTimer {
        interrupted: Some(
            InterruptedTimer {
                identity: next_name(timer),
                pc,
                clock,
                replacement: None,
                failed: false,
            },
        ),
        interruption_sequence: next_name(timer).sequence,
        ..timer
    }
}

/// The branches and further instructions of a schedule that counts them.
pub open spec fn counted(schedule: TimerSchedule) -> Option<(u64, u64)> {
    match schedule {
        TimerSchedule::Rcbs(rcbs) => Some((rcbs, 0)),
        TimerSchedule::RcbsAndInstructions(rcbs, suffix) => Some((rcbs, suffix)),
        TimerSchedule::Time(_) => None,
    }
}

/// The request that a schedule makes at `clock`.
pub open spec fn deferred_at(
    clock: u64,
    schedule: TimerSchedule,
    precise: bool,
) -> Result<DeferredRequest, Errno> {
    match counted(schedule) {
        Some((rcbs, suffix)) => if !precise {
            Err(Errno::EOPNOTSUPP)
        } else if clock + rcbs > u64::MAX {
            Err(Errno::EOVERFLOW)
        } else {
            Ok(DeferredRequest { clock, target: (clock + rcbs) as u64, rcbs, suffix })
        },
        None => Err(Errno::EOPNOTSUPP),
    }
}

/// The request that the controller armed.
pub open spec fn armed_request(
    deferred: DeferredRequest,
    generation: Generation,
    decision: Decision,
) -> OwnedRequest {
    OwnedRequest {
        ticket: Ticket { generation, sequence: 0 },
        target: deferred.target,
        suffix: deferred.suffix,
        immediate: decision == Decision::Deliver,
        clock: deferred.clock,
    }
}

/// The generation that the controller is to forget when the request is cancelled.
pub open spec fn cancelled_generation(timer: OwnedTimer) -> Option<Generation> {
    match timer.request {
        Some(request) => if request.immediate {
            None
        } else {
            Some(request.ticket.generation)
        },
        None => None,
    }
}

/// What staging asks of the controller: to cancel the old request, then to arm the
/// new one.
#[derive(Clone, Copy, Debug, PartialEq, Eq, Structural)]
pub struct StageQuestion {
    pub cancel: Option<Generation>,
    pub arm: Option<DeferredRequest>,
}

/// What the controller said to a `StageQuestion`. `Unasked` stands where nothing
/// was left to ask.
#[derive(Clone, Copy, Debug, PartialEq, Eq, Structural)]
pub enum StageReply {
    Unasked,
    CancelRefused,
    ArmRefused,
    Armed(Generation, Decision),
}

pub open spec fn stage_question_of(
    timer: OwnedTimer,
    schedule: TimerSchedule,
    precise: bool,
) -> StageQuestion {
    if timer.interrupted is Some || timer.window is None {
        StageQuestion { cancel: None, arm: None }
    } else {
        StageQuestion {
            cancel: cancelled_generation(timer),
            arm: match deferred_at((timer.window->0).1, schedule, precise) {
                Ok(deferred) => Some(deferred),
                Err(_) => None,
            },
        }
    }
}

/// The timer and the answer after a callback staged a schedule.
pub open spec fn staged(
    timer: OwnedTimer,
    schedule: TimerSchedule,
    precise: bool,
    reply: StageReply,
) -> (OwnedTimer, Result<(), Errno>) {
    match timer.interrupted {
        Some(interrupted) => if interrupted.failed {
            (timer, Err(Errno::ECANCELED))
        } else {
            let deferred = if timer.window is None {
                Err(Errno::EOPNOTSUPP)
            } else {
                deferred_at((timer.window->0).1, schedule, precise)
            };
            match deferred {
                Ok(deferred) => (
                    OwnedTimer {
                        interrupted: Some(
                            InterruptedTimer { replacement: Some(deferred), ..interrupted },
                        ),
                        ..timer
                    },
                    Ok(()),
                ),
                Err(error) => (
                    OwnedTimer {
                        interrupted: Some(InterruptedTimer { failed: true, ..interrupted }),
                        ..timer
                    },
                    Err(error),
                ),
            }
        },
        None => if timer.window is None {
            (timer, Err(Errno::EOPNOTSUPP))
        } else {
            let bare = OwnedTimer { request: None, ..timer };
            if cancelled_generation(timer) is Some && reply == StageReply::CancelRefused {
                (bare, Err(Errno::EINVAL))
            } else {
                match deferred_at((timer.window->0).1, schedule, precise) {
                    Ok(deferred) => match reply {
                        StageReply::Armed(generation, decision) => (
                            OwnedTimer {
                                request: Some(armed_request(deferred, generation, decision)),
                                ..timer
                            },
                            Ok(()),
                        ),
                        _ => (bare, Err(Errno::EOVERFLOW)),
                    },
                    Err(error) => (bare, Err(error)),
                }
            }
        },
    }
}

/// What an observation leaves of the request, given the controller's decision.
pub open spec fn advanced(
    timer: OwnedTimer,
    observation: Observation,
    reply: Option<Decision>,
) -> (OwnedTimer, Result<Option<OwnedTimerPosition>, Errno>) {
    match timer.request {
        None => (timer, Err(Errno::EINVAL)),
        Some(request) => match reply {
            None => (timer, Err(Errno::EINVAL)),
            Some(Decision::Step) => (
                OwnedTimer {
                    request: Some(
                        OwnedRequest {
                            ticket: Ticket {
                                generation: request.ticket.generation,
                                sequence: observation.sequence,
                            },
                            clock: observation.clock,
                            ..request
                        },
                    ),
                    ..timer
                },
                Ok(None),
            ),
            Some(Decision::Deliver) => (
                OwnedTimer { request: None, ..timer },
                Ok(
                    Some(
                        OwnedTimerPosition {
                            generation: observation.generation.number,
                            sequence: observation.sequence,
                            rip: observation.rip,
                            clock: observation.clock,
                            target: request.target,
                            suffix: request.suffix,
                        },
                    ),
                ),
            ),
        },
    }
}

/// What resolving an interruption asks of the controller.
#[derive(Clone, Copy, Debug, PartialEq, Eq, Structural)]
pub enum ResolutionQuestion {
    Nothing,
    Replace(DeferredRequest),
    Observe(Observation),
}

/// What the controller said to a `ResolutionQuestion`.
#[derive(Clone, Copy, Debug, PartialEq, Eq, Structural)]
pub enum ResolutionReply {
    Unasked,
    Refused,
    Armed(Generation, Decision),
    Decided(Decision),
}

/// The observation is the one that the interrupted step was to make.
pub open spec fn observation_fits(
    timer: OwnedTimer,
    clock: u64,
    completed: Option<Observation>,
) -> bool {
    match timer.request {
        None => completed is None,
        Some(request) => completed matches Some(observation) && {
            &&& observation.generation == request.ticket.generation
            &&& observation.sequence == request.ticket.sequence + 1
            &&& observation.clock == clock
        },
    }
}

/// Why an interruption cannot be resolved before the controller is asked; the flag
/// says whether the failure is recorded.
pub open spec fn resolution_error(
    timer: OwnedTimer,
    identity: ModeledInterruption,
    completed: Option<Observation>,
) -> Option<(Errno, bool)> {
    match timer.interrupted {
        None => Some((Errno::EINVAL, false)),
        Some(interrupted) => if interrupted.identity != identity {
            Some((Errno::EINVAL, false))
        } else if interrupted.failed {
            Some((Errno::ECANCELED, false))
        } else if timer.window is Some {
            Some((Errno::EBUSY, true))
        } else if !observation_fits(timer, interrupted.clock, completed) {
            Some((Errno::EINVAL, true))
        } else {
            None
        },
    }
}

pub open spec fn resolution_question_of(
    timer: OwnedTimer,
    identity: ModeledInterruption,
    completed: Option<Observation>,
) -> ResolutionQuestion {
    if resolution_error(timer, identity, completed) is Some {
        ResolutionQuestion::Nothing
    } else {
        match (timer.interrupted->0).replacement {
            Some(deferred) => ResolutionQuestion::Replace(deferred),
            None => match completed {
                Some(observation) => ResolutionQuestion::Observe(observation),
                None => ResolutionQuestion::Nothing,
            },
        }
    }
}

pub open spec fn poisoned(timer: OwnedTimer) -> OwnedTimer {
    OwnedTimer {
        interrupted: Some(InterruptedTimer { failed: true, ..timer.interrupted->0 }),
        ..timer
    }
}

/// The timer and the answer after an interruption was resolved.
pub open spec fn resolved(
    timer: OwnedTimer,
    identity: ModeledInterruption,
    completed: Option<Observation>,
    reply: ResolutionReply,
) -> (OwnedTimer, Result<InterruptionResolution, Errno>) {
    match resolution_error(timer, identity, completed) {
        Some((error, recorded)) => (
            if recorded {
                poisoned(timer)
            } else {
                timer
            },
            Err(error),
        ),
        None => match (timer.interrupted->0).replacement {
            Some(deferred) => match reply {
                ResolutionReply::Armed(generation, decision) => (
                    OwnedTimer {
                        request: Some(armed_request(deferred, generation, decision)),
                        interrupted: None,
                        ..timer
                    },
                    Ok(InterruptionResolution::Replaced),
                ),
                _ => (poisoned(timer), Err(Errno::EOVERFLOW)),
            },
            None => match completed {
                None => (
                    OwnedTimer { interrupted: None, ..timer },
                    Ok(InterruptionResolution::Preserved(None)),
                ),
                Some(observation) => match reply {
                    ResolutionReply::Decided(decision) => {
                        let after = advanced(timer, observation, Some(decision));
                        (
                            OwnedTimer { interrupted: None, ..after.0 },
                            Ok(InterruptionResolution::Preserved(after.1->Ok_0)),
                        )
                    },
                    _ => (poisoned(timer), Err(Errno::EINVAL)),
                },
            },
        },
    }
}

/// The timer and the answer when an immediate request is asked for at `pc`.
pub open spec fn immediate_of(timer: OwnedTimer, pc: u64, clock: u64) -> (
    OwnedTimer,
    Result<Option<OwnedTimerPosition>, Errno>,
) {
    if timer.interrupted is Some {
        (timer, Err(Errno::EBUSY))
    } else {
        match timer.request {
            Some(request) => if !request.immediate {
                (timer, Ok(None))
            } else if clock != request.target {
                (timer, Err(Errno::EINVAL))
            } else {
                (
                    OwnedTimer { request: None, ..timer },
                    Ok(
                        Some(
                            OwnedTimerPosition {
                                generation: request.ticket.generation.number,
                                sequence: 0,
                                rip: pc,
                                clock,
                                target: request.target,
                                suffix: request.suffix,
                            },
                        ),
                    ),
                )
            },
            None => (timer, Ok(None)),
        }
    }
}

fn defer(clock: u64, schedule: TimerSchedule, precise: bool) -> (result: Result<
    DeferredRequest,
    Errno,
>)
    ensures
        result == deferred_at(clock, schedule, precise),
{
    if !precise {
        return Err(Errno::EOPNOTSUPP);
    }
    let (rcbs, suffix): (u64, u64) = match schedule {
        TimerSchedule::Rcbs(rcbs) => (rcbs, 0),
        TimerSchedule::RcbsAndInstructions(rcbs, suffix) => (rcbs, suffix),
        TimerSchedule::Time(_) => return Err(Errno::EOPNOTSUPP),
    };
    match clock.checked_add(rcbs) {
        Some(target) => Ok(DeferredRequest { clock, target, rcbs, suffix }),
        None => Err(Errno::EOVERFLOW),
    }
}

fn arm(deferred: DeferredRequest, generation: Generation, decision: Decision) -> (request:
    OwnedRequest)
    ensures
        request == armed_request(deferred, generation, decision),
{
    OwnedRequest {
        ticket: Ticket { generation, sequence: 0 },
        target: deferred.target,
        suffix: deferred.suffix,
        immediate: decision == Decision::Deliver,
        clock: deferred.clock,
    }
}

fn same_ticket(left: Option<Ticket>, right: Option<Ticket>) -> (same: bool)
    ensures
        same == (left == right),
{
    match (left, right) {
        (Some(a), Some(b)) => a == b,
        (None, None) => true,
        (Some(_), None) => false,
        (None, Some(_)) => false,
    }
}

impl OwnedTimer {
    pub fn new(owner: i64) -> (timer: Self)
        ensures
            timer == fresh_timer(owner),
    {
        OwnedTimer {
            owner,
            request: None,
            window: None,
            delivered: None,
            interruption_sequence: 0,
            interrupted: None,
        }
    }

    pub fn open_window(&mut self, pc: u64, clock: u64) -> (result: Result<(), Errno>)
        ensures
            match window_error(*old(self), pc, clock) {
                Some(error) => result == Err::<(), Errno>(error) && *final(self) == *old(self),
                None => result == Ok::<(), Errno>(()) && *final(self) == (OwnedTimer {
                    window: Some((pc, clock)),
                    ..*old(self)
                }),
            },
    {
        if self.window.is_some() {
            return Err(Errno::EBUSY);
        }
        if let Some(interrupted) = &self.interrupted {
            if interrupted.failed {
                return Err(Errno::ECANCELED);
            }
            if pc != interrupted.pc || clock != interrupted.clock {
                return Err(Errno::EINVAL);
            }
        }
        self.window = Some((pc, clock));
        Ok(())
    }

    pub fn close_window(&mut self)
        ensures
            *final(self) == (OwnedTimer { window: None, delivered: None, ..*old(self) }),
    {
        self.window = None;
        self.delivered = None;
    }

    pub fn uninterrupted(&self) -> (result: Result<(), Errno>)
        ensures
            result == if self.interrupted is Some {
                Err::<(), Errno>(Errno::EBUSY)
            } else {
                Ok(())
            },
    {
        if self.interrupted.is_some() {
            return Err(Errno::EBUSY);
        }
        Ok(())
    }

    pub fn next_ticket(&self) -> (result: Result<Option<Ticket>, Errno>)
        ensures
            result == next_ticket_of(*self),
    {
        if self.interrupted.is_some() {
            return Err(Errno::EBUSY);
        }
        match self.request {
            None => Ok(None),
            Some(request) => {
                if request.immediate {
                    return Err(Errno::EINVAL);
                }
                match request.ticket.sequence.checked_add(1) {
                    Some(sequence) => Ok(
                        Some(Ticket { generation: request.ticket.generation, sequence }),
                    ),
                    None => Err(Errno::EOVERFLOW),
                }
            },
        }
    }

    pub fn begin_interruption(
        &mut self,
        ticket: Option<Ticket>,
        pc: u64,
        clock: u64,
    ) -> (result: Result<ModeledInterruption, Errno>)
        ensures
            match interruption_error(*old(self), ticket, clock) {
                Some(error) => result == Err::<ModeledInterruption, Errno>(error) && *final(self)
                    == *old(self),
                None => result == Ok::<ModeledInterruption, Errno>(next_name(*old(self)))
                    && *final(self) == begun(*old(self), pc, clock),
            },
    {
        self.uninterrupted()?;
        if self.window.is_some() || self.delivered.is_some() {
            return Err(Errno::EBUSY);
        }
        let next = match self.next_ticket() {
            Ok(next) => next,
            Err(error) => return Err(error),
        };
        let early: bool = match self.request {
            Some(request) => clock < request.clock,
            None => false,
        };
        if !same_ticket(ticket, next) || early {
            return Err(Errno::EINVAL);
        }
        let sequence: u64 = match self.interruption_sequence.checked_add(1) {
            Some(sequence) => sequence,
            None => return Err(Errno::EOVERFLOW),
        };
        self.interrupted = Some(
            InterruptedTimer {
                identity: ModeledInterruption { owner: self.owner, sequence },
                pc,
                clock,
                replacement: None,
                failed: false,
            },
        );
        self.interruption_sequence = sequence;
        Ok(ModeledInterruption { owner: self.owner, sequence })
    }

    fn mark_failed(&mut self)
        requires
            old(self).interrupted is Some,
        ensures
            *final(self) == poisoned(*old(self)),
    {
        let taken = self.interrupted.take();
        if let Some(interrupted) = taken {
            self.interrupted = Some(
                InterruptedTimer {
                    identity: interrupted.identity,
                    pc: interrupted.pc,
                    clock: interrupted.clock,
                    replacement: interrupted.replacement,
                    failed: true,
                },
            );
        }
    }

    pub fn fail_interruption(&mut self, identity: &ModeledInterruption) -> (result: Result<
        (),
        Errno,
    >)
        ensures
            old(self).interrupted is Some && (old(self).interrupted->0).identity == *identity
                ==> result == Ok::<(), Errno>(()) && *final(self) == poisoned(*old(self)),
            !(old(self).interrupted is Some && (old(self).interrupted->0).identity == *identity)
                ==> result == Err::<(), Errno>(Errno::EINVAL) && *final(self) == *old(self),
    {
        let known: bool = match &self.interrupted {
            Some(interrupted) => interrupted.identity == *identity,
            None => false,
        };
        if !known {
            return Err(Errno::EINVAL);
        }
        self.mark_failed();
        Ok(())
    }

    /// What cancelling asks of the controller.
    pub fn cancel_question(&self) -> (generation: Option<Generation>)
        ensures
            generation == if self.interrupted is Some {
                None
            } else {
                cancelled_generation(*self)
            },
    {
        if self.interrupted.is_some() {
            return None;
        }
        match self.request {
            Some(request) => if request.immediate {
                None
            } else {
                Some(request.ticket.generation)
            },
            None => None,
        }
    }

    /// Forgets the request; `refused` says that the controller would not cancel it.
    pub fn cancel(&mut self, refused: bool) -> (result: Result<(), Errno>)
        ensures
            old(self).interrupted is Some ==> result == Err::<(), Errno>(Errno::EBUSY)
                && *final(self) == *old(self),
            old(self).interrupted is None ==> *final(self) == (OwnedTimer {
                request: None,
                ..*old(self)
            }) && result == if cancelled_generation(*old(self)) is Some && refused {
                Err::<(), Errno>(Errno::EINVAL)
            } else {
                Ok(())
            },
    {
        self.uninterrupted()?;
        let asked: bool = self.cancel_question().is_some();
        self.request = None;
        if asked && refused {
            return Err(Errno::EINVAL);
        }
        Ok(())
    }

    /// What staging a schedule asks of the controller.
    pub fn stage_question(&self, schedule: TimerSchedule, precise: bool) -> (question:
        StageQuestion)
        ensures
            question == stage_question_of(*self, schedule, precise),
    {
        if self.interrupted.is_some() {
            return StageQuestion { cancel: None, arm: None };
        }
        let clock: u64 = match self.window {
            Some(window) => window.1,
            None => return StageQuestion { cancel: None, arm: None },
        };
        let arm = match defer(clock, schedule, precise) {
            Ok(deferred) => Some(deferred),
            Err(_) => None,
        };
        StageQuestion { cancel: self.cancel_question(), arm }
    }

    /// Stages a schedule with the controller's reply to `stage_question`.
    pub fn stage(
        &mut self,
        schedule: TimerSchedule,
        precise: bool,
        reply: StageReply,
    ) -> (result: Result<(), Errno>)
        ensures
            (*final(self), result) == staged(*old(self), schedule, precise, reply),
    {
        if let Some(interrupted) = &self.interrupted {
            if interrupted.failed {
                return Err(Errno::ECANCELED);
            }
            let deferred = match self.window {
                Some(window) => defer(window.1, schedule, precise),
                None => Err(Errno::EOPNOTSUPP),
            };
            let deferred = match deferred {
                Ok(deferred) => deferred,
                Err(error) => {
                    self.mark_failed();
                    return Err(error);
                },
            };
            let taken = self.interrupted.take();
            if let Some(open) = taken {
                self.interrupted = Some(
                    InterruptedTimer {
                        identity: open.identity,
                        pc: open.pc,
                        clock: open.clock,
                        replacement: Some(deferred),
                        failed: open.failed,
                    },
                );
            }
            return Ok(());
        }
        let clock: u64 = match self.window {
            Some(window) => window.1,
            None => return Err(Errno::EOPNOTSUPP),
        };
        let refused: bool = match reply {
            StageReply::CancelRefused => true,
            _ => false,
        };
        self.cancel(refused)?;
        let deferred = match defer(clock, schedule, precise) {
            Ok(deferred) => deferred,
            Err(error) => return Err(error),
        };
        match reply {
            StageReply::Armed(generation, decision) => {
                self.request = Some(arm(deferred, generation, decision));
                Ok(())
            },
            _ => Err(Errno::EOVERFLOW),
        }
    }

    fn advance_current(
        &mut self,
        observation: Observation,
        reply: Option<Decision>,
    ) -> (result: Result<Option<OwnedTimerPosition>, Errno>)
        ensures
            (*final(self), result) == advanced(*old(self), observation, reply),
    {
        let request = match self.request {
            Some(request) => request,
            None => return Err(Errno::EINVAL),
        };
        match reply {
            None => Err(Errno::EINVAL),
            Some(Decision::Step) => {
                self.request = Some(
                    OwnedRequest {
                        ticket: Ticket {
                            generation: request.ticket.generation,
                            sequence: observation.sequence,
                        },
                        target: request.target,
                        suffix: request.suffix,
                        immediate: request.immediate,
                        clock: observation.clock,
                    },
                );
                Ok(None)
            },
            Some(Decision::Deliver) => {
                self.request = None;
                Ok(
                    Some(
                        OwnedTimerPosition {
                            generation: observation.generation.value(),
                            sequence: observation.sequence,
                            rip: observation.rip,
                            clock: observation.clock,
                            target: request.target,
                            suffix: request.suffix,
                        },
                    ),
                )
            },
        }
    }

    /// Whether the controller is to be told of an observation at all.
    pub fn may_advance(&self) -> (result: bool)
        ensures
            result == (self.interrupted is None && self.request is Some),
    {
        self.interrupted.is_none() && self.request.is_some()
    }

    /// Takes the controller's decision on an observation, `None` where it refused.
    pub fn advance(&mut self, observation: Observation, reply: Option<Decision>) -> (result: Result<
        Option<OwnedTimerPosition>,
        Errno,
    >)
        ensures
            old(self).interrupted is Some ==> *final(self) == *old(self) && result == Err::<
                Option<OwnedTimerPosition>,
                Errno,
            >(Errno::EBUSY),
            old(self).interrupted is None ==> (*final(self), result) == advanced(
                *old(self),
                observation,
                reply,
            ),
    {
        if self.interrupted.is_some() {
            return Err(Errno::EBUSY);
        }
        self.advance_current(observation, reply)
    }

    fn check_resolution(
        &self,
        identity: &ModeledInterruption,
        completed: Option<Observation>,
    ) -> (result: Option<(Errno, bool)>)
        ensures
            result == resolution_error(*self, *identity, completed),
    {
        let interrupted = match &self.interrupted {
            Some(interrupted) => interrupted,
            None => return Some((Errno::EINVAL, false)),
        };
        if interrupted.identity != *identity {
            return Some((Errno::EINVAL, false));
        }
        if interrupted.failed {
            return Some((Errno::ECANCELED, false));
        }
        if self.window.is_some() {
            return Some((Errno::EBUSY, true));
        }
        let fits: bool = match (self.request, completed) {
            (None, None) => true,
            (Some(request), Some(observation)) => observation.generation
                == request.ticket.generation && request.ticket.sequence < u64::MAX
                && observation.sequence == request.ticket.sequence + 1 && observation.clock
                == interrupted.clock,
            (Some(_), None) => false,
            (None, Some(_)) => false,
        };
        if !fits {
            return Some((Errno::EINVAL, true));
        }
        None
    }

    /// What resolving an interruption asks of the controller.
    pub fn resolution_question(
        &self,
        identity: &ModeledInterruption,
        completed: Option<Observation>,
    ) -> (question: ResolutionQuestion)
        ensures
            question == resolution_question_of(*self, *identity, completed),
    {
        if self.check_resolution(identity, completed).is_some() {
            return ResolutionQuestion::Nothing;
        }
        match &self.interrupted {
            Some(interrupted) => match interrupted.replacement {
                Some(deferred) => ResolutionQuestion::Replace(deferred),
                None => match completed {
                    Some(observation) => ResolutionQuestion::Observe(observation),
                    None => ResolutionQuestion::Nothing,
                },
            },
            None => ResolutionQuestion::Nothing,
        }
    }

    /// Resolves an interruption with the controller's reply to
    /// `resolution_question`. A resolution that fails once its interruption is
    /// known leaves it failed.
    pub fn resolve_interruption(
        &mut self,
        identity: &ModeledInterruption,
        completed: Option<Observation>,
        reply: ResolutionReply,
    ) -> (result: Result<InterruptionResolution, Errno>)
        ensures
            (*final(self), result) == resolved(*old(self), *identity, completed, reply),
    {
        match self.check_resolution(identity, completed) {
            Some((error, recorded)) => {
                if recorded {
                    self.mark_failed();
                }
                return Err(error);
            },
            None => {},
        }
        let replacement: Option<DeferredRequest> = match &self.interrupted {
            Some(interrupted) => interrupted.replacement,
            None => None,
        };
        if let Some(deferred) = replacement {
            return match reply {
                ResolutionReply::Armed(generation, decision) => {
                    self.request = Some(arm(deferred, generation, decision));
                    self.interrupted = None;
                    Ok(InterruptionResolution::Replaced)
                },
                _ => {
                    self.mark_failed();
                    Err(Errno::EOVERFLOW)
                },
            };
        }
        let observation = match completed {
            Some(observation) => observation,
            None => {
                self.interrupted = None;
                return Ok(InterruptionResolution::Preserved(None));
            },
        };
        match reply {
            ResolutionReply::Decided(decision) => match self.advance_current(
                observation,
                Some(decision),
            ) {
                Ok(delivery) => {
                    self.interrupted = None;
                    Ok(InterruptionResolution::Preserved(delivery))
                },
                Err(error) => Err(error),
            },
            _ => {
                self.mark_failed();
                Err(Errno::EINVAL)
            },
        }
    }

    pub fn immediate(&mut self, pc: u64, clock: u64) -> (result: Result<
        Option<OwnedTimerPosition>,
        Errno,
    >)
        ensures
            (*final(self), result) == immediate_of(*old(self), pc, clock),
    {
        if self.interrupted.is_some() {
            return Err(Errno::EBUSY);
        }
        let request = match self.request {
            Some(request) => request,
            None => return Ok(None),
        };
        if !request.immediate {
            return Ok(None);
        }
        if clock != request.target {
            return Err(Errno::EINVAL);
        }
        self.request = None;
        Ok(
            Some(
                OwnedTimerPosition {
                    generation: request.ticket.generation.value(),
                    sequence: 0,
                    rip: pc,
                    clock,
                    target: request.target,
                    suffix: request.suffix,
                },
            ),
        )
    }

    pub fn publish_delivery(&mut self, position: OwnedTimerPosition) -> (result: Result<(), Errno>)
        ensures
            old(self).interrupted is Some ==> result == Err::<(), Errno>(Errno::EBUSY)
                && *final(self) == *old(self),
            old(self).interrupted is None ==> result == Ok::<(), Errno>(()) && *final(self) == (
            OwnedTimer { delivered: Some(position), ..*old(self) }),
    {
        self.uninterrupted()?;
        self.delivered = Some(position);
        Ok(())
    }
}

// ---------------------------------------------------------------------------
// Laws
// ---------------------------------------------------------------------------

/// While an interruption is open, its request stands still: staging only records a
/// replacement and asks nothing of the controller, an immediate delivery is refused,
/// and no ticket is given out.
pub proof fn interruption_preserves_request(
    timer: OwnedTimer,
    schedule: TimerSchedule,
    precise: bool,
    reply: StageReply,
    pc: u64,
    clock: u64,
)
    requires
        timer.interrupted is Some,
    ensures
        staged(timer, schedule, precise, reply).0.request == timer.request,
        staged(timer, schedule, precise, reply).0.interrupted is Some,
        stage_question_of(timer, schedule, precise) == (StageQuestion { cancel: None, arm: None }),
        immediate_of(timer, pc, clock) == (
            timer,
            Err::<Option<OwnedTimerPosition>, Errno>(Errno::EBUSY),
        ),
        next_ticket_of(timer) == Err::<Option<Ticket>, Errno>(Errno::EBUSY),
{
}

/// A failed interruption stays failed and blocks every window, every schedule and
/// every resolution; its request and its last replacement are kept.
pub proof fn failed_interruption_blocks(
    timer: OwnedTimer,
    identity: ModeledInterruption,
    completed: Option<Observation>,
    resolution: ResolutionReply,
    schedule: TimerSchedule,
    precise: bool,
    reply: StageReply,
    pc: u64,
    clock: u64,
)
    requires
        timer.interrupted is Some,
        (timer.interrupted->0).failed,
    ensures
        window_error(timer, pc, clock) is Some,
        staged(timer, schedule, precise, reply) == (timer, Err::<(), Errno>(Errno::ECANCELED)),
        resolved(timer, identity, completed, resolution).0 == timer,
        resolved(timer, identity, completed, resolution).1 is Err,
        resolution_question_of(timer, identity, completed) == ResolutionQuestion::Nothing,
{
}

/// A resolution either closes the interruption and succeeds, or keeps it and the
/// request as they were.
pub proof fn resolution_is_all_or_nothing(
    timer: OwnedTimer,
    identity: ModeledInterruption,
    completed: Option<Observation>,
    reply: ResolutionReply,
)
    ensures
        ({
            let (next, result) = resolved(timer, identity, completed, reply);
            &&& result is Ok ==> next.interrupted is None && timer.interrupted is Some && (
            timer.interrupted->0).identity == identity
            &&& result is Err ==> next.request == timer.request && (next.interrupted is Some
                <==> timer.interrupted is Some)
            &&& result is Err && timer.interrupted is Some ==> (next.interrupted->0).replacement
                == (timer.interrupted->0).replacement
        }),
{
}

/// An interruption is resolved at most once under its name.
pub proof fn interruptions_have_one_resolution(
    timer: OwnedTimer,
    identity: ModeledInterruption,
    completed: Option<Observation>,
    reply: ResolutionReply,
    again: ResolutionReply,
    other: Option<Observation>,
)
    requires
        resolved(timer, identity, completed, reply).1 is Ok,
    ensures
        resolved(resolved(timer, identity, completed, reply).0, identity, other, again).1 is Err,
{
}

/// An open interruption bears the name that was given out last.
pub open spec fn named(timer: OwnedTimer) -> bool {
    timer.interrupted matches Some(interrupted) ==> interrupted.identity.owner == timer.owner
        && interrupted.identity.sequence == timer.interruption_sequence
}

/// Every operation keeps an open interruption under its name, and the interruption
/// that follows a resolved one has another name.
pub proof fn names_are_never_reused(
    timer: OwnedTimer,
    owner: i64,
    schedule: TimerSchedule,
    precise: bool,
    reply: StageReply,
    observation: Observation,
    decision: Option<Decision>,
    identity: ModeledInterruption,
    completed: Option<Observation>,
    resolution: ResolutionReply,
    pc: u64,
    clock: u64,
)
    requires
        named(timer),
    ensures
        named(fresh_timer(owner)),
        named(begun(timer, pc, clock)),
        named(staged(timer, schedule, precise, reply).0),
        named(advanced(timer, observation, decision).0),
        named(immediate_of(timer, pc, clock).0),
        named(resolved(timer, identity, completed, resolution).0),
        timer.interrupted is Some ==> named(poisoned(timer)),
        resolved(timer, identity, completed, resolution).1 is Ok && timer.interruption_sequence
            < u64::MAX ==> next_name(resolved(timer, identity, completed, resolution).0)
            != identity,
{
}

/// The next ticket is bound to the generation that was armed, one step past the
/// last observation, and an observation under it moves the request by that step.
pub proof fn tickets_advance_by_one(timer: OwnedTimer, observation: Observation)
    requires
        next_ticket_of(timer) is Ok,
        next_ticket_of(timer)->Ok_0 is Some,
    ensures
        ({
            let ticket = next_ticket_of(timer)->Ok_0->0;
            let request = timer.request->0;
            &&& ticket.generation == request.ticket.generation
            &&& ticket.sequence == request.ticket.sequence + 1
            &&& observation.sequence == ticket.sequence ==> {
                let next = advanced(timer, observation, Some(Decision::Step)).0;
                &&& (next.request->0).ticket == ticket
                &&& (next.request->0).target == request.target
                &&& (next.request->0).suffix == request.suffix
            }
        }),
{
}

} // verus!

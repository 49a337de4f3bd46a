//! Owned timers, driven against a controller that counts what it is told.

use liteinst_runtime::timer::check_access;
use liteinst_runtime::timer::check_borrow;
use liteinst_runtime::timer::initialize;
use liteinst_runtime::timer::initialize_owned;
use liteinst_runtime::timer::request_refusal;
use liteinst_runtime::timer::Decision;
use liteinst_runtime::timer::DeferredRequest;
use liteinst_runtime::timer::Errno;
use liteinst_runtime::timer::Generation;
use liteinst_runtime::timer::InstallError;
use liteinst_runtime::timer::InterruptionResolution;
use liteinst_runtime::timer::ModeledInterruption;
use liteinst_runtime::timer::NotificationError;
use liteinst_runtime::timer::Observation;
use liteinst_runtime::timer::OwnedTimer;
use liteinst_runtime::timer::OwnedTimerPosition;
use liteinst_runtime::timer::ResolutionQuestion;
use liteinst_runtime::timer::ResolutionReply;
use liteinst_runtime::timer::StageReply;
use liteinst_runtime::timer::Ticket;
use liteinst_runtime::timer::TimerSchedule;

/// A timer that counts observations as they arrive.
#[derive(Debug, Default)]
struct Controller {
    number: u64,
    armed: Option<Armed>,
}

#[derive(Clone, Copy, Debug)]
struct Armed {
    generation: Generation,
    target: u64,
    suffix: u64,
    reached: bool,
    sequence: u64,
    clock: u64,
}

#[derive(Clone, Copy, Debug, PartialEq, Eq)]
enum TimerError {
    Overflow,
    Generation,
    Sequence,
    Clock,
    Overshot,
}

impl Controller {
    fn replace(
        &mut self,
        clock: u64,
        rcbs: u64,
        suffix: u64,
    ) -> Result<(Generation, Decision), TimerError> {
        let target = clock.checked_add(rcbs).ok_or(TimerError::Overflow)?;
        self.number += 1;
        let generation = Generation {
            number: self.number,
        };
        if rcbs == 0 && suffix == 0 {
            self.armed = None;
            return Ok((generation, Decision::Deliver));
        }
        self.armed = Some(Armed {
            generation,
            target,
            suffix,
            reached: rcbs == 0,
            sequence: 0,
            clock,
        });
        Ok((generation, Decision::Step))
    }

    fn observe(&mut self, observation: Observation) -> Result<Decision, TimerError> {
        let mut armed = self.armed.ok_or(TimerError::Generation)?;
        if armed.generation != observation.generation {
            return Err(TimerError::Generation);
        }
        if observation.sequence != armed.sequence + 1 {
            return Err(TimerError::Sequence);
        }
        if observation.clock < armed.clock {
            return Err(TimerError::Clock);
        }
        armed.sequence = observation.sequence;
        armed.clock = observation.clock;
        if !armed.reached {
            if observation.clock > armed.target {
                return Err(TimerError::Overshot);
            }
            armed.reached = observation.clock == armed.target;
        } else {
            armed.suffix -= 1;
        }
        if armed.reached && armed.suffix == 0 {
            self.armed = None;
            return Ok(Decision::Deliver);
        }
        self.armed = Some(armed);
        Ok(Decision::Step)
    }

    fn cancel(&mut self, generation: Generation) -> Result<(), TimerError> {
        match self.armed {
            Some(armed) if armed.generation == generation => {
                self.armed = None;
                Ok(())
            }
            _ => Err(TimerError::Generation),
        }
    }
}

/// A timer with the controller that it asks.
#[derive(Debug)]
struct Model {
    timer: OwnedTimer,
    controller: Controller,
}

impl std::ops::Deref for Model {
    type Target = OwnedTimer;

    fn deref(&self) -> &OwnedTimer {
        &self.timer
    }
}

impl std::ops::DerefMut for Model {
    fn deref_mut(&mut self) -> &mut OwnedTimer {
        &mut self.timer
    }
}

impl Model {
    fn cancel(&mut self) -> Result<(), Errno> {
        let refused = self.timer.uninterrupted().is_ok()
            && self
                .timer
                .cancel_question()
                .is_some_and(|generation| self.controller.cancel(generation).is_err());
        self.timer.cancel(refused)
    }

    fn stage(&mut self, schedule: TimerSchedule, precise: bool) -> Result<(), Errno> {
        let question = self.timer.stage_question(schedule, precise);
        let refused = question
            .cancel
            .is_some_and(|generation| self.controller.cancel(generation).is_err());
        let reply = match question.arm {
            _ if refused => StageReply::CancelRefused,
            None => StageReply::Unasked,
            Some(arm) => match self.controller.replace(arm.clock, arm.rcbs, arm.suffix) {
                Ok((generation, decision)) => StageReply::Armed(generation, decision),
                Err(_) => StageReply::ArmRefused,
            },
        };
        self.timer.stage(schedule, precise, reply)
    }

    fn advance(&mut self, observation: Observation) -> Result<Option<OwnedTimerPosition>, Errno> {
        let reply = if self.timer.may_advance() {
            self.controller.observe(observation).ok()
        } else {
            None
        };
        self.timer.advance(observation, reply)
    }

    fn resolve_interruption(
        &mut self,
        identity: &ModeledInterruption,
        completed: Option<Observation>,
    ) -> Result<InterruptionResolution, Errno> {
        let reply = match self.timer.resolution_question(identity, completed) {
            ResolutionQuestion::Nothing => ResolutionReply::Unasked,
            ResolutionQuestion::Replace(new) => {
                match self.controller.replace(new.clock, new.rcbs, new.suffix) {
                    Ok((generation, decision)) => ResolutionReply::Armed(generation, decision),
                    Err(_) => ResolutionReply::Refused,
                }
            }
            ResolutionQuestion::Observe(observation) => {
                match self.controller.observe(observation) {
                    Ok(decision) => ResolutionReply::Decided(decision),
                    Err(_) => ResolutionReply::Refused,
                }
            }
        };
        self.timer.resolve_interruption(identity, completed, reply)
    }
}

fn state() -> Model {
    Model {
        timer: OwnedTimer::new(1),
        controller: Controller::default(),
    }
}

#[test]
fn default_and_unsupported_return_windows_never_stage() {
    assert_eq!(check_access(false, None, 1, true), Err(Errno::EOPNOTSUPP));
    let mut state = state();
    assert_eq!(
        state.stage(TimerSchedule::Rcbs(1), true),
        Err(Errno::EOPNOTSUPP)
    );
    assert!(state.request.is_none());
}

#[test]
fn closed_callback_preserves_request_and_replacement_rejects_old_generation() {
    let mut state = state();
    state.window = Some((0x4000, 40));
    state
        .stage(TimerSchedule::RcbsAndInstructions(2, 3), true)
        .unwrap();
    let old = state.request.as_ref().unwrap().ticket.generation;
    state.window = None;
    assert!(state.request.is_some());
    state.cancel().unwrap();
    state.window = Some((0x5000, 41));
    state
        .stage(TimerSchedule::RcbsAndInstructions(0, 1), true)
        .unwrap();
    let current = state.request.as_ref().unwrap();
    assert_ne!(old, current.ticket.generation);
    assert_eq!(
        (current.target, current.suffix, current.ticket.sequence),
        (41, 1, 0)
    );
    assert!(
        state
            .controller
            .observe(Observation {
                generation: old,
                sequence: 1,
                clock: 41,
                rip: 0x5001
            })
            .is_err()
    );
    state.cancel().unwrap();
    assert!(state.request.is_none());
}

#[test]
fn unsupported_or_overflow_replacement_cancels_without_success() {
    let mut state = state();
    state.window = Some((0x4000, 40));
    state.stage(TimerSchedule::Rcbs(1), true).unwrap();
    assert_eq!(
        state.stage(TimerSchedule::Rcbs(2), false),
        Err(Errno::EOPNOTSUPP)
    );
    assert!(state.request.is_none());
    state.stage(TimerSchedule::Rcbs(1), true).unwrap();
    assert_eq!(
        state.stage(TimerSchedule::Rcbs(u64::MAX), true),
        Err(Errno::EOVERFLOW)
    );
    assert!(state.request.is_none());
}

fn armed() -> Model {
    let mut state = state();
    state.open_window(0x4000, 40).unwrap();
    state
        .stage(TimerSchedule::RcbsAndInstructions(2, 3), true)
        .unwrap();
    state.window = None;
    state
}

fn retained(state: &Model) -> String {
    format!("{:?} {:?}", state.controller, state.request)
}

#[test]
fn interruption_preserves_before_equal_and_overshot_targets_without_observation() {
    for clock in [41, 42, 43] {
        let mut state = armed();
        let ticket = state.next_ticket().unwrap();
        let original = retained(&state);
        state.begin_interruption(ticket, 0x4010, clock).unwrap();
        assert_eq!(state.request.as_ref().unwrap().target, 42);
        assert_eq!(retained(&state), original);
        assert_eq!(state.next_ticket(), Err(Errno::EBUSY));
        let ticket = ticket.unwrap();
        assert_eq!(
            state.advance(Observation {
                generation: ticket.generation,
                sequence: ticket.sequence,
                clock,
                rip: 0x4017,
            }),
            Err(Errno::EBUSY)
        );
        assert_eq!(state.cancel(), Err(Errno::EBUSY));
        assert_eq!(retained(&state), original);
    }
}

#[test]
fn interruption_keeps_active_suffix_and_defers_callback_replacement() {
    let mut state = armed();
    for clock in [42, 42] {
        let ticket = state.next_ticket().unwrap().unwrap();
        assert_eq!(
            state.advance(Observation {
                generation: ticket.generation,
                sequence: ticket.sequence,
                clock,
                rip: 0x4008,
            }),
            Ok(None)
        );
    }
    let original = retained(&state);
    let ticket = state.next_ticket().unwrap();
    let identity = state.begin_interruption(ticket, 0x4010, 42).unwrap();
    state.open_window(0x4010, 42).unwrap();
    state.stage(TimerSchedule::Rcbs(8), true).unwrap();
    assert_eq!(
        state.interrupted.as_ref().unwrap().replacement,
        Some(DeferredRequest {
            clock: 42,
            target: 50,
            rcbs: 8,
            suffix: 0,
        })
    );
    assert_eq!(retained(&state), original);
    state.window = None;
    assert_eq!(state.next_ticket(), Err(Errno::EBUSY));
    state.fail_interruption(&identity).unwrap();
    assert_eq!(retained(&state), original);
    assert!(state.interrupted.as_ref().unwrap().replacement.is_some());
}

#[test]
fn interruption_without_replacement_retains_pending_request_or_absence() {
    for has_ticket in [false, true] {
        let mut state = if has_ticket { armed() } else { state() };
        let ticket = state.next_ticket().unwrap();
        let original = retained(&state);
        state.begin_interruption(ticket, 0x4010, 41).unwrap();
        state.open_window(0x4010, 41).unwrap();
        state.window = None;
        assert!(state.interrupted.as_ref().unwrap().replacement.is_none());
        assert_eq!(retained(&state), original);
        assert_eq!(state.next_ticket(), Err(Errno::EBUSY));
    }
}

#[test]
fn interruption_deferred_immediate_cannot_deliver_or_erase_old_request() {
    for has_ticket in [false, true] {
        let mut state = if has_ticket { armed() } else { state() };
        let ticket = state.next_ticket().unwrap();
        let original = retained(&state);
        state.begin_interruption(ticket, 0x4010, 41).unwrap();
        state.open_window(0x4010, 41).unwrap();
        state.stage(TimerSchedule::Rcbs(0), true).unwrap();
        assert_eq!(
            state.interrupted.as_ref().unwrap().replacement,
            Some(DeferredRequest {
                clock: 41,
                target: 41,
                rcbs: 0,
                suffix: 0,
            })
        );
        assert_eq!(state.immediate(0x4010, 41), Err(Errno::EBUSY));
        assert_eq!(state.cancel(), Err(Errno::EBUSY));
        assert_eq!(retained(&state), original);
    }
}

#[test]
fn interruption_failure_preserves_last_deferred_request_and_blocks_reentry() {
    for invalid_schedule in [false, true] {
        let mut state = armed();
        let ticket = state.next_ticket().unwrap();
        let original = retained(&state);
        let identity = state.begin_interruption(ticket, 0x4010, 41).unwrap();
        state.open_window(0x4010, 41).unwrap();
        state
            .stage(TimerSchedule::RcbsAndInstructions(3, 2), true)
            .unwrap();
        if invalid_schedule {
            assert_eq!(
                state.stage(TimerSchedule::Rcbs(u64::MAX), true),
                Err(Errno::EOVERFLOW)
            );
        } else {
            state.fail_interruption(&identity).unwrap();
        }
        assert_eq!(
            state.interrupted.as_ref().unwrap().replacement,
            Some(DeferredRequest {
                clock: 41,
                target: 44,
                rcbs: 3,
                suffix: 2,
            })
        );
        assert_eq!(
            state.stage(TimerSchedule::Rcbs(1), true),
            Err(Errno::ECANCELED)
        );
        state.window = None;
        assert_eq!(state.open_window(0x4010, 41), Err(Errno::ECANCELED));
        assert_eq!(
            state.begin_interruption(ticket, 0x4010, 41),
            Err(Errno::EBUSY)
        );
        assert_eq!(retained(&state), original);
    }
}

#[test]
fn interruption_rejects_stale_ticket_owner_count_and_callback_window() {
    let mut state = armed();
    let ticket = state.next_ticket().unwrap().unwrap();
    let original = retained(&state);
    assert_eq!(
        state.begin_interruption(None, 0x4010, 41),
        Err(Errno::EINVAL)
    );
    assert_eq!(
        state.begin_interruption(
            Some(Ticket {
                sequence: 0,
                ..ticket
            }),
            0x4010,
            41
        ),
        Err(Errno::EINVAL)
    );
    assert_eq!(
        state.begin_interruption(Some(ticket), 0x4010, 39),
        Err(Errno::EINVAL)
    );
    let identity = state.begin_interruption(Some(ticket), 0x4010, 41).unwrap();
    assert_eq!(
        state.fail_interruption(&ModeledInterruption {
            owner: 2,
            sequence: identity.sequence
        }),
        Err(Errno::EINVAL)
    );
    assert_eq!(
        state.fail_interruption(&ModeledInterruption {
            owner: 1,
            sequence: identity.sequence + 1
        }),
        Err(Errno::EINVAL)
    );
    assert_eq!(state.open_window(0x4017, 41), Err(Errno::EINVAL));
    assert_eq!(state.open_window(0x4010, 42), Err(Errno::EINVAL));
    assert!(!state.interrupted.as_ref().unwrap().failed);
    assert_eq!(retained(&state), original);
}

#[test]
fn uninterrupted_suffix_and_immediate_still_use_current_generation() {
    let mut state = armed();
    for (index, clock) in [41, 42, 42, 42, 42].into_iter().enumerate() {
        let ticket = state.next_ticket().unwrap().unwrap();
        let result = state
            .advance(Observation {
                generation: ticket.generation,
                sequence: ticket.sequence,
                clock,
                rip: 0x4010,
            })
            .unwrap();
        assert_eq!(result.is_some(), index == 4);
    }
    assert!(state.request.is_none());
    state.open_window(0x4017, 42).unwrap();
    state.stage(TimerSchedule::Rcbs(0), true).unwrap();
    assert_eq!(state.immediate(0x4017, 42).unwrap().unwrap().clock, 42);
    assert_eq!(state.immediate(0x4017, 42), Ok(None));
}

fn assert_missing_window_poison(prior_intent: bool) {
    let mut state = armed();
    let ticket = state.next_ticket().unwrap();
    let original = retained(&state);
    assert_eq!(
        state.stage(TimerSchedule::Rcbs(5), true),
        Err(Errno::EOPNOTSUPP)
    );
    assert_eq!(retained(&state), original);
    assert!(state.interrupted.is_none());
    state.begin_interruption(ticket, 0x4010, 41).unwrap();
    if prior_intent {
        state.open_window(0x4010, 41).unwrap();
        state
            .stage(TimerSchedule::RcbsAndInstructions(3, 2), true)
            .unwrap();
        state.window = None;
    }
    let expected = prior_intent.then_some(DeferredRequest {
        clock: 41,
        target: 44,
        rcbs: 3,
        suffix: 2,
    });
    assert_eq!(
        state.stage(TimerSchedule::Rcbs(5), true),
        Err(Errno::EOPNOTSUPP)
    );
    assert!(state.interrupted.as_ref().unwrap().failed);
    assert_eq!(state.interrupted.as_ref().unwrap().replacement, expected);
    assert_eq!(retained(&state), original);
    assert_eq!(state.open_window(0x4010, 41), Err(Errno::ECANCELED));
    assert_eq!(
        state.stage(TimerSchedule::Rcbs(1), true),
        Err(Errno::ECANCELED)
    );
    assert_eq!(
        state.begin_interruption(ticket, 0x4010, 41),
        Err(Errno::EBUSY)
    );
    assert_eq!(state.next_ticket(), Err(Errno::EBUSY));
    assert_eq!(state.cancel(), Err(Errno::EBUSY));
    assert_eq!(state.interrupted.as_ref().unwrap().replacement, expected);
    assert_eq!(retained(&state), original);
}

#[test]
fn missing_window_poisons_interruption_with_prior_intent() {
    assert_missing_window_poison(true);
}

#[test]
fn missing_window_poisons_interruption_without_prior_intent() {
    assert_missing_window_poison(false);
}

fn completion(ticket: Ticket, clock: u64) -> Observation {
    Observation {
        generation: ticket.generation,
        sequence: ticket.sequence,
        clock,
        rip: 0x4017,
    }
}

fn active_suffix() -> Model {
    let mut state = armed();
    for _ in 0..2 {
        let ticket = state.next_ticket().unwrap().unwrap();
        assert_eq!(state.advance(completion(ticket, 42)), Ok(None));
    }
    state
}

#[test]
fn explicit_rearm_supersedes_active_suffix_without_old_observation() {
    let mut state = active_suffix();
    let old = state.next_ticket().unwrap().unwrap();
    let identity = state.begin_interruption(Some(old), 0x4010, 42).unwrap();
    state.open_window(0x4010, 42).unwrap();
    state.stage(TimerSchedule::Rcbs(8), true).unwrap();
    state.window = None;
    assert_eq!(
        state.resolve_interruption(&identity, Some(completion(old, 42))),
        Ok(InterruptionResolution::Replaced)
    );
    let current = state.next_ticket().unwrap().unwrap();
    assert_ne!(current.generation, old.generation);
    assert_eq!(current.sequence, 1);
    let request = state.request.as_ref().unwrap();
    assert_eq!((request.target, request.suffix, request.clock), (50, 0, 42));
    let replacement = retained(&state);
    assert_eq!(state.advance(completion(old, 42)), Err(Errno::EINVAL));
    assert_eq!(retained(&state), replacement);
    assert_eq!(
        state.resolve_interruption(&identity, Some(completion(old, 42))),
        Err(Errno::EINVAL)
    );
    assert_eq!(retained(&state), replacement);
    assert_eq!(state.advance(completion(current, 49)), Ok(None));
    let current = state.next_ticket().unwrap().unwrap();
    assert!(state.advance(completion(current, 50)).unwrap().is_some());
}

#[test]
fn private_interruption_without_arm_preserves_and_completes_existing_suffix_once() {
    let mut state = active_suffix();
    let old = state.next_ticket().unwrap().unwrap();
    let identity = state.begin_interruption(Some(old), 0x4010, 42).unwrap();
    state.open_window(0x4010, 42).unwrap();
    state.window = None;
    assert_eq!(
        state.resolve_interruption(&identity, Some(completion(old, 42))),
        Ok(InterruptionResolution::Preserved(None))
    );
    let current = state.next_ticket().unwrap().unwrap();
    assert_eq!(current.generation, old.generation);
    assert_eq!(current.sequence, old.sequence + 1);
    assert!(state.advance(completion(current, 42)).unwrap().is_some());
    assert_eq!(state.next_ticket(), Ok(None));
    assert_eq!(
        state.resolve_interruption(&identity, Some(completion(old, 42))),
        Err(Errno::EINVAL)
    );
}

#[test]
fn retained_target_before_equal_and_overshoot_obey_original_controller() {
    for clock in [41, 42, 43] {
        let mut state = armed();
        let old = state.next_ticket().unwrap().unwrap();
        let original = retained(&state);
        let identity = state.begin_interruption(Some(old), 0x4010, clock).unwrap();
        let result = state.resolve_interruption(&identity, Some(completion(old, clock)));
        if clock > 42 {
            assert_eq!(result, Err(Errno::EINVAL));
            assert_eq!(retained(&state), original);
            assert!(state.interrupted.as_ref().unwrap().failed);
            assert_eq!(state.next_ticket(), Err(Errno::EBUSY));
        } else {
            assert_eq!(result, Ok(InterruptionResolution::Preserved(None)));
            assert_eq!(
                state.next_ticket().unwrap().unwrap().generation,
                old.generation
            );
        }
    }
}

#[test]
fn explicit_arm_replaces_before_equal_and_overshot_old_target() {
    for clock in [41, 42, 43] {
        let mut state = armed();
        let old = state.next_ticket().unwrap().unwrap();
        let identity = state.begin_interruption(Some(old), 0x4010, clock).unwrap();
        state.open_window(0x4010, clock).unwrap();
        state.stage(TimerSchedule::Rcbs(5), true).unwrap();
        state.window = None;
        assert_eq!(
            state.resolve_interruption(&identity, Some(completion(old, clock))),
            Ok(InterruptionResolution::Replaced)
        );
        assert_eq!(state.request.as_ref().unwrap().target, clock + 5);
        assert_ne!(
            state.next_ticket().unwrap().unwrap().generation,
            old.generation
        );
    }
}

#[test]
fn no_ticket_and_explicit_immediate_use_only_new_continuation() {
    let mut empty = state();
    let identity = empty.begin_interruption(None, 0x4010, 42).unwrap();
    assert_eq!(
        empty.resolve_interruption(&identity, None),
        Ok(InterruptionResolution::Preserved(None))
    );
    assert_eq!(empty.next_ticket(), Ok(None));
    for has_old in [false, true] {
        let mut state = if has_old { active_suffix() } else { state() };
        let old = state.next_ticket().unwrap();
        let identity = state.begin_interruption(old, 0x4010, 42).unwrap();
        state.open_window(0x4010, 42).unwrap();
        state.stage(TimerSchedule::Rcbs(0), true).unwrap();
        state.window = None;
        assert_eq!(
            state.resolve_interruption(&identity, old.map(|ticket| completion(ticket, 42))),
            Ok(InterruptionResolution::Replaced)
        );
        let position = state.immediate(0x4017, 42).unwrap().unwrap();
        assert_eq!(
            (
                position.rip,
                position.clock,
                position.sequence,
                position.target,
                position.suffix
            ),
            (0x4017, 42, 0, 42, 0)
        );
        if let Some(old) = old {
            assert_ne!(position.generation, old.generation.value());
        }
        assert_eq!(state.immediate(0x4017, 42), Ok(None));
    }
}

#[test]
fn callback_failure_after_rearm_cannot_resolve_or_resume() {
    let mut state = active_suffix();
    let old = state.next_ticket().unwrap().unwrap();
    let original = retained(&state);
    let identity = state.begin_interruption(Some(old), 0x4010, 42).unwrap();
    state.open_window(0x4010, 42).unwrap();
    state.stage(TimerSchedule::Rcbs(8), true).unwrap();
    state.fail_interruption(&identity).unwrap();
    state.window = None;
    assert_eq!(
        state.resolve_interruption(&identity, Some(completion(old, 42))),
        Err(Errno::ECANCELED)
    );
    assert_eq!(retained(&state), original);
    assert_eq!(
        state
            .interrupted
            .as_ref()
            .unwrap()
            .replacement
            .as_ref()
            .unwrap()
            .target,
        50
    );
    assert_eq!(state.next_ticket(), Err(Errno::EBUSY));
    assert_eq!(state.immediate(0x4017, 42), Err(Errno::EBUSY));
}

#[test]
fn resolver_binds_transaction_observation_and_closed_callback() {
    for defect in 0..4 {
        let mut state = armed();
        let old = state.next_ticket().unwrap().unwrap();
        let original = retained(&state);
        let identity = state.begin_interruption(Some(old), 0x4010, 41).unwrap();
        state.open_window(0x4010, 41).unwrap();
        state.stage(TimerSchedule::Rcbs(5), true).unwrap();
        let wrong = ModeledInterruption {
            owner: identity.owner + 1,
            sequence: identity.sequence,
        };
        assert_eq!(
            state.resolve_interruption(&wrong, Some(completion(old, 41))),
            Err(Errno::EINVAL)
        );
        assert!(!state.interrupted.as_ref().unwrap().failed);
        if defect != 3 {
            state.window = None;
        }
        let observed = match defect {
            0 => None,
            1 => Some(Observation {
                clock: 42,
                ..completion(old, 41)
            }),
            2 => Some(Observation {
                sequence: old.sequence + 1,
                ..completion(old, 41)
            }),
            _ => Some(completion(old, 41)),
        };
        assert_eq!(
            state.resolve_interruption(&identity, observed),
            Err(if defect == 3 {
                Errno::EBUSY
            } else {
                Errno::EINVAL
            })
        );
        assert!(state.interrupted.as_ref().unwrap().failed);
        assert_eq!(retained(&state), original);
        assert_eq!(state.next_ticket(), Err(Errno::EBUSY));
    }
}

#[test]
fn access_needs_an_idle_own_and_standing_timer() {
    assert_eq!(check_access(true, Some(1), 1, true), Err(Errno::EBUSY));
    assert_eq!(check_access(false, None, 1, true), Err(Errno::EOPNOTSUPP));
    assert_eq!(check_access(false, Some(2), 1, true), Err(Errno::EXDEV));
    assert_eq!(check_access(false, Some(1), 1, false), Err(Errno::EBUSY));
    assert_eq!(check_access(false, Some(1), 1, true), Ok(()));
}

#[test]
fn error_codes_are_the_kernels() {
    for (error, code) in [
        (Errno::EBUSY, libc::EBUSY),
        (Errno::EXDEV, libc::EXDEV),
        (Errno::EINVAL, libc::EINVAL),
        (Errno::EOVERFLOW, libc::EOVERFLOW),
        (Errno::EOPNOTSUPP, libc::EOPNOTSUPP),
        (Errno::ECANCELED, libc::ECANCELED),
    ] {
        assert_eq!(error.code(), code);
    }
}

#[test]
fn owned_installation_reports_each_refusal() {
    assert_eq!(
        initialize_owned(true, true, true, false, 7).unwrap().owner,
        7
    );
    for (active, paused, free) in [
        (false, true, true),
        (true, false, true),
        (true, true, false),
    ] {
        assert_eq!(
            initialize_owned(active, paused, free, false, 7).unwrap_err(),
            InstallError::ClockNotOwned
        );
    }
    assert_eq!(
        initialize_owned(true, true, true, true, 7).unwrap_err(),
        InstallError::AlreadyInstalled
    );
}

#[test]
fn notification_installation_reports_each_refusal() {
    assert_eq!(initialize(false, false, 7), Ok(false));
    assert_eq!(initialize(true, false, 7), Ok(true));
    assert_eq!(
        initialize(true, true, 7),
        Err(NotificationError::AlreadyInstalled)
    );
    assert_eq!(
        initialize(true, false, -1),
        Err(NotificationError::ThreadUnavailable)
    );
}

#[test]
fn time_schedules_and_imprecise_ones_are_not_supported() {
    for (schedule, precise) in [
        (TimerSchedule::Time(1), true),
        (TimerSchedule::Rcbs(1), false),
    ] {
        let mut state = state();
        state.open_window(0x4000, 40).unwrap();
        assert_eq!(state.stage(schedule, precise), Err(Errno::EOPNOTSUPP));
        assert!(state.timer.request.is_none());
    }
}

#[test]
fn deliveries_are_published_in_place_of_older_ones() {
    let mut state = state();
    let position = OwnedTimerPosition {
        generation: 1,
        sequence: 2,
        rip: 0x4000,
        clock: 42,
        target: 42,
        suffix: 0,
    };
    state.publish_delivery(position).unwrap();
    assert_eq!(state.delivered, Some(position));
}

#[test]
fn closing_a_window_forgets_the_delivery_and_keeps_the_request() {
    let mut timer = OwnedTimer::new(7);
    timer.open_window(0x4000, 40).unwrap();
    timer
        .stage(
            TimerSchedule::Rcbs(2),
            true,
            StageReply::Armed(Generation { number: 3 }, Decision::Step),
        )
        .unwrap();
    timer
        .publish_delivery(OwnedTimerPosition {
            generation: 1,
            sequence: 2,
            rip: 3,
            clock: 4,
            target: 5,
            suffix: 6,
        })
        .unwrap();
    timer.close_window();
    assert_eq!((timer.window, timer.delivered), (None, None));
    assert_eq!(timer.request.unwrap().target, 42);
}

#[test]
fn later_interruptions_have_other_names() {
    let mut timer = OwnedTimer::new(7);
    let first = timer.begin_interruption(None, 0x4000, 40).unwrap();
    timer
        .resolve_interruption(&first, None, ResolutionReply::Unasked)
        .unwrap();
    let second = timer.begin_interruption(None, 0x4000, 40).unwrap();
    assert_ne!(first, second);
    assert_eq!(
        timer.resolve_interruption(&first, None, ResolutionReply::Unasked),
        Err(Errno::EINVAL)
    );
    assert_eq!(
        timer.resolve_interruption(&second, None, ResolutionReply::Unasked),
        Ok(InterruptionResolution::Preserved(None))
    );
}

#[test]
fn notification_timers_are_borrowed_by_their_paused_owner_once() {
    assert_eq!(check_borrow(7, 7, true, false, 4), Ok(5));
    assert_eq!(check_borrow(8, 7, true, false, 4), Err(Errno::EXDEV));
    assert_eq!(check_borrow(7, 7, false, false, 4), Err(Errno::EBUSY));
    assert_eq!(check_borrow(7, 7, true, true, 4), Err(Errno::EBUSY));
    assert_eq!(
        check_borrow(7, 7, true, false, u64::MAX),
        Err(Errno::EOVERFLOW)
    );
    assert_eq!(
        request_refusal(true),
        "LiteInst precise timer delivery requires an exact position witness and safe Tool entry"
    );
    assert_eq!(
        request_refusal(false),
        "LiteInst timer delivery requires a safe Tool entry"
    );
}

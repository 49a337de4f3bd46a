use liteinst_runtime::owned_context::native_step::FrameError;
use liteinst_runtime::owned_context::native_step::FrameImage;
use liteinst_runtime::owned_context::native_step::NativeState;
use liteinst_runtime::owned_context::native_step::Seal;
use liteinst_runtime::owned_context::native_step::FP;
use liteinst_runtime::owned_context::native_step::FP_POINTER;
use liteinst_runtime::owned_context::native_step::PREFIX;
use liteinst_runtime::owned_step::instruction::Instruction;
use liteinst_runtime::owned_step::native;
use liteinst_runtime::owned_step::Completion;
use liteinst_runtime::owned_step::Fault;
use liteinst_runtime::owned_step::Stepper;
use liteinst_runtime::registers::general;
use liteinst_runtime::registers::HookContext;
use liteinst_runtime::syscall_event;
use liteinst_runtime::timer::Decision;
use liteinst_runtime::timer::Generation;
use liteinst_runtime::timer::Observation;
use liteinst_runtime::timer::Ticket;

/// A timer that counts observations as they arrive.
#[derive(Debug, Default)]
struct Controller {
    number: u64,
    armed: Option<Armed>,
}

#[derive(Clone, Copy, Debug)]
struct Armed {
    generation: Generation,
    target: u64,
    suffix: u64,
    reached: bool,
    sequence: u64,
    clock: u64,
}

#[derive(Clone, Copy, Debug, PartialEq, Eq)]
enum TimerError {
    Overflow,
    Generation,
    Sequence,
    Clock,
    Overshot,
}

impl Controller {
    fn replace(
        &mut self,
        clock: u64,
        rcbs: u64,
        suffix: u64,
    ) -> Result<(Generation, Decision), TimerError> {
        let target = clock.checked_add(rcbs).ok_or(TimerError::Overflow)?;
        self.number += 1;
        let generation = Generation {
            number: self.number,
        };
        if rcbs == 0 && suffix == 0 {
            self.armed = None;
            return Ok((generation, Decision::Deliver));
        }
        self.armed = Some(Armed {
            generation,
            target,
            suffix,
            reached: rcbs == 0,
            sequence: 0,
            clock,
        });
        Ok((generation, Decision::Step))
    }

    fn observe(&mut self, observation: Observation) -> Result<Decision, TimerError> {
        let mut armed = self.armed.ok_or(TimerError::Generation)?;
        if armed.generation != observation.generation {
            return Err(TimerError::Generation);
        }
        if observation.sequence != armed.sequence + 1 {
            return Err(TimerError::Sequence);
        }
        if observation.clock < armed.clock {
            return Err(TimerError::Clock);
        }
        armed.sequence = observation.sequence;
        armed.clock = observation.clock;
        if !armed.reached {
            if observation.clock > armed.target {
                return Err(TimerError::Overshot);
            }
            armed.reached = observation.clock == armed.target;
        } else {
            armed.suffix -= 1;
        }
        if armed.reached && armed.suffix == 0 {
            self.armed = None;
            return Ok(Decision::Deliver);
        }
        self.armed = Some(armed);
        Ok(Decision::Step)
    }
}

fn stage_nop(
    stepper: &mut Stepper,
    controller: &mut Controller,
    owner: i64,
    frame: u64,
    pc: u64,
    flags: u64,
    clock: u64,
) -> Option<()> {
    if !stepper.may_stage_nop(owner, frame, pc, flags) {
        return None;
    }
    let armed = controller.replace(clock, 0, 1).ok();
    stepper.stage_nop(owner, frame, pc, flags, clock, armed)
}

fn complete(
    stepper: &mut Stepper,
    controller: &mut Controller,
    completion: Completion,
    clock: u64,
) -> Option<()> {
    let reply = stepper
        .completion_request(&completion, clock)
        .and_then(|observation| controller.observe(observation).ok());
    stepper.complete(completion, clock, reply)
}

fn read_fault_fixture(ticket: Option<Ticket>) -> (Stepper, [i64; 23]) {
    let mut context: HookContext = HookContext::default();
    context.instruction_pointer = 0x10110b;
    context.rflags = 0x246;
    context.rax = 0x1122334455667788;
    context.rcx = 99;
    let request = native::CpuStepRequest::decode_recorded(
        context.instruction_pointer,
        &[0x48, 0x8b, 0x0d, 0xee, 0xae, 0xff, 0xff],
        &context,
        false,
        &mut native::Refusal::new("test"),
    )
    .unwrap();
    let mut stepper = Stepper::default();
    stepper
        .stage_cpu((17, 3), ticket, request, &context, 40)
        .unwrap();
    let mut registers = [0; 23];
    for (slot, value) in registers.iter_mut().zip(general(&context)) {
        *slot = value as i64;
    }
    registers[libc::REG_RIP as usize] = context.instruction_pointer as i64;
    registers[libc::REG_EFL as usize] = (context.rflags | 0x10100) as i64;
    registers[libc::REG_TRAPNO as usize] = 14;
    registers[libc::REG_ERR as usize] = 4;
    (stepper, registers)
}

fn read_fault(registers: &[i64; 23]) -> Fault<'_> {
    Fault {
        signal: libc::SIGSEGV,
        code: 2,
        address: 0xfc000,
        registers,
    }
}

#[test]
fn modeled_read_capture_consumes_once_without_trace_or_clock_charge() {
    for armed in [false, true] {
        let mut controller = Controller::default();
        let (generation, _) = controller.replace(40, 2, 1).unwrap();
        let ticket = armed.then_some(Ticket {
            generation,
            sequence: 1,
        });
        let (mut stepper, registers) = read_fault_fixture(ticket);
        assert!(stepper.capture(17, 3, &registers, 42).is_none());
        let captured = stepper
            .capture_read_fault(17, 3, read_fault(&registers), 42)
            .unwrap();
        assert_eq!(captured.clock(), 42);
        assert_eq!(captured.identity().frame_generation, 3);
        assert_eq!(captured.request().input_flags(), 0x246);
        assert_eq!(captured.flags(), 0x10346);
        assert!(stepper.pending());
        assert!(
            stepper
                .capture_read_fault(17, 3, read_fault(&registers), 42)
                .is_none()
        );
        assert!(stepper.capture(17, 3, &registers, 42).is_none());
        for (owner, frame, successor) in
            [(18, 4, 0x101112), (17, 3, 0x101112), (17, 4, 0x101113)]
        {
            assert!(
                stepper
                    .complete_modeled(captured, owner, frame, successor)
                    .is_none()
            );
            assert!(stepper.pending());
        }
        let observed = stepper.complete_modeled(captured, 17, 4, 0x101112).unwrap();
        if armed {
            let observed = observed.unwrap();
            assert_eq!(
                (observed.sequence, observed.clock, observed.rip),
                (1, 42, 0x101112)
            );
            assert_eq!(controller.observe(observed).unwrap(), Decision::Step);
        } else {
            assert!(observed.is_none());
        }
        assert!(!stepper.pending());
        assert_eq!(stepper.completed, 0);
        assert!(stepper.last.is_none());
        assert_eq!(stepper.modeled_completed, 1);
        assert!(
            stepper
                .complete_modeled(captured, 17, 4, 0x101112)
                .is_none()
        );
    }
}

#[test]
fn modeled_read_capture_requires_exact_owner_fault_and_unmodified_inputs() {
    for mutation in 0..25 {
        let (mut stepper, mut registers) = read_fault_fixture(None);
        let mut owner = 17;
        let mut frame = 3;
        let mut clock = 40;
        let mut signal = libc::SIGSEGV;
        let mut code = 2;
        match mutation {
            0..16 => registers[mutation] ^= 1,
            16 => owner += 1,
            17 => frame += 1,
            18 => clock -= 1,
            19 => registers[libc::REG_RIP as usize] += 1,
            20 => registers[libc::REG_EFL as usize] ^= 0x400,
            21 => registers[libc::REG_EFL as usize] &= !0x100,
            22 => registers[libc::REG_ERR as usize] |= 2,
            23 => signal = libc::SIGBUS,
            24 => code = 1,
            _ => unreachable!(),
        }
        let fault = Fault {
            signal,
            code,
            address: 0xfc000,
            registers: &registers,
        };
        assert!(
            stepper
                .capture_read_fault(owner, frame, fault, clock)
                .is_none(),
            "mutation {mutation}"
        );
        assert!(stepper.pending());
        assert!(stepper.native.is_some());
        assert!(stepper.modeled.is_none());
        assert_eq!(stepper.modeled_completed, 0);
    }
}

#[test]
fn modeled_read_cancel_revokes_pending_input_without_retirement() {
    let (mut stepper, registers) = read_fault_fixture(None);
    let captured = stepper
        .capture_read_fault(17, 3, read_fault(&registers), 44)
        .unwrap();
    stepper.cancel();
    assert!(!stepper.pending());
    assert!(stepper.validate_modeled(captured, 17, 4).is_none());
    assert!(
        stepper
            .complete_modeled(captured, 17, 4, 0x101112)
            .is_none()
    );
    assert_eq!((stepper.completed, stepper.modeled_completed), (0, 0));
}

#[test]
fn modeled_read_keeps_observed_rf_instead_of_constructing_fault_flags() {
    for observed_rf in [0, 0x10000] {
        let (mut stepper, mut registers) = read_fault_fixture(None);
        registers[libc::REG_EFL as usize] = 0x346 | observed_rf;
        let captured = stepper
            .capture_read_fault(17, 3, read_fault(&registers), 40)
            .unwrap();
        assert_eq!(captured.request().input_flags(), 0x246);
        assert_eq!(captured.flags(), (0x346 | observed_rf) as u64);
    }
    let (mut stepper, mut registers) = read_fault_fixture(None);
    let (mut staged, previous) = stepper.native.unwrap();
    let mut original: HookContext = HookContext::default();
    original.instruction_pointer = previous.pc;
    original.rflags = previous.input_flags() | 0x10000;
    original.rax = 0x1122334455667788;
    original.rcx = 99;
    let (bytes, length) = previous.retained_instruction();
    let request = native::CpuStepRequest::decode_recorded(
        previous.pc,
        &bytes[..length],
        &original,
        true,
        &mut native::Refusal::new("test"),
    )
    .unwrap();
    staged.flags = original.rflags;
    stepper.native = Some((staged, request));
    registers[libc::REG_EFL as usize] &= !0x10000;
    assert!(
        stepper
            .capture_read_fault(17, 3, read_fault(&registers), 40)
            .is_none()
    );
    registers[libc::REG_EFL as usize] |= 0x10000;
    let captured = stepper
        .capture_read_fault(17, 3, read_fault(&registers), 40)
        .unwrap();
    assert_eq!(captured.flags(), 0x10346);
    assert_eq!(captured.request().input_flags(), 0x10246);
}

#[test]
fn optional_ticket_cpu_steps_keep_real_counts_and_one_use_after_delivery() {
    let mut controller = Controller::default();
    let (generation, _) = controller.replace(40, 2, 0).unwrap();
    let mut stepper = Stepper::default();
    let mut context: HookContext = HookContext::default();
    context.instruction_pointer = 0x4000;
    context.rflags = 0x202;
    let mut previous = None;
    for (index, count) in [40, 41, 42, 47].into_iter().enumerate() {
        let ticket = (index < 3).then_some(Ticket {
            generation,
            sequence: index as u64 + 1,
        });
        let request = native::CpuStepRequest::decode_recorded(
            0x4000,
            &[0xf3, 0x48, 0xab],
            &context,
            false,
            &mut native::Refusal::new("test"),
        )
        .unwrap();
        stepper
            .stage_cpu(
                (123, 4 + index as u64),
                ticket,
                request,
                &context,
                previous.map_or(40, |completion: Completion| completion.clock),
            )
            .unwrap();
        let captured = registers(0x4000);
        let completion = stepper
            .capture(123, 4 + index as u64, &captured, count)
            .unwrap();
        if let Some(previous) = previous {
            assert!(stepper.complete_cpu(previous, count).is_none());
        }
        assert!(stepper.complete_cpu(completion, count + 1).is_none());
        let observation = stepper.complete_cpu(completion, count).unwrap();
        assert!(stepper.complete_cpu(completion, count).is_none());
        if index < 3 {
            let observation = observation.unwrap();
            assert_eq!(observation.clock, count);
            assert_eq!(
                controller.observe(observation),
                Ok(if index == 2 {
                    Decision::Deliver
                } else {
                    Decision::Step
                })
            );
        } else {
            assert!(observation.is_none());
        }
        previous = Some(completion);
    }
    assert_eq!(stepper.completed, 4);
    assert_eq!(stepper.last.unwrap().clock, 47);
}

#[test]
fn unarmed_ret_uses_captured_cpu_registers_without_predicted_return() {
    let mut stepper = Stepper::default();
    let mut context: HookContext = HookContext::default();
    context.instruction_pointer = 0x4000;
    context.stack_pointer = 0x7000;
    context.rflags = 0x202;
    let request = native::CpuStepRequest::decode_recorded(
        0x4000,
        &[0xc3],
        &context,
        false,
        &mut native::Refusal::new("test"),
    )
    .unwrap();
    let mut stale = context;
    stale.stack_pointer += 8;
    assert!(
        stepper
            .stage_cpu((123, 4), None, request, &stale, 90)
            .is_none()
    );
    stepper
        .stage_cpu((123, 4), None, request, &context, 90)
        .unwrap();
    let mut captured = registers(0x9876);
    captured[libc::REG_RSP as usize] = 0x7008;
    assert!(stepper.capture(124, 4, &captured, 91).is_none());
    assert!(stepper.capture(123, 5, &captured, 91).is_none());
    let completion = stepper.capture(123, 4, &captured, 91).unwrap();
    assert_eq!(completion.pc, 0x9876);
    assert_eq!(completion.general.unwrap()[15], 0x7008);
    assert!(stepper.complete_cpu(completion, 91).unwrap().is_none());
    assert_eq!(stepper.completed, 1);
}

#[test]
fn cpu_data_fault_authenticates_pending_request_without_retiring_partial_state() {
    let mut stepper = Stepper::default();
    let mut context: HookContext = HookContext::default();
    context.instruction_pointer = 0x4000;
    context.rflags = 0x202;
    let request = native::CpuStepRequest::decode_recorded(
        0x4000,
        &[0xf3, 0x48, 0xab],
        &context,
        false,
        &mut native::Refusal::new("test"),
    )
    .unwrap();
    stepper
        .stage_cpu((123, 4), None, request, &context, 40)
        .unwrap();
    let mut captured = registers(0x4000);
    captured[libc::REG_TRAPNO as usize] = 14;
    captured[libc::REG_ERR as usize] = 6;
    captured[libc::REG_EFL as usize] |= 0x10000;
    captured[libc::REG_RCX as usize] = 3;
    captured[libc::REG_RDI as usize] = 0x9000;
    assert!(stepper.capture(123, 4, &captured, 43).is_none());
    assert!(stepper.validate_cpu_fault(123, 4, &captured, 43).is_some());
    assert!(stepper.validate_cpu_fault(124, 4, &captured, 43).is_none());
    assert!(stepper.validate_cpu_fault(123, 5, &captured, 43).is_none());
    assert!(stepper.validate_cpu_fault(123, 4, &captured, 39).is_none());
    for field in [libc::REG_RIP, libc::REG_EFL] {
        let mut invalid = captured;
        invalid[field as usize] ^= if field == libc::REG_RIP { 1 } else { 0x100 };
        assert!(stepper.validate_cpu_fault(123, 4, &invalid, 43).is_none());
    }
    assert_eq!(captured[libc::REG_RCX as usize], 3);
    stepper.cancel();
    assert!(!stepper.pending());
    assert_eq!(stepper.completed, 0);
    assert!(stepper.validate_cpu_fault(123, 4, &captured, 43).is_none());
}

fn capture_diagnostic_fixture(native: bool) -> Stepper {
    let mut stepper = Stepper::default();
    let mut controller = Controller::default();
    stage_nop(&mut stepper, &mut controller, 123, 4, 0x4000, 0x202, 40).unwrap();
    if native {
        let staged = stepper.expected.take().unwrap();
        let mut context: HookContext = HookContext::default();
        context.instruction_pointer = 0x4000;
        context.rflags = 0x202;
        let request = native::CpuStepRequest::decode_recorded(
            0x4000,
            &[0x90],
            &context,
            false,
            &mut native::Refusal::new("test"),
        )
        .unwrap();
        stepper
            .stage_precise(
                (123, 4),
                Ticket {
                    generation: staged.generation.unwrap(),
                    sequence: 7,
                },
                Instruction::Native(Box::new(request)),
                &context,
                40,
            )
            .unwrap();
    }
    stepper
}

fn capture_diagnostic_records(
    stepper: &Stepper,
    owner: i64,
    frame: u64,
    registers: &[i64; 23],
    clock: u64,
) -> Vec<(&'static str, &'static str, Option<i64>)> {
    let before = format!("{stepper:?}");
    let original_registers = *registers;
    let records: Vec<_> = stepper
        .report_capture_refusal(owner, frame, registers, clock)
        .into_iter()
        .map(|record| (record.reason, record.field, record.value))
        .collect();
    assert_eq!(format!("{stepper:?}"), before);
    assert_eq!(*registers, original_registers);
    records
}

fn assert_capture_diagnostic(
    stepper: &mut Stepper,
    owner: i64,
    frame: u64,
    registers: &[i64; 23],
    clock: u64,
    reason: &'static str,
) -> Vec<(&'static str, &'static str, Option<i64>)> {
    let before = format!("{stepper:?}");
    assert!(stepper.capture(owner, frame, registers, clock).is_none());
    assert_eq!(format!("{stepper:?}"), before);
    let records = capture_diagnostic_records(stepper, owner, frame, registers, clock);
    assert_eq!(records[0], (reason, "reason", None));
    assert!(records.iter().all(|record| record.0 == reason));
    records
}

#[test]
fn capture_diagnostics_native_ordered_reasons() {
    for (owner, frame, clock, field, value, reason) in [
        (124, 5, 39, libc::REG_RIP, 0, "capture/native-owner"),
        (123, 5, 39, libc::REG_RIP, 0, "capture/native-frame"),
        (
            123,
            4,
            39,
            libc::REG_RIP,
            0,
            "capture/native-clock-regression",
        ),
        (123, 4, 40, libc::REG_RIP, 0, "capture/native-pc-zero"),
        (
            123,
            4,
            40,
            libc::REG_RIP,
            1 << 47,
            "capture/native-pc-range",
        ),
        (
            123,
            4,
            40,
            libc::REG_EFL,
            0x202,
            "capture/native-trace-flags",
        ),
        (
            123,
            4,
            40,
            libc::REG_EFL,
            0x10302,
            "capture/native-trace-flags",
        ),
        (
            123,
            4,
            40,
            libc::REG_EFL,
            0x10202,
            "capture/native-trace-flags",
        ),
        (123, 4, 40, libc::REG_TRAPNO, 2, "capture/native-trap"),
        (123, 4, 40, libc::REG_ERR, 1, "capture/native-error"),
    ] {
        let mut stepper = capture_diagnostic_fixture(true);
        let mut registers = registers(0x4001);
        registers[field as usize] = value;
        assert_capture_diagnostic(&mut stepper, owner, frame, &registers, clock, reason);
    }
    let mut stepper = capture_diagnostic_fixture(true);
    let registers = registers(0x4001);
    stepper.capture(123, 4, &registers, 41).unwrap();
    assert_capture_diagnostic(
        &mut stepper,
        124,
        5,
        &registers,
        0,
        "capture/already-captured",
    );
}

#[test]
fn capture_diagnostics_expected_reasons_and_each_general_field() {
    for (owner, frame, field, value, reason) in [
        (124, 5, libc::REG_RIP, 0, "capture/expected-owner"),
        (123, 5, libc::REG_RIP, 0, "capture/expected-frame"),
        (123, 4, libc::REG_RIP, 0, "capture/expected-pc"),
        (123, 4, libc::REG_EFL, 0x303, "capture/expected-flags"),
        (123, 4, libc::REG_TRAPNO, 2, "capture/expected-trap"),
        (123, 4, libc::REG_ERR, 1, "capture/expected-error"),
    ] {
        let mut stepper = capture_diagnostic_fixture(false);
        let mut registers = registers(0x4001);
        registers[field as usize] = value;
        assert_capture_diagnostic(&mut stepper, owner, frame, &registers, 40, reason);
    }
    for field in 0..16 {
        let mut stepper = capture_diagnostic_fixture(false);
        stepper.expected.as_mut().unwrap().general = Some([0; 16]);
        let mut registers = registers(0x4001);
        registers[field] = 0x1234_5678_9abc_def0;
        if field < 15 {
            registers[field + 1] = 1;
        }
        let records = assert_capture_diagnostic(
            &mut stepper,
            123,
            4,
            &registers,
            40,
            "capture/expected-general",
        );
        for (name, value) in [
            ("general-index", field as i64),
            ("general-expected-high32", 0),
            ("general-expected-low32", 0),
            ("general-observed-high32", 0x1234_5678),
            ("general-observed-low32", 0x9abc_def0),
        ] {
            assert!(records.contains(&("capture/expected-general", name, Some(value))));
        }
    }
}

#[test]
fn capture_diagnostics_pending_kinds_without_trace_request() {
    for kind in ["none", "pending-fault", "pending-syscall", "pending-call"] {
        let mut stepper = capture_diagnostic_fixture(false);
        let staged = stepper.expected.take().unwrap();
        match kind {
            "pending-fault" => {
                let Instruction::Fault(event) =
                    Instruction::decode(0x4000, &[0x0f, 0xa2]).unwrap()
                else {
                    panic!("CPUID fixture");
                };
                stepper.fault = Some((event, staged));
            }
            "pending-syscall" => stepper.syscall = Some((libc::SYS_read, staged)),
            "pending-call" => stepper.call = Some(staged),
            _ => (),
        }
        let records = assert_capture_diagnostic(
            &mut stepper,
            123,
            4,
            &registers(0x4001),
            40,
            "capture/no-native-or-expected",
        );
        for field in [
            "pending-captured",
            "pending-native",
            "pending-expected",
            "pending-fault",
            "pending-syscall",
            "pending-call",
        ] {
            assert!(records.contains(&(
                "capture/no-native-or-expected",
                field,
                Some(i64::from(field == kind))
            )));
        }
    }
}

#[test]
fn capture_diagnostics_exact_words_and_no_native_result_prediction() {
    let mut stepper = capture_diagnostic_fixture(true);
    let staged = &mut stepper.native.as_mut().unwrap().0;
    staged.owner = 0x1234_5678_9abc_def0;
    staged.frame_generation = 0xfedc_ba98_7654_3210;
    staged.sequence = 0x9876_5432_1234_5678;
    staged.clock = 0xf123_4567_89ab_cdef;
    staged.pc = 0x0123_4567_89ab_cdef;
    staged.flags = 0x4567_89ab_cdef_0123;
    let snapshot = *staged;
    let mut registers = registers(0x4001);
    registers[libc::REG_RIP as usize] = 0x2345_6789_abcd_ef01;
    registers[libc::REG_EFL as usize] = 0x3456_789a_bcde_f012;
    registers[libc::REG_TRAPNO as usize] = -8;
    registers[libc::REG_ERR as usize] = -9;
    let frame = 0xa234_5678_9abc_def0;
    let clock = 0xb345_6789_abcd_ef01;
    let records = assert_capture_diagnostic(
        &mut stepper,
        -7,
        frame,
        &registers,
        clock,
        "capture/native-owner",
    );
    for (high, low, value) in [
        ("observed-frame-high32", "observed-frame-low32", frame),
        ("observed-clock-high32", "observed-clock-low32", clock),
        (
            "observed-pc-high32",
            "observed-pc-low32",
            registers[libc::REG_RIP as usize] as u64,
        ),
        (
            "observed-flags-high32",
            "observed-flags-low32",
            registers[libc::REG_EFL as usize] as u64,
        ),
        (
            "staged-frame-high32",
            "staged-frame-low32",
            snapshot.frame_generation,
        ),
        (
            "ticket-generation-high32",
            "ticket-generation-low32",
            snapshot.generation.unwrap().value(),
        ),
        (
            "ticket-sequence-high32",
            "ticket-sequence-low32",
            snapshot.sequence,
        ),
        ("staged-clock-high32", "staged-clock-low32", snapshot.clock),
        ("staged-pc-high32", "staged-pc-low32", snapshot.pc),
        ("staged-flags-high32", "staged-flags-low32", snapshot.flags),
    ] {
        assert!(records.contains(&("capture/native-owner", high, Some((value >> 32) as i64))));
        assert!(records.contains(&(
            "capture/native-owner",
            low,
            Some(i64::from(value as u32))
        )));
    }
    for (name, value) in [
        ("observed-owner", -7),
        ("observed-trap", -8),
        ("observed-error", -9),
        ("staged-owner", snapshot.owner),
        ("pending-native", 1),
    ] {
        assert!(records.contains(&("capture/native-owner", name, Some(value))));
    }
    assert!(
        !records
            .iter()
            .any(|(_, field, _)| field.starts_with("general-"))
    );
}

#[test]
fn capture_diagnostics_exact_retained_instruction_without_source_reread() {
    let mut inputs = vec![
        vec![0xf3, 0x48, 0xab],
        vec![0x48, 0x98],
        vec![0xf3, 0x0f, 0x1e, 0xfa],
    ];
    for length in 1..=15 {
        let mut bytes = vec![0x66; length];
        bytes[length - 1] = 0x90;
        inputs.push(bytes);
    }
    for instruction in inputs {
        let mut input = instruction.clone();
        input.extend_from_slice(&[0xcc; 15]);
        let mut context: HookContext = HookContext::default();
        context.instruction_pointer = 0x1234_5678_9000;
        context.rflags = 0x202;
        let request = native::CpuStepRequest::decode_recorded(
            context.instruction_pointer,
            &input,
            &context,
            false,
            &mut native::Refusal::new("test"),
        )
        .unwrap();
        let before = request;
        let (retained, length) = request.retained_instruction();
        assert_eq!(length, instruction.len());
        assert_eq!(&retained[..length], instruction);
        assert_eq!(request, before);
        input.fill(0xcc);
        let mut stepper = capture_diagnostic_fixture(true);
        let (staged, pending) = stepper.native.as_mut().unwrap();
        staged.pc = context.instruction_pointer;
        *pending = request;
        let records = assert_capture_diagnostic(
            &mut stepper,
            124,
            4,
            &registers(0x7777),
            40,
            "capture/native-owner",
        );
        assert!(
            records.contains(&("capture/native-owner", "request-pc-high32", Some(0x1234),))
        );
        assert!(records.contains(&(
            "capture/native-owner",
            "request-pc-low32",
            Some(0x5678_9000),
        )));
        assert!(records.contains(&(
            "capture/native-owner",
            "request-length",
            Some(instruction.len() as i64),
        )));
        let emitted: Vec<_> = records
            .iter()
            .filter(|(_, field, _)| field.starts_with("request-byte-"))
            .collect();
        assert_eq!(emitted.len(), instruction.len());
        for (index, (record, byte)) in emitted.iter().zip(&instruction).enumerate() {
            assert_eq!(record.1, format!("request-byte-{index}"));
            assert_eq!(record.2, Some(i64::from(*byte)));
        }
        assert_eq!(stepper.native.as_ref().unwrap().1, before);
    }
}

#[test]
fn capture_diagnostics_does_not_invent_bytes_without_pending_request() {
    for captured in [false, true] {
        let mut stepper = capture_diagnostic_fixture(captured);
        if captured {
            stepper.capture(123, 4, &registers(0x7777), 40).unwrap();
        }
        let records = assert_capture_diagnostic(
            &mut stepper,
            124,
            4,
            &registers(0x7777),
            40,
            if captured {
                "capture/already-captured"
            } else {
                "capture/expected-owner"
            },
        );
        assert!(
            !records
                .iter()
                .any(|(_, field, _)| field.starts_with("request-"))
        );
    }
}

#[test]
fn capture_diagnostics_success_is_silent_and_description_is_not_acceptance() {
    for native in [false, true] {
        for clock in [40, 41, u64::MAX] {
            let mut stepper = capture_diagnostic_fixture(native);
            let mut registers = registers(if native { 0x7777 } else { 0x4001 });
            registers[libc::REG_RAX as usize] = -1;
            let records = capture_diagnostic_records(&stepper, 123, 4, &registers, clock);
            assert_eq!(records[0], ("capture/unclassified", "reason", None));
            let completion = stepper.capture(123, 4, &registers, clock).unwrap();
            assert_eq!(completion.clock, if native { clock } else { 40 });
            assert_eq!(completion.pc, registers[libc::REG_RIP as usize] as u64);
        }
    }
    let mut stepper = capture_diagnostic_fixture(false);
    assert!(stepper.capture(123, 4, &registers(0x4001), 39).is_some());
}

#[test]
fn vdso_call_fault_has_one_use_without_instruction_or_clock_retirement() {
    let mut controller = Controller::default();
    let (generation, _) = controller.replace(40, 0, 1).unwrap();
    let mut context: HookContext = HookContext::default();
    context.instruction_pointer = 0x10800;
    context.stack_pointer = 0x20008;
    context.rflags = 0x202;
    context.rdi = 0x21000;
    let mut stepper = Stepper::default();
    let ticket = Ticket {
        generation,
        sequence: 1,
    };
    stepper.stage_call((123, 4), ticket, &context, 40).unwrap();
    assert!(stepper.stage_call((123, 4), ticket, &context, 40).is_none());
    let mut registers = [0; 23];
    registers[libc::REG_RIP as usize] = 0x10800;
    registers[libc::REG_RSP as usize] = 0x20008;
    registers[libc::REG_EFL as usize] = 0x10302;
    registers[libc::REG_RDI as usize] = 0x21000;
    registers[libc::REG_TRAPNO as usize] = 14;
    registers[libc::REG_ERR as usize] = 0x15;
    assert!(stepper.validate_call(123, 4, &registers).is_some());
    assert!(stepper.validate_call(124, 4, &registers).is_none());
    assert!(stepper.validate_call(123, 5, &registers).is_none());
    for index in (0..18).chain([libc::REG_TRAPNO as usize, libc::REG_ERR as usize]) {
        let mut changed = registers;
        changed[index] ^= 1;
        assert!(
            stepper.validate_call(123, 4, &changed).is_none(),
            "field {index}"
        );
    }
    assert!(stepper.cancel_call(41).is_none());
    assert!(stepper.pending());
    stepper.cancel_call(40).unwrap();
    assert_eq!(stepper.completed, 0);
    assert!(stepper.last.is_none());
    assert!(!stepper.pending());
    assert!(stepper.validate_call(123, 4, &registers).is_none());
    assert!(stepper.cancel_call(40).is_none());
}

#[test]
fn native_completion_binds_request_frame_sequence_clock_and_one_use() {
    let mut controller = Controller::default();
    let (generation, _) = controller.replace(40, 0, 1).unwrap();
    let mut context: HookContext = HookContext::default();
    context.instruction_pointer = 0x4000;
    context.rflags = 0x202;
    context.rcx = 7;
    let request = native::CpuStepRequest::decode_recorded(
        0x4000,
        &[0x48, 0x89, 0xc8],
        &context,
        false,
        &mut native::Refusal::new("test"),
    )
    .unwrap();
    let mut stepper = Stepper::default();
    stepper
        .stage_precise(
            (123, 4),
            Ticket {
                generation,
                sequence: 1,
            },
            Instruction::Native(Box::new(request)),
            &context,
            40,
        )
        .unwrap();
    let mut registers = registers(0x4003);
    registers[libc::REG_RAX as usize] = 7;
    registers[libc::REG_RCX as usize] = 7;
    assert!(stepper.capture(124, 4, &registers, 43).is_none());
    assert!(stepper.capture(123, 5, &registers, 43).is_none());
    assert!(stepper.capture(123, 4, &registers, 39).is_none());
    for field in [libc::REG_TRAPNO, libc::REG_ERR] {
        let mut invalid = registers;
        invalid[field as usize] ^= 1;
        assert!(stepper.capture(123, 4, &invalid, 43).is_none());
    }
    for flags in [0x202, 0x10302] {
        let mut invalid = registers;
        invalid[libc::REG_EFL as usize] = flags;
        assert!(stepper.capture(123, 4, &invalid, 43).is_none());
    }
    let completion = stepper.capture(123, 4, &registers, 43).unwrap();
    assert!(stepper.capture(123, 4, &registers, 43).is_none());
    assert!(stepper.complete_precise(completion, 44).is_none());
    let mut wrong_sequence = completion;
    wrong_sequence.sequence += 1;
    assert!(stepper.complete_precise(wrong_sequence, 43).is_none());
    for field in 0..16 {
        let mut changed = completion;
        changed.general.as_mut().unwrap()[field] ^= 1;
        assert!(stepper.complete_precise(changed, 43).is_none());
    }
    for changed in [
        Completion {
            pc: completion.pc + 1,
            ..completion
        },
        Completion {
            flags: completion.flags ^ 1,
            ..completion
        },
        Completion {
            owner: 124,
            ..completion
        },
        Completion {
            frame_generation: 5,
            ..completion
        },
        Completion {
            clock: 44,
            ..completion
        },
    ] {
        assert!(stepper.complete_precise(changed, changed.clock).is_none());
    }
    stepper.cancel();
    assert!(stepper.complete_precise(completion, 43).is_none());
    let (generation, _) = controller.replace(40, 0, 1).unwrap();
    stepper
        .stage_precise(
            (123, 5),
            Ticket {
                generation,
                sequence: 1,
            },
            Instruction::Native(Box::new(request)),
            &context,
            40,
        )
        .unwrap();
    assert!(stepper.complete_precise(completion, 43).is_none());
    let completion = stepper.capture(123, 5, &registers, 43).unwrap();
    assert_eq!(stepper.complete_precise(completion, 43).unwrap().clock, 43);
    assert!(stepper.complete_precise(completion, 43).is_none());
    assert_eq!(stepper.completed, 1);
}

#[test]
fn same_pc_rep_stops_use_actual_counter_and_each_timer_occurrence() {
    let mut controller = Controller::default();
    let (generation, _) = controller.replace(40, 0, 3).unwrap();
    let mut stepper = Stepper::default();
    let mut context: HookContext = HookContext::default();
    context.instruction_pointer = 0x4000;
    context.rflags = 0x602;
    context.rcx = 3;
    context.rdi = 0x20010;
    context.rax = 0x12345678;
    let mut clock = 40;
    for (index, actual_clock) in [40, 42, 43].into_iter().enumerate() {
        let request = native::CpuStepRequest::decode_recorded(
            0x4000,
            &[0xf3, 0x48, 0xab],
            &context,
            false,
            &mut native::Refusal::new("test"),
        )
        .unwrap();
        stepper
            .stage_precise(
                (123, index as u64 + 1),
                Ticket {
                    generation,
                    sequence: index as u64 + 1,
                },
                Instruction::Native(Box::new(request)),
                &context,
                clock,
            )
            .unwrap();
        let mut registers = registers(if index == 2 { 0x4003 } else { 0x4000 });
        registers[..16].copy_from_slice(&general(&context).map(|value| value as i64));
        registers[libc::REG_EFL as usize] = 0x702;
        registers[libc::REG_RCX as usize] -= 1;
        registers[libc::REG_RDI as usize] -= 8;
        let completion = stepper
            .capture(123, index as u64 + 1, &registers, actual_clock)
            .unwrap();
        let observation = stepper.complete_precise(completion, actual_clock).unwrap();
        assert_eq!(observation.clock, actual_clock);
        assert_eq!(
            controller.observe(observation),
            Ok(if index == 2 {
                Decision::Deliver
            } else {
                Decision::Step
            })
        );
        context.rcx -= 1;
        context.rdi -= 8;
        clock = actual_clock;
    }
    assert_eq!(stepper.completed, 3);
}

#[test]
fn positive_target_uses_actual_counts_at_same_pc_and_preserves_overshoot() {
    fn observe(counts: &[u64]) -> Vec<Result<Decision, TimerError>> {
        let mut controller = Controller::default();
        let (generation, _) = controller.replace(40, 2, 3).unwrap();
        let mut context: HookContext = HookContext::default();
        context.instruction_pointer = 0x4000;
        context.rflags = 0x202;
        context.rcx = counts.len() as u64 + 1;
        let mut stepper = Stepper::default();
        let mut clock = 40;
        counts
            .iter()
            .enumerate()
            .map(|(index, actual)| {
                let request = native::CpuStepRequest::decode_recorded(
                    0x4000,
                    &[0xf3, 0x48, 0xab],
                    &context,
                    false,
                    &mut native::Refusal::new("test"),
                )
                .unwrap();
                stepper
                    .stage_precise(
                        (123, index as u64 + 1),
                        Ticket {
                            generation,
                            sequence: index as u64 + 1,
                        },
                        Instruction::Native(Box::new(request)),
                        &context,
                        clock,
                    )
                    .unwrap();
                let mut registers = registers(0x4000);
                registers[..16]
                    .copy_from_slice(&general(&context).map(|value| value as i64));
                registers[libc::REG_RCX as usize] -= 1;
                let completion = stepper
                    .capture(123, index as u64 + 1, &registers, *actual)
                    .unwrap();
                let observation = stepper.complete_precise(completion, *actual).unwrap();
                assert_eq!(observation.clock, *actual);
                assert_eq!(observation.rip, 0x4000);
                clock = *actual;
                context.rcx -= 1;
                controller.observe(observation)
            })
            .collect()
    }
    assert_eq!(
        observe(&[40, 40, 41, 42, 42, 43, 44]),
        vec![
            Ok(Decision::Step),
            Ok(Decision::Step),
            Ok(Decision::Step),
            Ok(Decision::Step),
            Ok(Decision::Step),
            Ok(Decision::Step),
            Ok(Decision::Deliver),
        ]
    );
    assert_eq!(
        observe(&[40, 43]),
        vec![
            Ok(Decision::Step),
            Err(TimerError::Overshot)
        ]
    );
}

#[test]
fn page_fault_is_not_a_cpu_step_and_cancel_does_not_retire_it() {
    let mut controller = Controller::default();
    let (generation, _) = controller.replace(40, 0, 1).unwrap();
    let mut context: HookContext = HookContext::default();
    context.instruction_pointer = 0x4000;
    context.rflags = 0x202;
    let request = native::CpuStepRequest::decode_recorded(
        0x4000,
        &[0xf3, 0x48, 0xab],
        &context,
        false,
        &mut native::Refusal::new("test"),
    )
    .unwrap();
    let mut stepper = Stepper::default();
    stepper
        .stage_precise(
            (123, 1),
            Ticket {
                generation,
                sequence: 1,
            },
            Instruction::Native(Box::new(request)),
            &context,
            40,
        )
        .unwrap();
    let mut registers = registers(0x4000);
    registers[libc::REG_TRAPNO as usize] = 14;
    registers[libc::REG_ERR as usize] = 6;
    registers[libc::REG_EFL as usize] = 0x10302;
    assert!(stepper.capture(123, 1, &registers, 41).is_none());
    assert!(stepper.pending());
    stepper.cancel();
    assert!(!stepper.pending());
    assert_eq!(stepper.completed, 0);
    assert!(stepper.last.is_none());
}

#[test]
fn precise_completion_checks_request_sequence_all_registers_and_exact_branch_count() {
    let mut controller = Controller::default();
    let (generation, _) = controller.replace(40, 2, 3).unwrap();
    let ticket = Ticket {
        generation,
        sequence: 7,
    };
    let mut context: HookContext = HookContext::default();
    context.instruction_pointer = 0x4000;
    context.rflags = 0x202;
    context.rcx = 3;
    let mut stepper = Stepper::default();
    stepper
        .stage_precise(
            (123, 4),
            ticket,
            Instruction::Zero {
                target: 0x4000,
                fallthrough: 0x4002,
                zero: false,
            },
            &context,
            40,
        )
        .unwrap();
    let mut registers = registers(0x4000);
    registers[libc::REG_RCX as usize] = 3;
    for index in 0..16 {
        let mut invalid = registers;
        invalid[index] ^= 1;
        assert!(stepper.validate(123, 4, &invalid).is_none());
    }
    let completion = stepper.validate(123, 4, &registers).unwrap();
    assert!(stepper.complete_precise(completion, 40).is_none());
    let observation = stepper.complete_precise(completion, 41).unwrap();
    assert_eq!(
        (
            observation.generation,
            observation.sequence,
            observation.rip
        ),
        (generation, 7, 0x4000)
    );
    assert!(stepper.complete_precise(completion, 41).is_none());
}

#[test]
fn subscribed_fault_is_not_a_trace_completion_and_cancellation_consumes_it() {
    let mut controller = Controller::default();
    let (generation, _) = controller.replace(40, 2, 3).unwrap();
    let ticket = Ticket {
        generation,
        sequence: 2,
    };
    let mut context: HookContext = HookContext::default();
    context.instruction_pointer = 0x4000;
    context.rflags = 0x202;
    let instruction = Instruction::decode(0x4000, &[0x0f, 0xa2]).unwrap();
    let mut stepper = Stepper::default();
    stepper
        .stage_precise((123, 4), ticket, instruction, &context, 40)
        .unwrap();
    let mut registers = registers(0x4000);
    registers[libc::REG_EFL as usize] = 0x10302;
    registers[libc::REG_TRAPNO as usize] = 13;
    assert!(stepper.validate(123, 4, &registers).is_none());
    assert!(stepper.validate_fault(124, 4, &registers).is_none());
    assert!(stepper.validate_fault(123, 5, &registers).is_none());
    assert!(stepper.validate_fault(123, 4, &registers).is_some());
    assert!(stepper.cancel_fault(41).is_none());
    assert!(stepper.pending());
    stepper.cancel_fault(40).unwrap();
    assert!(!stepper.pending());
    assert!(stepper.validate_fault(123, 4, &registers).is_none());
    assert_eq!(stepper.completed, 0);
}

fn registers(pc: u64) -> [i64; 23] {
    let mut registers = [0; 23];
    registers[libc::REG_RIP as usize] = pc as i64;
    registers[libc::REG_EFL as usize] = 0x302;
    registers[libc::REG_TRAPNO as usize] = 1;
    registers
}

#[test]
fn syscall_token_cancels_without_retirement_and_requires_exact_profile() {
    assert_syscall_capture(libc::SYS_getpid);
}

#[test]
fn unsupported_effect_capture_preserves_owner_frame_controls_and_clock() {
    for number in [
        libc::SYS_execve,
        libc::SYS_clone,
        libc::SYS_rt_sigreturn,
        0x3fff_ffff,
    ] {
        assert!(!syscall_event::injectable(number));
        assert_syscall_capture(number);
    }
}

#[test]
fn ordinary_file_effect_capture_preserves_owner_frame_controls_and_clock() {
    for number in [
        libc::SYS_lseek,
        libc::SYS_write,
        libc::SYS_writev,
        libc::SYS_pwritev,
        libc::SYS_pwrite64,
        libc::SYS_readv,
        libc::SYS_preadv,
    ] {
        assert!(syscall_event::injectable(number));
        assert!(!syscall_event::backed_returning(number));
        assert_syscall_capture(number);
    }
}

fn assert_syscall_capture(number: i64) {
    let mut controller = Controller::default();
    let (generation, _) = controller.replace(40, 2, 3).unwrap();
    let ticket = Ticket {
        generation,
        sequence: 2,
    };
    let mut context: HookContext = HookContext::default();
    context.instruction_pointer = 0x4000;
    context.rflags = 0x202;
    context.rax = number as u64;
    let mut stepper = Stepper::default();
    stepper
        .stage_precise((123, 4), ticket, Instruction::Syscall, &context, 40)
        .unwrap();
    let mut registers = registers(0x4002);
    registers[libc::REG_RCX as usize] = 0x4002;
    registers[libc::REG_R11 as usize] = 0x302;
    registers[libc::REG_RAX as usize] = -999;
    registers[libc::REG_TRAPNO as usize] = 73;
    registers[libc::REG_ERR as usize] = 92;
    assert!(stepper.validate(123, 4, &registers).is_none());
    assert!(
        stepper
            .validate_syscall(123, 4, number, &registers)
            .is_some()
    );
    for (owner, frame, number) in [(124, 4, number), (123, 5, number), (123, 4, libc::SYS_read)]
    {
        assert!(
            stepper
                .validate_syscall(owner, frame, number, &registers)
                .is_none()
        );
    }
    for field in [
        libc::REG_RIP,
        libc::REG_RCX,
        libc::REG_R11,
        libc::REG_EFL,
        libc::REG_RDI,
    ] {
        let mut invalid = registers;
        invalid[field as usize] ^= 1;
        assert!(stepper.validate_syscall(123, 4, number, &invalid).is_none());
    }
    assert!(stepper.cancel_syscall(41).is_none());
    assert!(stepper.pending());
    stepper.cancel_syscall(40).unwrap();
    assert_eq!(stepper.completed, 0);
    assert!(stepper.cancel_syscall(40).is_none());
    let (generation, _) = controller.replace(40, 0, 1).unwrap();
    stepper
        .stage_precise(
            (123, 5),
            Ticket {
                generation,
                sequence: 1,
            },
            Instruction::Nop,
            &context,
            40,
        )
        .unwrap();
    assert!(
        stepper
            .validate_syscall(123, 4, number, &registers)
            .is_none()
    );
    stepper.cancel();
    assert!(!stepper.pending());
}

#[test]
fn completion_requires_exact_owner_frame_pc_flags_and_clock_once() {
    let mut stepper = Stepper::default();
    let mut controller = Controller::default();
    stage_nop(&mut stepper, &mut controller, 123, 4, 0x4000, 0x10202, 40).unwrap();
    let registers = registers(0x4001);
    assert!(stepper.validate(124, 4, &registers).is_none());
    assert!(stepper.validate(123, 5, &registers).is_none());
    for field in [
        libc::REG_RIP,
        libc::REG_EFL,
        libc::REG_TRAPNO,
        libc::REG_ERR,
    ] {
        let mut invalid = registers;
        invalid[field as usize] ^= 1;
        assert!(stepper.validate(123, 4, &invalid).is_none());
    }
    let completion = stepper.validate(123, 4, &registers).unwrap();
    assert!(complete(&mut stepper, &mut controller, completion, 41).is_none());
    complete(&mut stepper, &mut controller, completion, 40).unwrap();
    assert!(complete(&mut stepper, &mut controller, completion, 40).is_none());
    assert_eq!(stepper.completed, 1);
}

#[test]
fn cancelled_completion_cannot_advance_replacement() {
    let mut stepper = Stepper::default();
    let mut controller = Controller::default();
    stage_nop(&mut stepper, &mut controller, 123, 4, 0x4000, 0x202, 40).unwrap();
    let old = stepper.validate(123, 4, &registers(0x4001)).unwrap();
    stepper.cancel();
    stage_nop(&mut stepper, &mut controller, 123, 6, 0x4000, 0x202, 40).unwrap();
    assert!(complete(&mut stepper, &mut controller, old, 40).is_none());
    let current = stepper.validate(123, 6, &registers(0x4001)).unwrap();
    complete(&mut stepper, &mut controller, current, 40).unwrap();
    assert_eq!(stepper.completed, 1);
}

#[test]
fn unsupported_initial_tf_or_reentrant_arm_refuses() {
    let mut stepper = Stepper::default();
    let mut controller = Controller::default();
    assert!(stage_nop(&mut stepper, &mut controller, 123, 4, 0x4000, 0x302, 40).is_none());
    stage_nop(&mut stepper, &mut controller, 123, 4, 0x4000, 0x202, 40).unwrap();
    assert!(stage_nop(&mut stepper, &mut controller, 123, 4, 0x4000, 0x202, 40).is_none());
    assert_eq!(stepper.completed, 0);
}

struct Buffer([u8; 4096]);

const BUFFER_ADDRESS: u64 = 0x7fff_0000_0000;

fn put(bytes: &mut [u8], offset: usize, value: u64) {
    bytes[offset..offset + 8].copy_from_slice(&value.to_le_bytes());
}

fn fixture(source: &mut Buffer) {
    let pointer = BUFFER_ADDRESS;
    put(&mut source.0, 8, 0x7000);
    put(&mut source.0, 16, 7);
    put(&mut source.0, 8 + 176, 0x4001);
    put(&mut source.0, 8 + 184, 0x302);
    put(&mut source.0, 8 + 232, pointer + 512);
    source.0[512 + 464..512 + 468].copy_from_slice(&0x46505853u32.to_le_bytes());
    source.0[512 + 468..512 + 472].copy_from_slice(&(FP as u32).to_le_bytes());
    put(&mut source.0, 512 + 472, 0x2e7);
    source.0[512 + 480..512 + 484].copy_from_slice(&2440u32.to_le_bytes());
    put(&mut source.0, 512 + 512, 0x2e7);
    source.0[512 + 2440..512 + 2444].copy_from_slice(&0x46505845u32.to_le_bytes());
}

#[test]
fn every_postimage_byte_including_written_registers_and_trailer_is_sealed() {
    let mut source = Buffer([0; 4096]);
    fixture(&mut source);
    let address = BUFFER_ADDRESS + 8;
    let mut seal = Seal::default();
    seal.capture(&source.0[8..], address, 1).unwrap();
    let mut frame = seal.prefix;
    let fp_address = 0x7ffe_0000_0000;
    let mut fp = seal.fp;
    put(&mut frame, FP_POINTER, fp_address);
    assert!(seal.matches(&frame, &fp, fp_address, 1, true));
    for offset in 0..PREFIX {
        frame[offset] ^= 1;
        assert!(
            !seal.matches(&frame, &fp, fp_address, 1, true),
            "frame byte {offset}"
        );
        frame[offset] ^= 1;
    }
    for offset in 0..FP {
        fp[offset] ^= 1;
        assert!(
            !seal.matches(&frame, &fp, fp_address, 1, true),
            "FP/trailer byte {offset}"
        );
        fp[offset] ^= 1;
    }
    assert!(seal.retire_verified().is_none());
    assert!(seal.capture(&source.0[8..], address, 2).is_none());
}

/// The frame as it is after it was moved to another buffer.
fn relocate(source: &Buffer, fp_address: u64) -> (Vec<u8>, Vec<u8>) {
    let mut frame = source.0[8..8 + PREFIX].to_vec();
    put(&mut frame, FP_POINTER, fp_address);
    (frame, source.0[512..512 + FP].to_vec())
}

#[test]
fn verified_steps_cross_old_cumulative_archive_without_reusing_unverified_state() {
    let mut native_state = NativeState::new(64 * (4096 + 64)).unwrap();
    let mut source = Buffer([0; 4096]);
    fixture(&mut source);
    let address = BUFFER_ADDRESS + 8;
    let fp_address = 0x7ffe_0000_0200;
    let clock = 40;
    let mut controller = Controller::default();
    let (generation, _) = controller.replace(clock, 0, 64).unwrap();
    let mut stepper = Stepper::default();
    for sequence in 1..=64 {
        native_state.seal.retire_verified().unwrap();
        let pc = 0x4000 + (sequence - 1) * 3;
        let mut context: HookContext = HookContext::default();
        context.rax = sequence - 1;
        context.rcx = sequence;
        context.instruction_pointer = pc;
        context.rflags = 0x202;
        let request = native::CpuStepRequest::decode_recorded(
            pc,
            &[0x48, 0x89, 0xc8],
            &context,
            false,
            &mut native::Refusal::new("test"),
        )
        .unwrap();
        stepper
            .stage_precise(
                (123, sequence),
                Ticket {
                    generation,
                    sequence,
                },
                Instruction::Native(Box::new(request)),
                &context,
                clock,
            )
            .unwrap();
        put(&mut source.0, 8 + 152, sequence);
        put(&mut source.0, 8 + 160, sequence);
        put(&mut source.0, 8 + 176, pc + 3);
        put(&mut source.0, 8 + 48 + libc::REG_TRAPNO as usize * 8, 1);
        let registers: [i64; 23] = core::array::from_fn(|field| {
            i64::from_le_bytes(
                source.0[8 + 48 + field * 8..8 + 56 + field * 8]
                    .try_into()
                    .unwrap(),
            )
        });
        let completion = stepper.capture(123, sequence, &registers, clock).unwrap();
        assert!(stepper.capture(123, sequence, &registers, clock).is_none());
        let observation = stepper.complete_precise(completion, clock).unwrap();
        assert_eq!(observation.sequence, sequence);
        assert_eq!(
            controller.observe(observation).unwrap(),
            if sequence == 64 {
                Decision::Deliver
            } else {
                Decision::Step
            }
        );
        assert!(stepper.complete_precise(completion, clock).is_none());
        native_state
            .seal
            .capture(&source.0[8..], address, sequence)
            .unwrap();
        native_state
            .history
            .as_mut()
            .unwrap()
            .append([sequence, clock, 0, 0, 0, 0, 0, 0], &source.0)
            .unwrap();
        let (mut frame, fp) = relocate(&source, fp_address);
        let image = FrameImage {
            frame: &frame,
            fp: &fp,
            fp_address,
        };
        assert!(native_state.seal.relocated(&image, sequence));
        put(&mut frame, 184, 0x202);
        let image = FrameImage {
            frame: &frame,
            fp: &fp,
            fp_address,
        };
        context.rax = sequence;
        context.instruction_pointer = pc + 3;
        context.rflags = 0x202;
        native_state
            .seal
            .finish(&image, &context, sequence, false)
            .unwrap();
        assert!(native_state
            .seal
            .finish(&image, &context, sequence, false)
            .is_none());
    }
    assert_eq!(clock, 40);
    assert_eq!(stepper.completed, 64);
    let history = native_state.history.unwrap();
    assert_eq!(history.records(), 64);
    assert_eq!(history.bytes().len(), 64 * (4096 + 64));
    assert!(history.bytes().len() > 133120);
    assert!(!history.failed());
    assert!(NativeState::new(0).unwrap().history.is_none());
}

#[test]
fn modeled_frames_are_completed_once_and_only_as_sealed() {
    let mut source = Buffer([0; 4096]);
    fixture(&mut source);
    let mut seal = Seal::default();
    seal.capture(&source.0[8..], BUFFER_ADDRESS + 8, 1).unwrap();
    let fp_address = 0x7ffe_0000_0200;
    let (mut frame, fp) = relocate(&source, fp_address);
    put(&mut frame, 184, 0x202);
    let image = FrameImage {
        frame: &frame,
        fp: &fp,
        fp_address,
    };
    assert!(seal.may_complete_modeled(&image, 1));
    assert!(!seal.may_complete_modeled(&image, 2));
    let other = FrameImage {
        frame: &frame,
        fp: &fp,
        fp_address: fp_address + 64,
    };
    assert!(!seal.may_complete_modeled(&other, 1));
    assert_eq!(
        seal.complete_modeled(&other, 1, Some(&image)),
        Err(FrameError::Metadata)
    );
    assert_eq!(
        seal.complete_modeled(&image, 1, None),
        Err(FrameError::Incomplete)
    );
    let mut read = frame.clone();
    put(&mut read, 48 + 13 * 8, 77);
    let changed = [1; FP];
    let edited = FrameImage {
        frame: &read,
        fp: &changed,
        fp_address,
    };
    assert_eq!(
        seal.complete_modeled(&image, 1, Some(&edited)),
        Err(FrameError::Metadata)
    );
    let completed = FrameImage {
        frame: &read,
        fp: &fp,
        fp_address,
    };
    assert_eq!(seal.complete_modeled(&image, 1, Some(&completed)), Ok(()));
    assert_eq!(seal.prefix[..], read[..]);
    assert!(!seal.may_complete_modeled(&image, 1));
    assert!(seal.may_complete_modeled(&completed, 1));
}

#[test]
fn captures_know_their_context_and_completions_their_kind() {
    let (mut stepper, registers) = read_fault_fixture(None);
    let captured = stepper
        .capture_read_fault(17, 3, read_fault(&registers), 42)
        .unwrap();
    assert!(captured.staged.is_cpu());
    assert_eq!(captured.address(), 0xfc000);
    assert_eq!(captured.ticket(), None);
    let mut context: HookContext = HookContext::default();
    context.instruction_pointer = 0x10110b;
    context.rflags = 0x10346;
    context.rax = 0x1122334455667788;
    context.rcx = 99;
    assert!(captured.matches_context(&context));
    let mut other = context;
    other.rflags = 0x246;
    assert!(!captured.matches_context(&other));
    other = context;
    other.instruction_pointer += 1;
    assert!(!captured.matches_context(&other));
    other = context;
    other.rcx = 98;
    assert!(!captured.matches_context(&other));
    let mut nop = Stepper::default();
    nop.stage_nop(
        123,
        4,
        0x4000,
        0x202,
        40,
        Some((Generation { number: 1 }, Decision::Step)),
    )
    .unwrap();
    assert!(!nop.expected.unwrap().is_cpu());
}

use iced_x86::Decoder;
use iced_x86::DecoderOptions;
use liteinst_runtime::instruction_event::InstructionEvent;
use liteinst_runtime::instruction_event::Kind;
use liteinst_runtime::owned_step::instruction::Instruction;
use liteinst_runtime::owned_step::native::inspect;
use liteinst_runtime::owned_step::native::CpuStepRequest;
use liteinst_runtime::owned_step::native::Flow;
use liteinst_runtime::owned_step::native::Refusal;
use liteinst_runtime::registers::HookContext;

#[test]
fn finite_decode_refuses_syscalls_flags_and_repeated_instructions() {
    for bytes in [
        &[0x0f, 0x05][..],
        &[0x9d],
        &[0xf3, 0xa4],
        &[0xff, 0xe0],
        &[0xcc],
        &[0x0f, 0x0b],
    ] {
        assert!(Instruction::decode(0x4000, bytes).is_none());
    }
    assert!(Instruction::decode(0x4000, &[0xb9, 1, 2]).is_none());
}
#[test]
fn decrement_predicts_all_changed_flags_and_zero_extended_ecx() {
    for (before, after, flags) in [
        (0u32, u32::MAX, 0x397),
        (1, 0, 0x347),
        (0x8000_0000, 0x7fff_ffff, 0xb17),
    ] {
        let mut context: HookContext = HookContext::default();
        context.rcx = 0xfeed_0000_0000_0000 | u64::from(before);
        context.rflags = 0x10203;
        let plan = Instruction::DecEcx.plan(0x4000, &context).unwrap();
        assert_eq!(
            (plan.pc, plan.general[14], plan.flags, plan.rcbs),
            (0x4002, u64::from(after), flags, 0)
        );
    }
}
#[test]
fn conditional_counts_taken_or_not_and_jump_can_repeat_pc() {
    let mut context: HookContext = HookContext::default();
    for flags in [0x202, 0x242] {
        context.rflags = flags;
        let plan = Instruction::decode(0x4000, &[0x75, 0xfe])
            .unwrap()
            .plan(0x4000, &context)
            .unwrap();
        assert_eq!(plan.rcbs, 1);
        assert_eq!(plan.pc, if flags == 0x202 { 0x4000 } else { 0x4002 });
    }
    let plan = Instruction::decode(0x4000, &[0xeb, 0xfe])
        .unwrap()
        .plan(0x4000, &context)
        .unwrap();
    assert_eq!((plan.pc, plan.rcbs), (0x4000, 0));
}

#[test]
fn near_conditional_encoding_matches_linked_guest_and_checks_length() {
    let mut context: HookContext = HookContext::default();
    for opcode in [0x84, 0x85] {
        let bytes = [0x0f, opcode, 0xf8, 0xff, 0xff, 0xff];
        for length in 0..bytes.len() {
            assert!(Instruction::decode(0x4002, &bytes[..length]).is_none());
        }
        for flags in [0x202, 0x242] {
            context.rflags = flags;
            let plan = Instruction::decode(0x4002, &bytes)
                .unwrap()
                .plan(0x4002, &context)
                .unwrap();
            let taken = (opcode == 0x84) == (flags & 64 != 0);
            assert_eq!(
                (plan.pc, plan.rcbs),
                (if taken { 0x4000 } else { 0x4008 }, 1)
            );
        }
    }
}

fn context() -> HookContext {
    let mut context: HookContext = HookContext::default();
    context.instruction_pointer = 0x10000;
    context.rflags = 0x202;
    context
}

#[test]
fn ordinary_cpu_effects_are_not_predicted_or_dereferenced() {
    for bytes in [
        &[0xf3, 0x48, 0xab][..],
        &[0xf3, 0xa4],
        &[0xf2, 0xae],
        &[0x48, 0x8b, 0x07],
        &[0x48, 0x89, 0x07],
        &[0xff, 0xe0],
        &[0xc3],
        &[0xf0, 0x48, 0x01, 0x07],
        &[0xf3, 0x0f, 0x1e, 0xfa],
        &[0x48, 0x98],
        &[0x75, 0xfe],
        &[0x48, 0xd3, 0xe0],
        &[0x64, 0x48, 0x8b, 0x07],
        &[0x65, 0x48, 0x89, 0x07],
        &[0x64, 0xf3, 0xa4],
    ] {
        for count in [0, 1, 2, u64::MAX] {
            for direction in [0, 0x400] {
                let mut context = context();
                context.rcx = count;
                context.rdi = u64::MAX;
                context.rflags |= direction;
                let request = CpuStepRequest::decode_recorded(
                    0x10000,
                    bytes,
                    &context,
                    false,
                    &mut Refusal::new("test"),
                )
                .unwrap();
                assert!(request.starts_at(&context));
                assert_eq!(&request.bytes[..request.length], bytes);
            }
        }
    }
}

#[test]
fn request_binds_original_registers_flags_and_pc() {
    let original = context();
    let request = CpuStepRequest::decode_recorded(
        0x10000,
        &[0xf3, 0x48, 0xab],
        &original,
        false,
        &mut Refusal::new("test"),
    )
    .unwrap();
    let mut changed = original;
    changed.rcx = 1;
    assert!(!request.starts_at(&changed));
    changed = original;
    changed.instruction_pointer += 3;
    assert!(!request.starts_at(&changed));
    changed = original;
    changed.rflags ^= 0x400;
    assert!(!request.starts_at(&changed));
}

#[test]
fn real_control_and_nondeterminism_hazards_remain_refused() {
    for bytes in [
        &[0x9c][..],
        &[0x9d],
        &[0x48, 0xcf],
        &[0x8e, 0xd0],
        &[0x0f, 0xb2, 0x07],
        &[0x0f, 0x05],
        &[0xcd, 0x80],
        &[0xcc],
        &[0x0f, 0xa2],
        &[0x0f, 0x31],
        &[0x0f, 0x33],
        &[0x0f, 0x01, 0xf9],
        &[0x48, 0x0f, 0xc7, 0xf0],
        &[0x48, 0x0f, 0xc7, 0xf8],
        &[0x8e, 0xe0],
        &[0x8e, 0xe8],
        &[0xf3, 0x48, 0x0f, 0xae, 0xd0],
        &[0xc7, 0xf8, 0, 0, 0, 0],
        &[0xf0, 0x90],
        &[0x48],
    ] {
        assert!(!CpuStepRequest::eligible(0x10000, bytes), "{bytes:x?}");
    }
}

#[test]
fn near_calls_and_returns_are_not_system_flow_transitions() {
    for bytes in [
        &[0xe8, 0, 0, 0, 0][..],
        &[0xff, 0xd0],
        &[0xff, 0x17],
        &[0xc3],
        &[0xc2, 0x10, 0],
    ] {
        let context = context();
        let request = CpuStepRequest::decode_recorded(
            0x10000,
            bytes,
            &context,
            false,
            &mut Refusal::new("test"),
        )
        .unwrap();
        assert!(request.starts_at(&context));
        assert_eq!(&request.bytes[..request.length], bytes);
    }
    for bytes in [
        &[0x0f, 0x05][..],
        &[0x0f, 0x34],
        &[0x0f, 0x07],
        &[0x48, 0x0f, 0x07],
        &[0x0f, 0x35],
        &[0x48, 0x0f, 0x35],
        &[0x48, 0xcf],
        &[0xf3, 0x0f, 0x01, 0xec],
        &[0x0f, 0x01, 0xc1],
        &[0x0f, 0x01, 0xd9],
        &[0xff, 0x18],
        &[0xcb],
        &[0xca, 0x10, 0],
    ] {
        let instruction = Decoder::with_ip(64, bytes, 0x10000, DecoderOptions::NONE).decode();
        assert!(!instruction.is_invalid(), "{bytes:x?}");
        assert!(!CpuStepRequest::eligible(0x10000, bytes), "{bytes:x?}");
    }
}

#[test]
fn owned_tf_and_fault_resume_are_not_guest_exemptions() {
    let mut context = context();
    context.rflags |= 0x10000;
    assert!(
        CpuStepRequest::decode_recorded(
            0x10000,
            &[0x90],
            &context,
            false,
            &mut Refusal::new("test")
        )
        .is_none()
    );
    assert!(
        CpuStepRequest::decode_recorded(
            0x10000,
            &[0x90],
            &context,
            true,
            &mut Refusal::new("test")
        )
        .is_some()
    );
    context.rflags |= 0x100;
    assert!(
        CpuStepRequest::decode_recorded(
            0x10000,
            &[0x90],
            &context,
            true,
            &mut Refusal::new("test")
        )
        .is_none()
    );
}

#[test]
fn inspection_reports_what_the_decoder_finds() {
    let facts = inspect(0x10000, &[0x48, 0x89, 0xc8, 0x90]);
    assert!(!facts.invalid);
    assert_eq!(facts.length, 3);
    assert_eq!(facts.flow, Flow::Next);
    assert_eq!(facts.mnemonic, iced_x86::Mnemonic::Mov as u32);
    assert!(facts.registers.iter().all(|register| !register.segment));
    let truncated = inspect(0x10000, &[0x48, 0x89]);
    assert!(truncated.invalid);
    let call = inspect(0x10000, &[0xe8, 0, 0, 0, 0]);
    assert!(call.call_near && !call.call_near_indirect);
    assert_eq!(call.flow, Flow::Call);
    let indirect = inspect(0x10000, &[0xff, 0xd0]);
    assert!(indirect.call_near_indirect && !indirect.call_near);
    assert_eq!(indirect.flow, Flow::IndirectCall);
    assert_eq!(inspect(0x10000, &[0xff, 0xe0]).flow, Flow::IndirectBranch);
    assert_eq!(inspect(0x10000, &[0xc3]).flow, Flow::Return);
    assert_eq!(inspect(0x10000, &[0x75, 0xfe]).flow, Flow::ConditionalBranch);
    assert_eq!(
        inspect(0x10000, &[0xeb, 0xfe]).flow,
        Flow::UnconditionalBranch
    );
    assert_eq!(inspect(0x10000, &[0xcc]).flow, Flow::Interrupt);
    assert_eq!(inspect(0x10000, &[0x0f, 0x0b]).flow, Flow::Exception);
    assert_eq!(
        inspect(0x10000, &[0xc7, 0xf8, 0, 0, 0, 0]).flow,
        Flow::XbeginXabortXend
    );
    assert!(inspect(0x10000, &[0xf4]).privileged);
    assert!(inspect(0x10000, &[0x48, 0xff, 0x2f]).jmp_far_indirect);
    assert!(!inspect(0x10000, &[0x48, 0xff, 0x2f]).jmp_far);
    assert!(inspect(0x10000, &[0xf2, 0xf0, 0x48, 0x01, 0x07]).xacquire);
    assert!(inspect(0x10000, &[0xf3, 0xf0, 0x48, 0x01, 0x07]).xrelease);
    let segment = inspect(0x10000, &[0x8e, 0xe0]);
    assert!(segment
        .registers
        .iter()
        .any(|register| register.segment
            && register.access == iced_x86::OpAccess::Write as u32));
}

#[test]
fn subscribed_instructions_are_recognized_by_their_encoding() {
    for kind in [Kind::Cpuid, Kind::Rdtsc, Kind::Rdtscp] {
        let bytes = kind.bytes();
        let event = InstructionEvent::decode(0x4000, &bytes).unwrap();
        assert_eq!(event.kind, kind);
        assert_eq!(event.pc, 0x4000);
        assert_eq!(event.resume_pc, 0x4000 + bytes.len() as u64);
        assert!(InstructionEvent::decode(0x4000, &bytes[..bytes.len() - 1]).is_none());
        assert!(InstructionEvent::decode(u64::MAX, &bytes).is_none());
        assert_eq!(
            Instruction::decode(0x4000, &bytes),
            Some(Instruction::Fault(event))
        );
    }
    assert!(InstructionEvent::decode(0x4000, &[0x0f, 0x05]).is_none());
}

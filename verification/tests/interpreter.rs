//! Admission of the sealed interpreter, and the words and texts it is made of.

use liteinst_runtime::bytes::read_u16;
use liteinst_runtime::bytes::read_u32;
use liteinst_runtime::bytes::read_u64;
use liteinst_runtime::startup::original_interpreter::admit_descriptor;
use liteinst_runtime::startup::original_interpreter::admit_file;
use liteinst_runtime::startup::original_interpreter::admit_seals;
use liteinst_runtime::startup::original_interpreter::AdmissionError;
use liteinst_runtime::startup::original_interpreter::OriginalInterpreter;
use liteinst_runtime::startup::original_interpreter::IMAGE_FD_ENV;
use liteinst_runtime::startup::original_interpreter::REQUIRED_SEALS;
use liteinst_runtime::startup::AuxvSnapshot;
use liteinst_runtime::startup::InterpreterImage;
use liteinst_runtime::startup::PlanError;
use liteinst_runtime::text::append_decimal;
use liteinst_runtime::text::append_signed;
use liteinst_runtime::text::join;
use liteinst_runtime::text::join_decimal;

const BASE: u64 = 0x7000_0000;

/// One readable and executable load of a page, entered at 0x100.
fn image() -> Vec<u8> {
    let mut bytes = vec![0u8; 0x1000];
    bytes[..8].copy_from_slice(b"\x7fELF\x02\x01\x01\x00");
    bytes[16..18].copy_from_slice(&3u16.to_le_bytes());
    bytes[18..20].copy_from_slice(&62u16.to_le_bytes());
    bytes[20..24].copy_from_slice(&1u32.to_le_bytes());
    bytes[24..32].copy_from_slice(&0x100u64.to_le_bytes());
    bytes[32..40].copy_from_slice(&64u64.to_le_bytes());
    bytes[52..54].copy_from_slice(&64u16.to_le_bytes());
    bytes[54..56].copy_from_slice(&56u16.to_le_bytes());
    bytes[56..58].copy_from_slice(&1u16.to_le_bytes());
    bytes[64..68].copy_from_slice(&1u32.to_le_bytes());
    bytes[68..72].copy_from_slice(&5u32.to_le_bytes());
    bytes[96..104].copy_from_slice(&0x800u64.to_le_bytes());
    bytes[104..112].copy_from_slice(&0x800u64.to_le_bytes());
    bytes[112..120].copy_from_slice(&0x1000u64.to_le_bytes());
    bytes
}

fn auxv() -> AuxvSnapshot {
    let stack = 0x7fff_ffe0_0000u64..0x7fff_fff0_0000u64;
    let entries: [(u64, u64); 10] = [
        (3, 0x400040),
        (4, 56),
        (5, 3),
        (6, 4096),
        (7, BASE),
        (9, 0x401000),
        (25, stack.start + 0x1000),
        (31, stack.start + 0x1800),
        (33, 0x7fff_0000_0000),
        (0, 0),
    ];
    let bytes: Vec<u8> = entries
        .iter()
        .flat_map(|(tag, value)| tag.to_le_bytes().into_iter().chain(value.to_le_bytes()))
        .collect();
    AuxvSnapshot::parse(&bytes, stack, 0x405000).unwrap()
}

#[test]
fn standard_descriptors_are_not_admitted() {
    assert_eq!(IMAGE_FD_ENV, "HERMIT_LITEINST_ORIGINAL_INTERPRETER_FD");
    for descriptor in [-1, 0, 1, 2] {
        let error = admit_descriptor(descriptor).unwrap_err();
        assert_eq!(error, AdmissionError::OverlapsStdio);
        assert_eq!(
            error.text(),
            Some("original interpreter descriptor overlaps stdio")
        );
    }
    assert_eq!(admit_descriptor(3), Ok(()));
}

#[test]
fn every_seal_is_required() {
    let required = libc::F_SEAL_SEAL | libc::F_SEAL_SHRINK | libc::F_SEAL_GROW | libc::F_SEAL_WRITE;
    assert_eq!(REQUIRED_SEALS, required);
    assert_eq!(admit_seals(required), Ok(()));
    assert_eq!(admit_seals(required | libc::F_SEAL_FUTURE_WRITE), Ok(()));
    assert_eq!(admit_seals(-1), Err(AdmissionError::SealQuery));
    assert_eq!(AdmissionError::SealQuery.text(), None);
    for seal in [
        libc::F_SEAL_SEAL,
        libc::F_SEAL_SHRINK,
        libc::F_SEAL_GROW,
        libc::F_SEAL_WRITE,
    ] {
        let error = admit_seals(required & !seal).unwrap_err();
        assert_eq!(error, AdmissionError::NotSealed);
        assert_eq!(
            error.text(),
            Some("original interpreter is not fully sealed")
        );
    }
}

#[test]
fn admitted_files_are_bounded_and_regular() {
    assert_eq!(admit_file(64, true), Ok(64));
    assert_eq!(admit_file(512 << 20, true), Ok(512 << 20));
    for (length, regular) in [(63, true), ((512 << 20) + 1, true), (64, false)] {
        let error = admit_file(length, regular).unwrap_err();
        assert_eq!(error, AdmissionError::NotBoundedRegularImage);
        assert_eq!(
            error.text(),
            Some("original interpreter file is not a bounded regular image")
        );
    }
}

#[test]
fn acquired_interpreters_keep_their_bytes_and_plan_like_their_image() {
    let bytes = image();
    let interpreter = OriginalInterpreter::acquire(bytes.clone(), 7, 9).unwrap();
    assert_eq!(interpreter.bytes(), bytes);
    assert_eq!(interpreter.file_identity(), (7, 9));
    let initial = auxv();
    let plan = interpreter
        .plan(&initial, BASE..BASE + 0x1000, &[])
        .unwrap();
    let parsed = InterpreterImage::parse(&bytes).unwrap();
    let direct = parsed
        .plan_at_original_base(&initial, BASE..BASE + 0x1000, &[])
        .unwrap();
    assert_eq!(plan.interpreter_entry(), BASE + 0x100);
    assert_eq!(plan.interpreter_entry(), direct.interpreter_entry());
    assert_eq!(
        interpreter
            .plan(&initial, BASE + 0x1000..BASE + 0x2000, &[])
            .err(),
        parsed
            .plan_at_original_base(&initial, BASE + 0x1000..BASE + 0x2000, &[])
            .err()
    );
}

#[test]
fn malformed_images_are_not_acquired() {
    let mut bytes = image();
    bytes[0] = 0;
    let expected: PlanError = InterpreterImage::parse(&bytes).unwrap_err();
    match OriginalInterpreter::acquire(bytes, 7, 9) {
        Err(AdmissionError::Image(error)) => assert_eq!(error, expected),
        _ => panic!("a malformed image was acquired"),
    }
}

#[test]
fn words_are_little_endian() {
    let bytes = [0x01, 0x02, 0x03, 0x04, 0x05, 0x06, 0x07, 0x88, 0xff];
    assert_eq!(read_u16(&bytes, 0), 0x0201);
    assert_eq!(read_u16(&bytes, 7), 0xff88);
    assert_eq!(read_u32(&bytes, 1), 0x0504_0302);
    assert_eq!(read_u64(&bytes, 0), 0x8807_0605_0403_0201);
    assert_eq!(read_u64(&bytes, 1), 0xff88_0706_0504_0302);
}

#[test]
fn numbers_are_written_in_decimal() {
    for value in [0, 7, 10, 999, u64::MAX] {
        let mut text = String::from("n=");
        append_decimal(&mut text, value);
        assert_eq!(text, format!("n={value}"));
        assert_eq!(join_decimal("n=", value), text);
    }
    for value in [0, -1, i32::MIN, i32::MAX] {
        let mut text = String::new();
        append_signed(&mut text, value);
        assert_eq!(text, value.to_string());
    }
    assert_eq!(join("left ", "right"), "left right");
}

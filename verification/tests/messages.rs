use playtoearn::errors::ErrorCode;
use playtoearn::message::{canonical_message, u64_to_decimal};
use playtoearn::signature::{verify_signature, InstructionSysvar, ED25519_PROGRAM_ID};

#[test]
fn decimal_rendering() {
    assert_eq!(u64_to_decimal(0), "0");
    assert_eq!(u64_to_decimal(7), "7");
    assert_eq!(u64_to_decimal(10), "10");
    assert_eq!(u64_to_decimal(1234567890), "1234567890");
    assert_eq!(u64_to_decimal(u64::MAX), "18446744073709551615");
}

#[test]
fn canonical_message_layout() {
    assert_eq!(
        canonical_message(5, 100, 0, "claim"),
        "{\"wallet\":\"5\",\"amount\":100,\"timestamp\":\"0\",\"action\":\"claim\"}"
    );
    assert_eq!(
        canonical_message(12, 7, 1700000000, "burn"),
        "{\"wallet\":\"12\",\"amount\":7,\"timestamp\":\"1700000000\",\"action\":\"burn\"}"
    );
}

#[test]
fn attestation_must_immediately_precede() {
    let sig = [0u8; 64];
    let ok = InstructionSysvar { current_index: 1, program_ids: vec![ED25519_PROGRAM_ID, 42] };
    assert!(verify_signature(&ok, b"m", &sig, 77).is_ok());

    // As the first operation of the unit there is nothing before to attest.
    let first = InstructionSysvar { current_index: 0, program_ids: vec![42] };
    assert_eq!(verify_signature(&first, b"m", &sig, 77), Err(ErrorCode::InvalidSignature));

    // An attestation elsewhere than the immediately preceding slot does not count.
    let gap = InstructionSysvar {
        current_index: 2,
        program_ids: vec![ED25519_PROGRAM_ID, 42, 42],
    };
    assert_eq!(verify_signature(&gap, b"m", &sig, 77), Err(ErrorCode::InvalidSignature));
}

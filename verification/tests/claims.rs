use std::collections::HashMap;

use playtoearn::errors::ErrorCode;
use playtoearn::policy::claim_tokens;
use playtoearn::signature::{InstructionSysvar, ED25519_PROGRAM_ID};
use playtoearn::state::{ConfigAccount, Identity, UserClaimAccount};

const PROGRAM: Identity = 4242;
const BACKEND: Identity = 77;
const USER: Identity = 5;
const SIG: [u8; 64] = [7u8; 64];

fn config(max_claim_per_user: u64, total_supply_limit: u64, total_minted: u64) -> ConfigAccount {
    ConfigAccount {
        payment_token_mint: 9,
        admin: 1,
        emergency_paused: false,
        max_claim_per_user,
        total_supply_limit,
        total_minted,
    }
}

fn attested() -> InstructionSysvar {
    InstructionSysvar { current_index: 1, program_ids: vec![ED25519_PROGRAM_ID, PROGRAM] }
}

fn first_instruction() -> InstructionSysvar {
    InstructionSysvar { current_index: 0, program_ids: vec![PROGRAM] }
}

fn wrong_predecessor() -> InstructionSysvar {
    InstructionSysvar { current_index: 1, program_ids: vec![PROGRAM, PROGRAM] }
}

fn claim(
    config: &mut ConfigAccount,
    records: &mut HashMap<Identity, UserClaimAccount>,
    amount: u64,
    timestamp: i64,
    now: i64,
) -> Result<playtoearn::events::TokenClaimEvent, ErrorCode> {
    claim_tokens(config, records, USER, amount, timestamp, &SIG, BACKEND, &attested(), now)
}

#[test]
fn hourly_window_scenario() {
    let mut c = config(2400, 1_000_000, 0);
    let mut records = HashMap::new();

    let ev = claim(&mut c, &mut records, 100, 0, 0).unwrap();
    assert_eq!(ev.amount, 100);
    assert_eq!(ev.claimer, USER);
    assert_eq!(ev.token_mint, 9);
    assert_eq!(ev.timestamp, 0);
    assert_eq!(records[&USER].hourly_claimed, 100);
    assert_eq!(records[&USER].daily_claimed, 100);
    assert_eq!(c.total_minted, 100);

    // One more unit inside the same hour would exceed the hourly cap of 100.
    assert_eq!(claim(&mut c, &mut records, 1, 10, 10), Err(ErrorCode::InvalidPaymentAmount));
    assert_eq!(records[&USER].hourly_claimed, 100);

    // After the hourly window has elapsed the same claim succeeds.
    claim(&mut c, &mut records, 1, 3601, 3601).unwrap();
    assert_eq!(records[&USER].hourly_claimed, 1);
    assert_eq!(records[&USER].daily_claimed, 101);
}

#[test]
fn supply_cap_scenario() {
    let mut c = config(2400, 1000, 999);
    let mut records = HashMap::new();

    assert_eq!(claim(&mut c, &mut records, 2, 0, 0), Err(ErrorCode::InvalidPaymentAmount));
    assert_eq!(c.total_minted, 999);
    assert!(records.is_empty());

    claim(&mut c, &mut records, 1, 0, 0).unwrap();
    assert_eq!(c.total_minted, 1000);

    // The cap is reached: any further positive claim fails.
    assert_eq!(claim(&mut c, &mut records, 1, 3601, 3601), Err(ErrorCode::InvalidPaymentAmount));
    assert_eq!(c.total_minted, 1000);
}

#[test]
fn stale_timestamp_rejected() {
    let mut c = config(2400, 1_000_000, 0);
    let mut records = HashMap::new();
    assert_eq!(claim(&mut c, &mut records, 10, 0, 301), Err(ErrorCode::ExpiredSignature));
    assert_eq!(claim(&mut c, &mut records, 10, 301, 0), Err(ErrorCode::ExpiredSignature));
    // The boundary itself is still fresh.
    claim(&mut c, &mut records, 10, 0, 300).unwrap();
}

#[test]
fn blacklisted_user_rejected() {
    let mut c = config(2400, 1_000_000, 0);
    let mut records = HashMap::new();
    claim(&mut c, &mut records, 10, 0, 0).unwrap();
    let mut rec = records[&USER];
    rec.is_blacklisted = true;
    records.insert(USER, rec);
    assert_eq!(claim(&mut c, &mut records, 10, 20, 20), Err(ErrorCode::Unauthorized));
    assert_eq!(c.total_minted, 10);
}

#[test]
fn paused_system_rejects_claims() {
    let mut c = config(2400, 1_000_000, 0);
    c.emergency_paused = true;
    let mut records = HashMap::new();
    assert_eq!(claim(&mut c, &mut records, 10, 0, 0), Err(ErrorCode::SystemPaused));
}

#[test]
fn zero_amount_rejected() {
    let mut c = config(2400, 1_000_000, 0);
    let mut records = HashMap::new();
    assert_eq!(claim(&mut c, &mut records, 0, 0, 0), Err(ErrorCode::InvalidPaymentAmount));
}

#[test]
fn missing_attestation_rejected() {
    let mut c = config(2400, 1_000_000, 0);
    let mut records = HashMap::new();
    let r = claim_tokens(
        &mut c,
        &mut records,
        USER,
        10,
        0,
        &SIG,
        BACKEND,
        &first_instruction(),
        0,
    );
    assert_eq!(r, Err(ErrorCode::InvalidSignature));
    let r = claim_tokens(
        &mut c,
        &mut records,
        USER,
        10,
        0,
        &SIG,
        BACKEND,
        &wrong_predecessor(),
        0,
    );
    assert_eq!(r, Err(ErrorCode::InvalidSignature));
    assert!(records.is_empty());
}

#[test]
fn supply_overflow_rejected() {
    let mut c = config(2400, u64::MAX, u64::MAX);
    let mut records = HashMap::new();
    assert_eq!(claim(&mut c, &mut records, 1, 0, 0), Err(ErrorCode::MathOverflow));
}

#[test]
fn daily_cap_rejected_independently_of_hourly() {
    let mut c = config(2400, 1_000_000, 0);
    let mut records = HashMap::new();
    records.insert(
        USER,
        UserClaimAccount {
            user: USER,
            total_claimed: 2350,
            last_claim_timestamp: 100,
            daily_claimed: 2350,
            daily_reset_timestamp: 0,
            hourly_claimed: 0,
            hourly_reset_timestamp: 7200,
            nonce: 3,
            is_blacklisted: false,
        },
    );
    // 100 fits the hourly cap but would lift the day to 2450 > 2400.
    assert_eq!(claim(&mut c, &mut records, 100, 7300, 7300), Err(ErrorCode::InvalidPaymentAmount));
    assert_eq!(records[&USER].daily_claimed, 2350);
}

#[test]
fn first_claim_opens_windows_at_now() {
    let mut c = config(2400, 1_000_000, 0);
    let mut records = HashMap::new();
    claim(&mut c, &mut records, 10, 5000, 5000).unwrap();
    let r = records[&USER];
    assert_eq!(r.daily_reset_timestamp, 5000);
    assert_eq!(r.hourly_reset_timestamp, 5000);
    assert_eq!(r.last_claim_timestamp, 5000);
    assert_eq!(r.nonce, 1);
    assert_eq!(r.total_claimed, 10);
    assert!(!r.is_blacklisted);
    assert_eq!(r.user, USER);
}

#[test]
fn nonce_counts_successful_claims() {
    let mut c = config(2400, 1_000_000, 0);
    let mut records = HashMap::new();
    claim(&mut c, &mut records, 10, 0, 0).unwrap();
    assert_eq!(claim(&mut c, &mut records, 2000, 10, 10), Err(ErrorCode::InvalidPaymentAmount));
    claim(&mut c, &mut records, 20, 20, 20).unwrap();
    assert_eq!(records[&USER].nonce, 2);
    assert_eq!(records[&USER].total_claimed, 30);
}

#[test]
fn hourly_counter_overflow_rejected() {
    let mut c = config(u64::MAX, u64::MAX, 0);
    let mut records = HashMap::new();
    records.insert(
        USER,
        UserClaimAccount {
            user: USER,
            total_claimed: 1,
            last_claim_timestamp: 0,
            daily_claimed: 1,
            daily_reset_timestamp: 0,
            hourly_claimed: 1,
            hourly_reset_timestamp: 0,
            nonce: 1,
            is_blacklisted: false,
        },
    );
    assert_eq!(claim(&mut c, &mut records, u64::MAX, 0, 0), Err(ErrorCode::MathOverflow));
}

#[test]
fn nonce_overflow_rejected() {
    let mut c = config(2400, 1_000_000, 0);
    let mut records = HashMap::new();
    records.insert(
        USER,
        UserClaimAccount {
            user: USER,
            total_claimed: 50,
            last_claim_timestamp: 0,
            daily_claimed: 0,
            daily_reset_timestamp: 0,
            hourly_claimed: 0,
            hourly_reset_timestamp: 0,
            nonce: u64::MAX,
            is_blacklisted: false,
        },
    );
    assert_eq!(claim(&mut c, &mut records, 10, 0, 0), Err(ErrorCode::MathOverflow));
    assert_eq!(records[&USER].nonce, u64::MAX);
}

#[test]
fn users_are_rate_limited_independently() {
    let mut c = config(2400, 1_000_000, 0);
    let mut records = HashMap::new();
    let other: Identity = 6;
    claim(&mut c, &mut records, 100, 0, 0).unwrap();
    // The first user's full hourly window does not constrain the second.
    let r = claim_tokens(&mut c, &mut records, other, 100, 5, &SIG, BACKEND, &attested(), 5);
    assert!(r.is_ok());
    assert_eq!(records.len(), 2);
    assert_eq!(records[&USER].hourly_claimed, 100);
    assert_eq!(records[&other].hourly_claimed, 100);
    assert_eq!(c.total_minted, 200);
}

#[test]
fn daily_window_resets_after_a_day() {
    let mut c = config(2400, 1_000_000, 0);
    let mut records = HashMap::new();
    claim(&mut c, &mut records, 100, 0, 0).unwrap();
    claim(&mut c, &mut records, 100, 86400, 86400).unwrap();
    let r = records[&USER];
    assert_eq!(r.daily_claimed, 100);
    assert_eq!(r.daily_reset_timestamp, 86400);
    assert_eq!(r.total_claimed, 200);
}

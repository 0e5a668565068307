use playtoearn::errors::ErrorCode;
use playtoearn::policy::{burn_tokens, mint_tokens};
use playtoearn::signature::{InstructionSysvar, ED25519_PROGRAM_ID};
use playtoearn::state::{ConfigAccount, Identity};

const PROGRAM: Identity = 4242;
const BACKEND: Identity = 77;
const PAYER: Identity = 5;
const SIG: [u8; 64] = [7u8; 64];

fn config() -> ConfigAccount {
    ConfigAccount {
        payment_token_mint: 9,
        admin: 1,
        emergency_paused: false,
        max_claim_per_user: 2400,
        total_supply_limit: 1_000_000,
        total_minted: 0,
    }
}

fn attested() -> InstructionSysvar {
    InstructionSysvar { current_index: 1, program_ids: vec![ED25519_PROGRAM_ID, PROGRAM] }
}

fn burn(
    c: &ConfigAccount,
    balance: u64,
    amount: u64,
    timestamp: i64,
    description: &str,
    now: i64,
) -> Result<playtoearn::events::TokenBurnEvent, ErrorCode> {
    burn_tokens(
        c,
        PAYER,
        balance,
        amount,
        timestamp,
        &SIG,
        description.to_string(),
        BACKEND,
        &attested(),
        now,
    )
}

#[test]
fn burn_success() {
    let ev = burn(&config(), 500, 200, 10, "weapon upgrade", 20).unwrap();
    assert_eq!(ev.payer, PAYER);
    assert_eq!(ev.token_mint, 9);
    assert_eq!(ev.amount, 200);
    assert_eq!(ev.description, "weapon upgrade");
    assert_eq!(ev.timestamp, 20);
}

#[test]
fn burn_requires_configured_token() {
    let mut c = config();
    c.payment_token_mint = 0;
    assert_eq!(
        burn(&c, 500, 200, 0, "x", 0).unwrap_err(),
        ErrorCode::PaymentTokenNotConfigured
    );
}

#[test]
fn burn_rejected_when_paused() {
    let mut c = config();
    c.emergency_paused = true;
    assert_eq!(burn(&c, 500, 200, 0, "x", 0).unwrap_err(), ErrorCode::SystemPaused);
}

#[test]
fn burn_zero_amount_rejected() {
    assert_eq!(burn(&config(), 500, 0, 0, "x", 0).unwrap_err(), ErrorCode::InvalidPaymentAmount);
}

#[test]
fn burn_empty_description_rejected() {
    assert_eq!(burn(&config(), 500, 200, 0, "", 0).unwrap_err(), ErrorCode::InvalidInput);
}

#[test]
fn burn_missing_attestation_rejected() {
    let sysvar = InstructionSysvar { current_index: 0, program_ids: vec![PROGRAM] };
    let r = burn_tokens(
        &config(),
        PAYER,
        500,
        200,
        0,
        &SIG,
        "x".to_string(),
        BACKEND,
        &sysvar,
        0,
    );
    assert_eq!(r.unwrap_err(), ErrorCode::InvalidSignature);
}

#[test]
fn burn_stale_timestamp_rejected() {
    assert_eq!(burn(&config(), 500, 200, 0, "x", 301).unwrap_err(), ErrorCode::ExpiredSignature);
    assert!(burn(&config(), 500, 200, 0, "x", 300).is_ok());
}

#[test]
fn burn_insufficient_balance_rejected() {
    assert_eq!(burn(&config(), 199, 200, 0, "x", 0).unwrap_err(), ErrorCode::InsufficientFunds);
    assert!(burn(&config(), 200, 200, 0, "x", 0).is_ok());
}

#[test]
fn mint_success() {
    let ev = mint_tokens(&config(), 1, 400, 8, 9, 33).unwrap();
    assert_eq!(ev.minter, 1);
    assert_eq!(ev.token_mint, 9);
    assert_eq!(ev.amount, 400);
    assert_eq!(ev.recipient, 8);
    assert_eq!(ev.timestamp, 33);
}

#[test]
fn mint_requires_administrator() {
    assert_eq!(mint_tokens(&config(), 2, 400, 8, 9, 0).unwrap_err(), ErrorCode::Unauthorized);
}

#[test]
fn mint_rejected_when_paused() {
    let mut c = config();
    c.emergency_paused = true;
    assert_eq!(mint_tokens(&c, 1, 400, 8, 9, 0).unwrap_err(), ErrorCode::SystemPaused);
}

#[test]
fn mint_zero_amount_rejected() {
    assert_eq!(mint_tokens(&config(), 1, 0, 8, 9, 0).unwrap_err(), ErrorCode::InvalidPaymentAmount);
}

#[test]
fn mint_wrong_token_rejected() {
    assert_eq!(mint_tokens(&config(), 1, 400, 8, 10, 0).unwrap_err(), ErrorCode::InvalidPaymentToken);
}

#[test]
fn mint_bypasses_supply_cap() {
    // Administrator mints do not touch the claim path's cap bookkeeping.
    let mut c = config();
    c.total_minted = c.total_supply_limit;
    assert!(mint_tokens(&c, 1, 400, 8, 9, 0).is_ok());
}

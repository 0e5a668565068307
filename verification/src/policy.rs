use vstd::prelude::*;

use std::collections::HashMap;

use crate::errors::ErrorCode;
use crate::events::{TokenBurnEvent, TokenClaimEvent, TokenMintEvent};
use crate::message::canonical_message;
use crate::signature::{signature_attested, sysvar_wf, verify_signature, InstructionSysvar};
use crate::state::{
    record_time_wf, spec_fresh_record, ConfigAccount, Identity, UserClaimAccount, HOURS_PER_DAY,
    SECONDS_PER_DAY, SECONDS_PER_HOUR, SIGNATURE_FRESHNESS_WINDOW, ZERO_IDENTITY,
};

verus! {

broadcast use vstd::std_specs::hash::group_hash_axioms;

/// The hourly quota: a fixed fraction of the daily quota, floor division.
pub open spec fn spec_max_hourly(c: ConfigAccount) -> u64 {
    c.max_claim_per_user / HOURS_PER_DAY
}

/// Distance between two clock readings.
pub open spec fn spec_abs_diff(a: int, b: int) -> int {
    if a >= b {
        a - b
    } else {
        b - a
    }
}

/// The record `r` after its fixed windows are brought up to time `now`: a
/// counter whose window has fully elapsed is zeroed and its window restarts
/// at `now` itself (not at an exact multiple of the window length).
pub open spec fn spec_after_resets(r: UserClaimAccount, now: i64) -> UserClaimAccount {
    let daily_elapsed = now - r.daily_reset_timestamp >= SECONDS_PER_DAY;
    let hourly_elapsed = now - r.hourly_reset_timestamp >= SECONDS_PER_HOUR;
    UserClaimAccount {
        daily_claimed: if daily_elapsed {
            0
        } else {
            r.daily_claimed
        },
        daily_reset_timestamp: if daily_elapsed {
            now
        } else {
            r.daily_reset_timestamp
        },
        hourly_claimed: if hourly_elapsed {
            0
        } else {
            r.hourly_claimed
        },
        hourly_reset_timestamp: if hourly_elapsed {
            now
        } else {
            r.hourly_reset_timestamp
        },
        ..r
    }
}

/// The record a claim by `user` at time `now` starts from: the stored
/// record, or a fresh one on a first claim, with both windows brought up to
/// `now`.
pub open spec fn spec_claim_base(
    records: Map<Identity, UserClaimAccount>,
    user: Identity,
    now: i64,
) -> UserClaimAccount {
    let stored = if records.contains_key(user) {
        records[user]
    } else {
        spec_fresh_record(user, now)
    };
    spec_after_resets(stored, now)
}

/// The record after a successful claim of `amount` at time `now`.
pub open spec fn spec_claimed_record(
    base: UserClaimAccount,
    amount: u64,
    now: i64,
) -> UserClaimAccount {
    UserClaimAccount {
        total_claimed: (base.total_claimed + amount) as u64,
        daily_claimed: (base.daily_claimed + amount) as u64,
        hourly_claimed: (base.hourly_claimed + amount) as u64,
        last_claim_timestamp: now,
        nonce: (base.nonce + 1) as u64,
        ..base
    }
}

/// Why a claim is refused, or `None` when it is authorized. The checks run
/// in this order, and the first failure decides the error.
pub open spec fn spec_claim_error(
    c: ConfigAccount,
    records: Map<Identity, UserClaimAccount>,
    user: Identity,
    amount: u64,
    timestamp: i64,
    sig_ok: bool,
    now: i64,
) -> Option<ErrorCode> {
    if c.emergency_paused {
        Some(ErrorCode::SystemPaused)
    } else if amount == 0 {
        Some(ErrorCode::InvalidPaymentAmount)
    } else if records.contains_key(user) && records[user].is_blacklisted {
        Some(ErrorCode::Unauthorized)
    } else if c.total_minted + amount > u64::MAX {
        Some(ErrorCode::MathOverflow)
    } else if c.total_minted + amount > c.total_supply_limit {
        Some(ErrorCode::InvalidPaymentAmount)
    } else if !sig_ok {
        Some(ErrorCode::InvalidSignature)
    } else if spec_abs_diff(now as int, timestamp as int) > SIGNATURE_FRESHNESS_WINDOW {
        Some(ErrorCode::ExpiredSignature)
    } else {
        let base = spec_claim_base(records, user, now);
        if base.hourly_claimed + amount > u64::MAX {
            Some(ErrorCode::MathOverflow)
        } else if base.hourly_claimed + amount > spec_max_hourly(c) {
            Some(ErrorCode::InvalidPaymentAmount)
        } else if base.daily_claimed + amount > u64::MAX {
            Some(ErrorCode::MathOverflow)
        } else if base.daily_claimed + amount > c.max_claim_per_user {
            Some(ErrorCode::InvalidPaymentAmount)
        } else if base.total_claimed + amount > u64::MAX {
            Some(ErrorCode::MathOverflow)
        } else if base.nonce + 1 > u64::MAX {
            Some(ErrorCode::MathOverflow)
        } else {
            None
        }
    }
}

/// Authorizes a claim of `amount` by `claimer` and performs its state
/// mutation: validates pause, amount, blacklist status, supply headroom,
/// signature attestation and freshness, and the per-user hourly and daily
/// quotas; on success updates the claimer's record and the running total
/// and returns the audit event whose amount the host mints. On any error
/// both the configuration and the records are left unchanged.
pub fn claim_tokens(
    config: &mut ConfigAccount,
    records: &mut HashMap<Identity, UserClaimAccount>,
    claimer: Identity,
    amount: u64,
    timestamp: i64,
    signature: &[u8; 64],
    backend_authority: Identity,
    sysvar: &InstructionSysvar,
    now: i64,
) -> (result: Result<TokenClaimEvent, ErrorCode>)
    requires
        sysvar_wf(*sysvar),
        0 <= timestamp,
        0 <= now,
        old(records)@.contains_key(claimer) ==> record_time_wf(old(records)@[claimer]),
    ensures
        match spec_claim_error(
            *old(config),
            old(records)@,
            claimer,
            amount,
            timestamp,
            signature_attested(*sysvar),
            now,
        ) {
            Some(e) => {
                &&& result == Err::<TokenClaimEvent, ErrorCode>(e)
                &&& *final(config) == *old(config)
                &&& final(records)@ == old(records)@
            },
            None => {
                let base = spec_claim_base(old(records)@, claimer, now);
                &&& result == Ok::<TokenClaimEvent, ErrorCode>(
                    TokenClaimEvent {
                        claimer,
                        token_mint: old(config).payment_token_mint,
                        amount,
                        timestamp: now,
                    },
                )
                &&& *final(config) == (ConfigAccount {
                    total_minted: (old(config).total_minted + amount) as u64,
                    ..*old(config)
                })
                &&& final(records)@ == old(records)@.insert(
                    claimer,
                    spec_claimed_record(base, amount, now),
                )
                &&& record_time_wf(final(records)@[claimer])
            },
        },
{
    if config.emergency_paused {
        return Err(ErrorCode::SystemPaused);
    }
    if amount == 0 {
        return Err(ErrorCode::InvalidPaymentAmount);
    }
    let already_blacklisted = match records.get(&claimer) {
        Some(r) => r.is_blacklisted,
        None => false,
    };
    if already_blacklisted {
        return Err(ErrorCode::Unauthorized);
    }
    let new_total = match config.total_minted.checked_add(amount) {
        Some(t) => t,
        None => {
            return Err(ErrorCode::MathOverflow);
        },
    };
    if new_total > config.total_supply_limit {
        return Err(ErrorCode::InvalidPaymentAmount);
    }
    let message = canonical_message(claimer, amount, timestamp as u64, "claim");
    match verify_signature(sysvar, message.as_str().as_bytes(), signature, backend_authority) {
        Ok(()) => {},
        Err(e) => {
            return Err(e);
        },
    }
    let age = if now >= timestamp {
        now - timestamp
    } else {
        timestamp - now
    };
    if age > SIGNATURE_FRESHNESS_WINDOW {
        return Err(ErrorCode::ExpiredSignature);
    }
    let mut rec = match records.get(&claimer) {
        Some(r) => *r,
        None => UserClaimAccount {
            user: claimer,
            total_claimed: 0,
            last_claim_timestamp: 0,
            daily_claimed: 0,
            daily_reset_timestamp: now,
            hourly_claimed: 0,
            hourly_reset_timestamp: now,
            nonce: 0,
            is_blacklisted: false,
        },
    };
    if now - rec.daily_reset_timestamp >= SECONDS_PER_DAY {
        rec.daily_claimed = 0;
        rec.daily_reset_timestamp = now;
    }
    if now - rec.hourly_reset_timestamp >= SECONDS_PER_HOUR {
        rec.hourly_claimed = 0;
        rec.hourly_reset_timestamp = now;
    }
    let max_hourly = config.max_claim_per_user / HOURS_PER_DAY;
    let new_hourly = match rec.hourly_claimed.checked_add(amount) {
        Some(v) => v,
        None => {
            return Err(ErrorCode::MathOverflow);
        },
    };
    if new_hourly > max_hourly {
        return Err(ErrorCode::InvalidPaymentAmount);
    }
    let new_daily = match rec.daily_claimed.checked_add(amount) {
        Some(v) => v,
        None => {
            return Err(ErrorCode::MathOverflow);
        },
    };
    if new_daily > config.max_claim_per_user {
        return Err(ErrorCode::InvalidPaymentAmount);
    }
    let new_total_claimed = match rec.total_claimed.checked_add(amount) {
        Some(v) => v,
        None => {
            return Err(ErrorCode::MathOverflow);
        },
    };
    let new_nonce = match rec.nonce.checked_add(1) {
        Some(v) => v,
        None => {
            return Err(ErrorCode::MathOverflow);
        },
    };
    rec.total_claimed = new_total_claimed;
    rec.daily_claimed = new_daily;
    rec.hourly_claimed = new_hourly;
    rec.last_claim_timestamp = now;
    rec.nonce = new_nonce;
    records.insert(claimer, rec);
    config.total_minted = new_total;
    Ok(
        TokenClaimEvent {
            claimer,
            token_mint: config.payment_token_mint,
            amount,
            timestamp: now,
        },
    )
}

/// Every successful claim leaves the claimant's record within the
/// configured rate limits: `daily_claimed` at most `max_claim_per_user`,
/// and `hourly_claimed` at most `max_claim_per_user / 24`.
pub proof fn lemma_claim_respects_rate_limits(
    c: ConfigAccount,
    records: Map<Identity, UserClaimAccount>,
    user: Identity,
    amount: u64,
    timestamp: i64,
    sig_ok: bool,
    now: i64,
)
    requires
        spec_claim_error(c, records, user, amount, timestamp, sig_ok, now) is None,
    ensures
        crate::state::record_within_limits(
            spec_claimed_record(spec_claim_base(records, user, now), amount, now),
            c,
        ),
{
}

/// Every successful claim respects the global supply cap, both before and
/// after: the running total was below the cap when the claim was admitted,
/// and the updated total still does not exceed it.
pub proof fn lemma_claim_respects_supply_cap(
    c: ConfigAccount,
    records: Map<Identity, UserClaimAccount>,
    user: Identity,
    amount: u64,
    timestamp: i64,
    sig_ok: bool,
    now: i64,
)
    requires
        spec_claim_error(c, records, user, amount, timestamp, sig_ok, now) is None,
    ensures
        c.total_minted < c.total_supply_limit,
        c.total_minted + amount <= c.total_supply_limit,
{
}

/// An authorized claim advances the claimant's stored record: the nonce
/// rises by exactly one, the lifetime total grows by the claimed amount,
/// and neither window-start timestamp moves backward.
pub proof fn lemma_claim_advances_record(
    c: ConfigAccount,
    records: Map<Identity, UserClaimAccount>,
    user: Identity,
    amount: u64,
    timestamp: i64,
    sig_ok: bool,
    now: i64,
)
    requires
        spec_claim_error(c, records, user, amount, timestamp, sig_ok, now) is None,
        records.contains_key(user),
    ensures
        ({
            let stored = records[user];
            let claimed = spec_claimed_record(spec_claim_base(records, user, now), amount, now);
            &&& claimed.nonce == stored.nonce + 1
            &&& claimed.total_claimed == stored.total_claimed + amount
            &&& claimed.daily_reset_timestamp >= stored.daily_reset_timestamp
            &&& claimed.hourly_reset_timestamp >= stored.hourly_reset_timestamp
            &&& claimed.user == stored.user
        }),
{
}

/// A claim whose timestamp lies further than the freshness window from the
/// clock at execution is always refused as expired, whatever the amount,
/// the claimant's history or the signature's content — provided the checks
/// that run ahead of the freshness check (pause, a positive amount, the
/// blacklist, supply headroom, the signature's presence) pass.
pub proof fn lemma_stale_timestamp_rejected(
    c: ConfigAccount,
    records: Map<Identity, UserClaimAccount>,
    user: Identity,
    amount: u64,
    timestamp: i64,
    sig_ok: bool,
    now: i64,
)
    requires
        !c.emergency_paused,
        amount != 0,
        !(records.contains_key(user) && records[user].is_blacklisted),
        c.total_minted + amount <= u64::MAX,
        c.total_minted + amount <= c.total_supply_limit,
        sig_ok,
        spec_abs_diff(now as int, timestamp as int) > SIGNATURE_FRESHNESS_WINDOW,
    ensures
        spec_claim_error(c, records, user, amount, timestamp, sig_ok, now) == Some(
            ErrorCode::ExpiredSignature,
        ),
{
}

/// A claim by a user whose record carries the blacklist mark is always
/// refused as unauthorized, whatever the amount, timestamp or signature —
/// provided the checks ahead of it (pause, a positive amount) pass.
pub proof fn lemma_blacklisted_user_rejected(
    c: ConfigAccount,
    records: Map<Identity, UserClaimAccount>,
    user: Identity,
    amount: u64,
    timestamp: i64,
    sig_ok: bool,
    now: i64,
)
    requires
        !c.emergency_paused,
        amount != 0,
        records.contains_key(user),
        records[user].is_blacklisted,
    ensures
        spec_claim_error(c, records, user, amount, timestamp, sig_ok, now) == Some(
            ErrorCode::Unauthorized,
        ),
{
}

/// Why a burn is refused, or `None` when it is authorized. No per-user rate
/// limiting applies to burns.
pub open spec fn spec_burn_error(
    c: ConfigAccount,
    payer_balance: u64,
    amount: u64,
    description: Seq<char>,
    timestamp: i64,
    sig_ok: bool,
    now: i64,
) -> Option<ErrorCode> {
    if c.payment_token_mint == ZERO_IDENTITY {
        Some(ErrorCode::PaymentTokenNotConfigured)
    } else if c.emergency_paused {
        Some(ErrorCode::SystemPaused)
    } else if amount == 0 {
        Some(ErrorCode::InvalidPaymentAmount)
    } else if description.len() == 0 {
        Some(ErrorCode::InvalidInput)
    } else if !sig_ok {
        Some(ErrorCode::InvalidSignature)
    } else if spec_abs_diff(now as int, timestamp as int) > SIGNATURE_FRESHNESS_WINDOW {
        Some(ErrorCode::ExpiredSignature)
    } else if payer_balance < amount {
        Some(ErrorCode::InsufficientFunds)
    } else {
        None
    }
}

/// Authorizes a burn of `amount` by `payer`: the asset must be configured
/// and the system not paused, the amount positive, the description
/// non-empty, the signature attested and fresh, and `payer_balance` (the
/// payer's asset balance, read by the host) sufficient. On success the host
/// burns the event's amount from the payer's balance.
pub fn burn_tokens(
    config: &ConfigAccount,
    payer: Identity,
    payer_balance: u64,
    amount: u64,
    timestamp: i64,
    signature: &[u8; 64],
    description: String,
    backend_authority: Identity,
    sysvar: &InstructionSysvar,
    now: i64,
) -> (result: Result<TokenBurnEvent, ErrorCode>)
    requires
        sysvar_wf(*sysvar),
        0 <= timestamp,
        0 <= now,
    ensures
        match spec_burn_error(
            *config,
            payer_balance,
            amount,
            description@,
            timestamp,
            signature_attested(*sysvar),
            now,
        ) {
            Some(e) => result == Err::<TokenBurnEvent, ErrorCode>(e),
            None => result matches Ok(ev) && {
                &&& ev.payer == payer
                &&& ev.token_mint == config.payment_token_mint
                &&& ev.amount == amount
                &&& ev.description@ == description@
                &&& ev.timestamp == now
            },
        },
{
    if config.payment_token_mint == ZERO_IDENTITY {
        return Err(ErrorCode::PaymentTokenNotConfigured);
    }
    if config.emergency_paused {
        return Err(ErrorCode::SystemPaused);
    }
    if amount == 0 {
        return Err(ErrorCode::InvalidPaymentAmount);
    }
    if description.as_str().is_empty() {
        return Err(ErrorCode::InvalidInput);
    }
    let message = canonical_message(payer, amount, timestamp as u64, "burn");
    match verify_signature(sysvar, message.as_str().as_bytes(), signature, backend_authority) {
        Ok(()) => {},
        Err(e) => {
            return Err(e);
        },
    }
    let age = if now >= timestamp {
        now - timestamp
    } else {
        timestamp - now
    };
    if age > SIGNATURE_FRESHNESS_WINDOW {
        return Err(ErrorCode::ExpiredSignature);
    }
    if payer_balance < amount {
        return Err(ErrorCode::InsufficientFunds);
    }
    Ok(
        TokenBurnEvent {
            payer,
            token_mint: config.payment_token_mint,
            amount,
            description,
            timestamp: now,
        },
    )
}

/// Why an administrator mint is refused, or `None` when it is authorized.
pub open spec fn spec_mint_error(
    c: ConfigAccount,
    admin: Identity,
    amount: u64,
    token_mint: Identity,
) -> Option<ErrorCode> {
    if c.emergency_paused {
        Some(ErrorCode::SystemPaused)
    } else if admin != c.admin {
        Some(ErrorCode::Unauthorized)
    } else if amount == 0 {
        Some(ErrorCode::InvalidPaymentAmount)
    } else if token_mint != c.payment_token_mint {
        Some(ErrorCode::InvalidPaymentToken)
    } else {
        None
    }
}

/// Authorizes a mint of `amount` to `recipient` by the administrator. No
/// signature or freshness window applies: the caller is already
/// authenticated as administrator. This path deliberately does not touch
/// the global supply-cap bookkeeping: administrator mints bypass the cap,
/// a design risk callers should be aware of.
pub fn mint_tokens(
    config: &ConfigAccount,
    admin: Identity,
    amount: u64,
    recipient: Identity,
    token_mint: Identity,
    now: i64,
) -> (result: Result<TokenMintEvent, ErrorCode>)
    ensures
        match spec_mint_error(*config, admin, amount, token_mint) {
            Some(e) => result == Err::<TokenMintEvent, ErrorCode>(e),
            None => result == Ok::<TokenMintEvent, ErrorCode>(
                TokenMintEvent { minter: admin, token_mint, amount, recipient, timestamp: now },
            ),
        },
{
    if config.emergency_paused {
        return Err(ErrorCode::SystemPaused);
    }
    if admin != config.admin {
        return Err(ErrorCode::Unauthorized);
    }
    if amount == 0 {
        return Err(ErrorCode::InvalidPaymentAmount);
    }
    if token_mint != config.payment_token_mint {
        return Err(ErrorCode::InvalidPaymentToken);
    }
    Ok(TokenMintEvent { minter: admin, token_mint, amount, recipient, timestamp: now })
}

} // verus!

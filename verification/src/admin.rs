use vstd::prelude::*;
use vstd::string::StringExecFns;

use crate::errors::ErrorCode;
use crate::events::{AdminActionEvent, SecurityEvent};
use crate::message::{spec_decimal, u64_to_decimal};
use crate::state::{
    AdminActionType, ConfigAccount, Identity, PendingAdminAction, ADMIN_ACTION_DELAY,
    ZERO_IDENTITY,
};

verus! {

/// Why configuration creation is refused, or `None` when the inputs are
/// accepted: zero and default values are rejected.
pub open spec fn spec_initialize_error(
    payment_token_mint: Identity,
    max_claim_per_user: u64,
    total_supply_limit: u64,
) -> Option<ErrorCode> {
    if payment_token_mint == ZERO_IDENTITY {
        Some(ErrorCode::InvalidInput)
    } else if max_claim_per_user == 0 {
        Some(ErrorCode::InvalidInput)
    } else if total_supply_limit == 0 {
        Some(ErrorCode::InvalidInput)
    } else {
        None
    }
}

/// Creates the singleton configuration, once, with `admin` as the
/// administrator, no pause, and nothing minted yet.
pub fn initialize_config(
    admin: Identity,
    payment_token_mint: Identity,
    max_claim_per_user: u64,
    total_supply_limit: u64,
) -> (result: Result<ConfigAccount, ErrorCode>)
    ensures
        match spec_initialize_error(payment_token_mint, max_claim_per_user, total_supply_limit) {
            Some(e) => result == Err::<ConfigAccount, ErrorCode>(e),
            None => result == Ok::<ConfigAccount, ErrorCode>(
                ConfigAccount {
                    payment_token_mint,
                    admin,
                    emergency_paused: false,
                    max_claim_per_user,
                    total_supply_limit,
                    total_minted: 0,
                },
            ),
        },
{
    if payment_token_mint == ZERO_IDENTITY {
        return Err(ErrorCode::InvalidInput);
    }
    if max_claim_per_user == 0 {
        return Err(ErrorCode::InvalidInput);
    }
    if total_supply_limit == 0 {
        return Err(ErrorCode::InvalidInput);
    }
    Ok(
        ConfigAccount {
            payment_token_mint,
            admin,
            emergency_paused: false,
            max_claim_per_user,
            total_supply_limit,
            total_minted: 0,
        },
    )
}

/// Proposes a privileged change: administrator-only. The returned pending
/// action replaces any earlier one (a new request silently supersedes a
/// pending action that has not been executed yet) and becomes executable
/// only after `ADMIN_ACTION_DELAY` seconds.
pub fn request_admin_action(
    admin: Identity,
    config: &ConfigAccount,
    action_type: AdminActionType,
    new_value: Identity,
    now: i64,
) -> (result: Result<(PendingAdminAction, AdminActionEvent), ErrorCode>)
    requires
        0 <= now,
    ensures
        match result {
            Ok(r) => {
                &&& admin == config.admin
                &&& r.0 == (PendingAdminAction {
                    action_type,
                    new_value,
                    requested_at: now,
                    executed: false,
                })
                &&& r.1.admin == admin
                &&& r.1.action@ == (match action_type {
                    AdminActionType::ChangeAdmin => "REQUEST_ChangeAdmin"@,
                    AdminActionType::ChangeToken => "REQUEST_ChangeToken"@,
                    AdminActionType::EmergencyWithdraw => "REQUEST_EmergencyWithdraw"@,
                })
                &&& r.1.details@ == "Requested change to "@ + spec_decimal(new_value as int)
                &&& r.1.timestamp == now
            },
            Err(e) => admin != config.admin && e == ErrorCode::Unauthorized,
        },
{
    if admin != config.admin {
        return Err(ErrorCode::Unauthorized);
    }
    let pending = PendingAdminAction { action_type, new_value, requested_at: now, executed: false };
    let action = match action_type {
        AdminActionType::ChangeAdmin => "REQUEST_ChangeAdmin",
        AdminActionType::ChangeToken => "REQUEST_ChangeToken",
        AdminActionType::EmergencyWithdraw => "REQUEST_EmergencyWithdraw",
    };
    let mut details = String::from_str("Requested change to ");
    details.append(u64_to_decimal(new_value).as_str());
    Ok((pending, AdminActionEvent { admin, action: action.to_owned(), details, timestamp: now }))
}

/// Why executing the pending action is refused, or `None` when it may run:
/// the caller must be the administrator, the action not yet executed, and
/// the full delay elapsed since the request.
pub open spec fn spec_execute_error(
    c: ConfigAccount,
    pending: PendingAdminAction,
    admin: Identity,
    now: i64,
) -> Option<ErrorCode> {
    if admin != c.admin {
        Some(ErrorCode::Unauthorized)
    } else if pending.executed {
        Some(ErrorCode::InvalidInput)
    } else if now - pending.requested_at < ADMIN_ACTION_DELAY {
        Some(ErrorCode::InvalidInput)
    } else {
        None
    }
}

/// The configuration after the pending action's effect is applied.
pub open spec fn spec_apply_admin_action(
    c: ConfigAccount,
    pending: PendingAdminAction,
) -> ConfigAccount {
    match pending.action_type {
        AdminActionType::ChangeAdmin => ConfigAccount { admin: pending.new_value, ..c },
        AdminActionType::ChangeToken => ConfigAccount {
            payment_token_mint: pending.new_value,
            ..c
        },
        AdminActionType::EmergencyWithdraw => c,
    }
}

/// The timelock delay decides alone: a pending, not-yet-executed action
/// called in by its administrator is refused as invalid input strictly
/// before the delay has elapsed since the request, and admitted from
/// exactly the delay onward.
pub proof fn lemma_timelock_delay_enforced(
    c: ConfigAccount,
    pending: PendingAdminAction,
    admin: Identity,
    now: i64,
)
    requires
        admin == c.admin,
        !pending.executed,
    ensures
        now - pending.requested_at < ADMIN_ACTION_DELAY ==> spec_execute_error(
            c,
            pending,
            admin,
            now,
        ) == Some(ErrorCode::InvalidInput),
        now - pending.requested_at >= ADMIN_ACTION_DELAY ==> spec_execute_error(
            c,
            pending,
            admin,
            now,
        ) is None,
{
}

/// Applies the pending administrative change, at most once and only after
/// the full delay has elapsed since the request. On success the effect for
/// the stored action kind is applied to the configuration and the action is
/// marked executed; on any error both are left unchanged.
pub fn execute_admin_action(
    admin: Identity,
    config: &mut ConfigAccount,
    pending: &mut PendingAdminAction,
    now: i64,
) -> (result: Result<AdminActionEvent, ErrorCode>)
    requires
        0 <= old(pending).requested_at,
        0 <= now,
    ensures
        match spec_execute_error(*old(config), *old(pending), admin, now) {
            Some(e) => {
                &&& result == Err::<AdminActionEvent, ErrorCode>(e)
                &&& *final(config) == *old(config)
                &&& *final(pending) == *old(pending)
            },
            None => {
                &&& *final(config) == spec_apply_admin_action(*old(config), *old(pending))
                &&& *final(pending) == (PendingAdminAction { executed: true, ..*old(pending) })
                &&& result matches Ok(ev) && {
                    &&& ev.admin == admin
                    &&& ev.action@ == (match old(pending).action_type {
                        AdminActionType::ChangeAdmin => "CHANGE_ADMIN"@,
                        AdminActionType::ChangeToken => "CHANGE_TOKEN"@,
                        AdminActionType::EmergencyWithdraw => "EMERGENCY_WITHDRAW"@,
                    })
                    &&& ev.details@ == (match old(pending).action_type {
                        AdminActionType::ChangeAdmin => "Admin changed to "@ + spec_decimal(
                            old(pending).new_value as int,
                        ),
                        AdminActionType::ChangeToken => "Token changed to "@ + spec_decimal(
                            old(pending).new_value as int,
                        ),
                        AdminActionType::EmergencyWithdraw => "Emergency withdraw executed"@,
                    })
                    &&& ev.timestamp == now
                }
            },
        },
{
    if admin != config.admin {
        return Err(ErrorCode::Unauthorized);
    }
    if pending.executed {
        return Err(ErrorCode::InvalidInput);
    }
    if now - pending.requested_at < ADMIN_ACTION_DELAY {
        return Err(ErrorCode::InvalidInput);
    }
    let event = match pending.action_type {
        AdminActionType::ChangeAdmin => {
            config.admin = pending.new_value;
            let mut details = String::from_str("Admin changed to ");
            details.append(u64_to_decimal(pending.new_value).as_str());
            AdminActionEvent { admin, action: "CHANGE_ADMIN".to_owned(), details, timestamp: now }
        },
        AdminActionType::ChangeToken => {
            config.payment_token_mint = pending.new_value;
            let mut details = String::from_str("Token changed to ");
            details.append(u64_to_decimal(pending.new_value).as_str());
            AdminActionEvent { admin, action: "CHANGE_TOKEN".to_owned(), details, timestamp: now }
        },
        AdminActionType::EmergencyWithdraw => AdminActionEvent {
            admin,
            action: "EMERGENCY_WITHDRAW".to_owned(),
            details: "Emergency withdraw executed".to_owned(),
            timestamp: now,
        },
    };
    pending.executed = true;
    Ok(event)
}

/// Halts every value-moving operation: administrator-only. The operation
/// surface offers no unpause: once paused there is no direct path back.
pub fn emergency_pause(
    admin: Identity,
    config: &mut ConfigAccount,
    reason: String,
    now: i64,
) -> (result: Result<SecurityEvent, ErrorCode>)
    ensures
        match result {
            Ok(ev) => {
                &&& admin == old(config).admin
                &&& *final(config) == (ConfigAccount { emergency_paused: true, ..*old(config) })
                &&& ev.event_type@ == "EMERGENCY_PAUSE"@
                &&& ev.user == admin
                &&& ev.reason@ == reason@
                &&& ev.timestamp == now
            },
            Err(e) => {
                &&& admin != old(config).admin
                &&& e == ErrorCode::Unauthorized
                &&& *final(config) == *old(config)
            },
        },
{
    if admin != config.admin {
        return Err(ErrorCode::Unauthorized);
    }
    config.emergency_paused = true;
    Ok(SecurityEvent { event_type: "EMERGENCY_PAUSE".to_owned(), user: admin, reason, timestamp: now })
}

} // verus!

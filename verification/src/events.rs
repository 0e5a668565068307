use vstd::prelude::*;

use crate::state::Identity;

verus! {

/// Audit record of a successful burn, handed to the host for emission.
#[derive(Clone, Debug)]
pub struct TokenBurnEvent {
    pub payer: Identity,
    pub token_mint: Identity,
    pub amount: u64,
    pub description: String,
    pub timestamp: i64,
}

/// Audit record of a successful administrator mint.
#[derive(Clone, Copy, Debug, PartialEq, Eq, Structural)]
pub struct TokenMintEvent {
    pub minter: Identity,
    pub token_mint: Identity,
    pub amount: u64,
    pub recipient: Identity,
    pub timestamp: i64,
}

/// Audit record of a successful claim.
#[derive(Clone, Copy, Debug, PartialEq, Eq, Structural)]
pub struct TokenClaimEvent {
    pub claimer: Identity,
    pub token_mint: Identity,
    pub amount: u64,
    pub timestamp: i64,
}

/// Security audit record: a blacklist change or an emergency pause.
#[derive(Clone, Debug)]
pub struct SecurityEvent {
    pub event_type: String,
    pub user: Identity,
    pub reason: String,
    pub timestamp: i64,
}

/// Audit record of an administrative action.
#[derive(Clone, Debug)]
pub struct AdminActionEvent {
    pub admin: Identity,
    pub action: String,
    pub details: String,
    pub timestamp: i64,
}

} // verus!

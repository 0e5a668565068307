use vstd::prelude::*;

verus! {

/// An account identity: a key in the host's address space. The policy reads
/// nothing of an identity but equality and whether it is the zero identity,
/// so the library models it as a plain unsigned number.
pub type Identity = u64;

/// The zero identity, never a valid asset or administrator.
pub const ZERO_IDENTITY: Identity = 0;

/// Length of the hourly rate-limit window, in seconds.
pub const SECONDS_PER_HOUR: i64 = 3600;

/// Length of the daily rate-limit window, in seconds.
pub const SECONDS_PER_DAY: i64 = 86400;

/// Delay a pending administrative action must wait before execution.
pub const ADMIN_ACTION_DELAY: i64 = 86400;

/// Tolerance between a request's timestamp and the clock at execution.
pub const SIGNATURE_FRESHNESS_WINDOW: i64 = 300;

/// The hourly quota is this fraction of the daily quota (floor division).
pub const HOURS_PER_DAY: u64 = 24;

/// Capacity of the blacklist registry's storage.
pub const MAX_BLACKLISTED_USERS: usize = 100;

/// The singleton system configuration, created once by `initialize_config`.
#[derive(Clone, Copy, Debug, PartialEq, Eq, Structural)]
pub struct ConfigAccount {
    /// The accepted asset's identifier.
    pub payment_token_mint: Identity,
    /// The administrator's identity.
    pub admin: Identity,
    /// The process-wide emergency halt flag.
    pub emergency_paused: bool,
    /// Most a user may claim within one daily window.
    pub max_claim_per_user: u64,
    /// Global cap on the cumulative amount minted through claims.
    pub total_supply_limit: u64,
    /// Cumulative amount minted through claims so far.
    pub total_minted: u64,
}

/// Per-claimant bookkeeping, created lazily on a user's first claim.
#[derive(Clone, Copy, Debug, PartialEq, Eq, Structural)]
pub struct UserClaimAccount {
    /// The claimant this record belongs to.
    pub user: Identity,
    /// Lifetime total claimed by this user.
    pub total_claimed: u64,
    /// Clock reading at this user's most recent successful claim.
    pub last_claim_timestamp: i64,
    /// Amount claimed in the current daily window.
    pub daily_claimed: u64,
    /// When the daily window was last reset.
    pub daily_reset_timestamp: i64,
    /// Amount claimed in the current hourly window.
    pub hourly_claimed: u64,
    /// When the hourly window was last reset.
    pub hourly_reset_timestamp: i64,
    /// Strictly increasing count of this user's successful claims.
    pub nonce: u64,
    /// Mirror of the blacklist registry's membership at last sync.
    pub is_blacklisted: bool,
}

/// The singleton registry of identities forbidden from claiming.
#[derive(Clone, Debug, PartialEq, Eq)]
pub struct BlacklistAccount {
    /// The administrator who owns the registry.
    pub admin: Identity,
    /// The banned identities, each present at most once.
    pub blacklisted_users: Vec<Identity>,
}

/// The kind of privileged change a pending administrative action carries.
#[derive(Clone, Copy, Debug, PartialEq, Eq, Structural)]
pub enum AdminActionType {
    /// Replace the administrator identity in the configuration.
    ChangeAdmin,
    /// Replace the accepted asset's identifier.
    ChangeToken,
    /// A named emergency hook with no configuration effect.
    EmergencyWithdraw,
}

/// A timelocked administrative action: requested, then executable only after
/// `ADMIN_ACTION_DELAY` seconds, and at most once.
#[derive(Clone, Copy, Debug, PartialEq, Eq, Structural)]
pub struct PendingAdminAction {
    /// What the action changes.
    pub action_type: AdminActionType,
    /// The proposed new value (an administrator or asset identity).
    pub new_value: Identity,
    /// Clock reading when the action was requested.
    pub requested_at: i64,
    /// Whether the action has already been applied.
    pub executed: bool,
}

/// A user record is well formed when its window-start timestamps are valid
/// clock readings. Claims preserve this, and fresh records establish it.
pub open spec fn record_time_wf(r: UserClaimAccount) -> bool {
    &&& 0 <= r.daily_reset_timestamp
    &&& 0 <= r.hourly_reset_timestamp
}

/// A user record respects the configured rate limits.
pub open spec fn record_within_limits(r: UserClaimAccount, c: ConfigAccount) -> bool {
    &&& r.daily_claimed <= c.max_claim_per_user
    &&& r.hourly_claimed <= c.max_claim_per_user / HOURS_PER_DAY
}

/// The record a user starts from on their first claim at time `now`:
/// zeroed counters, both windows opening at `now`.
pub open spec fn spec_fresh_record(user: Identity, now: i64) -> UserClaimAccount {
    UserClaimAccount {
        user,
        total_claimed: 0,
        last_claim_timestamp: 0,
        daily_claimed: 0,
        daily_reset_timestamp: now,
        hourly_claimed: 0,
        hourly_reset_timestamp: now,
        nonce: 0,
        is_blacklisted: false,
    }
}

} // verus!

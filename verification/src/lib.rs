//! Policy engine for a token-distribution system.
//!
//! The library decides, for every request to claim, burn or mint units of a
//! fungible asset, whether the request is legitimate and within policy, and
//! says exactly what state change and audit record a successful request
//! produces. It covers claim authorization with per-user hourly and daily
//! rate limits, a global supply cap, an authenticated-message check, a
//! blacklist registry, an emergency pause, and a timelocked two-phase
//! administrative state machine.
//!
//! Host-side effects (the asset ledger's mint and burn primitives, clock
//! reads, account storage, event emission) stay outside the library: every
//! operation takes the current time and the relevant host facts as plain
//! arguments, mutates only the state it is given, and returns the decision
//! together with the audit event for the host to emit. On any error the
//! state is left exactly as it was.

pub mod admin;
pub mod blacklist;
pub mod errors;
pub mod events;
pub mod message;
pub mod policy;
pub mod signature;
pub mod state;

use vstd::prelude::*;

verus! {

/// The reasons an operation can be refused.
///
/// Every error aborts the whole operation with no partial effect: a caller
/// sees all records exactly as they were before the call. Nothing is retried
/// internally; the caller decides whether to resubmit.
#[derive(Clone, Copy, Debug, PartialEq, Eq, Structural)]
pub enum ErrorCode {
    /// No valid signature-verification operation precedes the request.
    InvalidSignature,
    /// The supplied timestamp is too far from the clock at execution time.
    ExpiredSignature,
    /// The caller is not allowed to perform this action.
    Unauthorized,
    /// The asset identifier does not match the configured one.
    InvalidPaymentToken,
    /// The amount is zero or would exceed a policy limit.
    InvalidPaymentAmount,
    /// No payment asset has been configured.
    PaymentTokenNotConfigured,
    /// The payer's balance does not cover the requested amount.
    InsufficientFunds,
    /// The system is paused for emergency.
    SystemPaused,
    /// An input value is rejected, or a timelocked action is not ready.
    InvalidInput,
    /// A checked arithmetic operation would overflow.
    MathOverflow,
}

} // verus!

//! Failure taxonomy of the sale engine.

use vstd::prelude::*;

verus! {

/// Every way a sale operation can fail.
///
/// Each failure is terminal for the attempt it belongs to: the caller commits
/// no state on any `Err`.
#[derive(Clone, Debug, PartialEq, Eq)]
pub enum ContractError {
    /// The caller is not the configured administrator, or no administrator
    /// exists.
    Unauthorized,
    /// The sale is paused.
    ContractPaused,
    /// The purchase would exceed what is still issuable today.
    DailyLimitExceeded { available: u128, requested: u128 },
    /// A payment token identifier was malformed or unknown.
    InvalidToken { token: String },
    /// A pricing parameter or exchange rate was zero or unusable.
    InvalidExchangeRate { token: String },
    /// A zero amount was offered where a positive one is required.
    ZeroAmount,
    /// The contract's live native balance cannot cover the issuance.
    InsufficientBalance { available: u128, needed: u128 },
    /// A daily-limit fraction outside (0, 10000] basis points.
    InvalidBasisPoints { value: u128 },
    /// The authenticity check rejected the payment instrument.
    TokenNotAccepted { token: String },
    /// The payment rounded down to zero tokens.
    NoTokensToPurchase,
    /// The purchase solver could not consume the whole payment: a
    /// configuration or logic fault, never a partial-fill opportunity.
    PaymentMismatch { requested: u128, consumed: u128 },
    /// A checked arithmetic step overflowed while committing a settlement.
    Overflow,
    /// The host environment failed to answer a required query.
    HostError { reason: String },
}

} // verus!

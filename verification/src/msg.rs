//! Message-boundary types: what the host shell hands in and what the
//! read-only queries hand back, as plain values.

use vstd::prelude::*;

verus! {

/// Parameters of the one-time initialization. Every field is optional; the
/// documented defaults apply where a field is absent.
#[derive(Clone, Debug, PartialEq, Eq)]
pub struct InstantiateMsg {
    /// Administrator address; `None` or empty means governance-only.
    pub admin: Option<String>,
    /// Daily selling limit in basis points (1-10000). Defaults to 100 (1%).
    pub daily_limit_bp: Option<u128>,
    /// Base price per token in micro-USD. Defaults to 25000 ($0.025).
    pub base_price_usd: Option<u128>,
    /// Tokens per tier in 9-decimal units. Defaults to 3 million tokens.
    pub tokens_per_tier: Option<u128>,
    /// Tier multiplier in parts per thousand. Defaults to 1300 (x1.3).
    pub tier_multiplier: Option<u128>,
    /// Native tokens allocated to the sale. Defaults to 0.
    pub total_supply: Option<u128>,
}

/// A received transfer of a payment token: the buyer, the amount (treated as
/// micro-USD, one-to-one), and the opaque inner message bytes.
#[derive(Clone, Debug, PartialEq, Eq)]
pub struct Cw20ReceiveMsg {
    pub sender: String,
    pub amount: u128,
    pub msg: Vec<u8>,
}

/// The inner purchase message carried by a payment transfer. Carries no
/// fields yet; a recipient address may be added later.
#[derive(Clone, Debug, PartialEq, Eq)]
pub struct PurchaseTokenMsg {}

/// Current configuration, as reported by the read-only query.
#[derive(Clone, Debug, PartialEq, Eq)]
pub struct ConfigResponse {
    pub admin: String,
    pub native_denom: String,
    pub daily_limit_bp: u128,
    pub is_paused: bool,
    pub total_tokens_sold: u128,
}

/// Daily statistics with the lazy rollover applied for the response only.
#[derive(Clone, Copy, Debug, PartialEq, Eq)]
pub struct DailyStatsResponse {
    pub current_day: u64,
    pub usd_received_today: u128,
    pub tokens_sold_today: u128,
    pub tokens_available_today: u128,
    pub daily_token_limit: u128,
    pub total_supply: u128,
}

/// Current pricing information, including the next tier's threshold and
/// price.
#[derive(Clone, Copy, Debug, PartialEq, Eq)]
pub struct PricingInfoResponse {
    pub current_tier: u32,
    pub current_price_usd: u128,
    pub total_tokens_sold: u128,
    pub tokens_per_tier: u128,
    pub base_price_usd: u128,
    pub tier_multiplier: u128,
    pub next_tier_at: u128,
    pub next_tier_price: u128,
}

/// Token amount a hypothetical micro-USD input buys at the current tier
/// price only (no multi-tier spanning).
#[derive(Clone, Copy, Debug, PartialEq, Eq)]
pub struct TokenCalculationResponse {
    pub tokens: u128,
    pub current_price: u128,
    pub current_tier: u32,
}

/// Outcome of probing the authenticity check with a given identifier.
#[derive(Clone, Copy, Debug, PartialEq, Eq)]
pub struct TestBridgeValidationResponse {
    pub is_valid: bool,
}

/// The current block height.
#[derive(Clone, Copy, Debug, PartialEq, Eq)]
pub struct BlockHeightResponse {
    pub height: u64,
}

/// JSON-normalized form of the approved-tokens listing.
#[derive(Clone, Debug, PartialEq, Eq)]
pub struct ApprovedTokensForTradeJson {
    pub approved_tokens: Vec<ApprovedTokenJson>,
}

/// One approved bridged token: its origin chain and contract address.
#[derive(Clone, Debug, PartialEq, Eq)]
pub struct ApprovedTokenJson {
    pub chain_id: String,
    pub contract_address: String,
}

} // verus!

//! The three persisted records of the sale.
//!
//! Amounts follow two fixed-point conventions: USD amounts carry 6 implied
//! decimals (micro-USD), native token amounts carry 9 implied decimals.

use vstd::prelude::*;

verus! {

/// Basis-point denominator: 10000 bp = 100%.
pub const BP_DENOM: u128 = 10000;

/// Sale configuration. Singleton, created at initialization.
#[derive(Clone, Debug, PartialEq, Eq)]
pub struct Config {
    /// Administrator address; empty means no administrative authority.
    pub admin: String,
    /// Native token denomination.
    pub native_denom: String,
    /// Daily selling limit in basis points (1-10000).
    pub daily_limit_bp: u128,
    /// Whether the sale is paused.
    pub is_paused: bool,
    /// Total supply of native tokens allocated to this sale.
    pub total_supply: u128,
    /// Cumulative tokens sold across all tiers; sole driver of the active
    /// pricing tier.
    pub total_tokens_sold: u128,
}

impl Config {
    /// The configuration invariant: the daily-limit fraction lies in
    /// (0, 10000] basis points.
    pub open spec fn wf(self) -> bool {
        0 < self.daily_limit_bp <= BP_DENOM
    }
}

/// Running totals for the current accounting day. Singleton, mutated only by
/// settlement.
#[derive(Clone, Copy, Debug, PartialEq, Eq)]
pub struct DailyStats {
    /// Current accounting day: floor(block time in seconds / 86400).
    pub current_day: u64,
    /// Micro-USD received so far today.
    pub usd_received_today: u128,
    /// Token units sold so far today.
    pub tokens_sold_today: u128,
}

/// Parameters of the escalating price curve. Singleton, mutated only by an
/// authorized parameter update.
#[derive(Clone, Copy, Debug, PartialEq, Eq)]
pub struct PricingConfig {
    /// Base price per token in micro-USD (25000 = $0.025).
    pub base_price_usd: u128,
    /// Tokens per tier, 9-decimal units (3_000_000_000_000_000 = 3 million
    /// tokens).
    pub tokens_per_tier: u128,
    /// Price multiplier per tier in parts per thousand (1300 = x1.3).
    pub tier_multiplier: u128,
}

impl PricingConfig {
    /// The pricing invariant: all three parameters strictly positive.
    pub open spec fn wf(self) -> bool {
        self.base_price_usd > 0 && self.tokens_per_tier > 0 && self.tier_multiplier > 0
    }
}

} // verus!

//! Read-only views over the persisted records.
//!
//! The daily-stats view applies the lazy day rollover for the response only;
//! nothing here mutates state. The token calculator prices a hypothetical
//! input at the current tier price alone and does not simulate multi-tier
//! spanning.

use vstd::prelude::*;

use crate::daily::{roll_daily_stats, spec_daily_token_limit, spec_day_of, spec_rolled,
    spec_tokens_available};
use crate::msg::{BlockHeightResponse, ConfigResponse, DailyStatsResponse, PricingInfoResponse,
    TokenCalculationResponse};
use crate::pricing::{MULTIPLIER_SCALE, calculate_current_price, calculate_current_tier,
    calculate_tokens_for_usd, spec_price_at, spec_tier_index, spec_tokens_for_usd};
use crate::state::{BP_DENOM, Config, DailyStats, PricingConfig};

verus! {

/// The configuration as the query reports it.
pub fn query_config(config: &Config) -> (response: ConfigResponse)
    ensures
        response == (ConfigResponse {
            admin: config.admin,
            native_denom: config.native_denom,
            daily_limit_bp: config.daily_limit_bp,
            is_paused: config.is_paused,
            total_tokens_sold: config.total_tokens_sold,
        }),
{
    ConfigResponse {
        admin: config.admin.clone(),
        native_denom: config.native_denom.clone(),
        daily_limit_bp: config.daily_limit_bp,
        is_paused: config.is_paused,
        total_tokens_sold: config.total_tokens_sold,
    }
}

/// Daily statistics with the rollover applied for the response only. Unlike
/// settlement, the query reports an overflowing daily limit as zero instead
/// of failing.
pub fn query_daily_stats(config: &Config, stats: &DailyStats, block_time_seconds: u64) -> (
    response: DailyStatsResponse)
    ensures
        response == ({
            let rolled = spec_rolled(*stats, spec_day_of(block_time_seconds));
            let limit = match spec_daily_token_limit(*config) {
                Option::Some(value) => value,
                Option::None => 0u128,
            };
            DailyStatsResponse {
                current_day: rolled.current_day,
                usd_received_today: rolled.usd_received_today,
                tokens_sold_today: rolled.tokens_sold_today,
                tokens_available_today: spec_tokens_available(limit, rolled.tokens_sold_today),
                daily_token_limit: limit,
                total_supply: config.total_supply,
            }
        }),
{
    let rolled = roll_daily_stats(stats, block_time_seconds);

    let daily_token_limit = match config.total_supply.checked_mul(config.daily_limit_bp) {
        Some(raw) => raw / BP_DENOM,
        None => 0,
    };

    let tokens_available_today = if rolled.tokens_sold_today > daily_token_limit {
        0
    } else {
        daily_token_limit - rolled.tokens_sold_today
    };

    DailyStatsResponse {
        current_day: rolled.current_day,
        usd_received_today: rolled.usd_received_today,
        tokens_sold_today: rolled.tokens_sold_today,
        tokens_available_today,
        daily_token_limit,
        total_supply: config.total_supply,
    }
}

/// Current pricing information, including where the next tier begins and
/// what it will charge.
pub fn query_pricing_info(config: &Config, pricing: &PricingConfig) -> (response:
    PricingInfoResponse)
    ensures
        response == ({
            let tier = spec_tier_index(config.total_tokens_sold, pricing.tokens_per_tier);
            let price = spec_price_at(pricing.base_price_usd, tier as nat, pricing.tier_multiplier);
            PricingInfoResponse {
                current_tier: tier,
                current_price_usd: price,
                total_tokens_sold: config.total_tokens_sold,
                tokens_per_tier: pricing.tokens_per_tier,
                base_price_usd: pricing.base_price_usd,
                tier_multiplier: pricing.tier_multiplier,
                next_tier_at: if pricing.tokens_per_tier * (tier + 1) > u128::MAX {
                    0u128
                } else {
                    (pricing.tokens_per_tier * (tier + 1)) as u128
                },
                next_tier_price: spec_price_at(
                    pricing.base_price_usd,
                    (tier + 1) as nat,
                    pricing.tier_multiplier,
                ),
            }
        }),
{
    let current_tier = calculate_current_tier(config.total_tokens_sold, pricing.tokens_per_tier);
    let current_price = calculate_current_price(
        pricing.base_price_usd,
        current_tier,
        pricing.tier_multiplier,
    );

    let next_tier_at = match pricing.tokens_per_tier.checked_mul(current_tier as u128 + 1) {
        Some(threshold) => threshold,
        None => 0,
    };

    let next_tier_price = match current_price.checked_mul(pricing.tier_multiplier) {
        Some(scaled) => scaled / MULTIPLIER_SCALE,
        None => current_price,
    };

    PricingInfoResponse {
        current_tier,
        current_price_usd: current_price,
        total_tokens_sold: config.total_tokens_sold,
        tokens_per_tier: pricing.tokens_per_tier,
        base_price_usd: pricing.base_price_usd,
        tier_multiplier: pricing.tier_multiplier,
        next_tier_at,
        next_tier_price,
    }
}

/// The current block height, echoed back as a response.
pub fn query_block_height(height: u64) -> (response: BlockHeightResponse)
    ensures
        response.height == height,
{
    BlockHeightResponse { height }
}

/// Tokens a hypothetical micro-USD input buys at the current tier price.
pub fn query_calculate_tokens(config: &Config, pricing: &PricingConfig, usd_amount: u128) -> (
    response: TokenCalculationResponse)
    ensures
        response == ({
            let tier = spec_tier_index(config.total_tokens_sold, pricing.tokens_per_tier);
            let price = spec_price_at(pricing.base_price_usd, tier as nat, pricing.tier_multiplier);
            TokenCalculationResponse {
                tokens: spec_tokens_for_usd(usd_amount, price),
                current_price: price,
                current_tier: tier,
            }
        }),
{
    let current_tier = calculate_current_tier(config.total_tokens_sold, pricing.tokens_per_tier);
    let current_price = calculate_current_price(
        pricing.base_price_usd,
        current_tier,
        pricing.tier_multiplier,
    );
    let tokens = calculate_tokens_for_usd(usd_amount, current_price);

    TokenCalculationResponse { tokens, current_price, current_tier }
}

} // verus!

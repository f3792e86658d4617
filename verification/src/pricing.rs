//! Fixed-point tier math.
//!
//! The active tier is a floor division of cumulative tokens sold; the price
//! of a tier is the base price pushed through one multiply-then-divide step
//! per tier. The step-by-step (not closed-form) definition is intentional:
//! purchases settle tier by tier and must reproduce the same rounding.

use vstd::prelude::*;

verus! {

/// Scale factor between 6-decimal micro-USD and 9-decimal token units.
pub const TOKEN_SCALE: u128 = 1_000_000_000;

/// A tier multiplier is expressed in parts per thousand (1300 = x1.3).
pub const MULTIPLIER_SCALE: u128 = 1000;

/// Mathematical tier index: floor(sold / per_tier), with a zero tier size
/// treated as the degenerate safe default of tier 0.
pub open spec fn spec_tier_of(sold: u128, per_tier: u128) -> nat {
    if per_tier == 0 {
        0
    } else {
        sold as nat / per_tier as nat
    }
}

/// Tier index as the engine carries it: the mathematical index truncated to
/// 32 bits.
pub open spec fn spec_tier_index(sold: u128, per_tier: u128) -> u32 {
    spec_tier_of(sold, per_tier) as u32
}

/// One escalation step: multiply by the parts-per-thousand multiplier, then
/// divide by 1000, rounding toward zero. If the multiplication would
/// overflow, the price stays unchanged for that step: escalation degrades
/// gracefully instead of aborting a sale.
pub open spec fn spec_price_step(price: u128, multiplier: u128) -> u128 {
    if price * multiplier > u128::MAX {
        price
    } else {
        ((price * multiplier) / MULTIPLIER_SCALE as int) as u128
    }
}

/// Price of a tier: the base price with `tier` escalation steps applied.
pub open spec fn spec_price_at(base: u128, tier: nat, multiplier: u128) -> u128
    decreases tier,
{
    if tier == 0 {
        base
    } else {
        spec_price_step(spec_price_at(base, (tier - 1) as nat, multiplier), multiplier)
    }
}

/// Tokens purchasable for a micro-USD amount at a given price: scale the USD
/// amount to 9-decimal token units, then divide by the 6-decimal price. A
/// zero price yields zero tokens, as does an overflowing scale step.
pub open spec fn spec_tokens_for_usd(usd: u128, price: u128) -> u128 {
    if price == 0 {
        0
    } else if usd * TOKEN_SCALE > u128::MAX {
        0
    } else {
        ((usd * TOKEN_SCALE as int) / price as int) as u128
    }
}

/// Current tier for a cumulative amount of tokens sold.
pub fn calculate_current_tier(tokens_sold: u128, tokens_per_tier: u128) -> (tier: u32)
    ensures
        tier == spec_tier_index(tokens_sold, tokens_per_tier),
{
    if tokens_per_tier == 0 {
        return 0;
    }
    #[verifier::truncate] ((tokens_sold / tokens_per_tier) as u32)
}

/// Tier index derived from cumulative USD value sold instead of tokens sold.
pub fn calculate_current_tier_usd(
    usd_sold: u128,
    tokens_per_tier: u128,
    base_price: u128,
) -> (tier: u32)
    ensures
        tier == ({
            let usd_per_tier = if tokens_per_tier * base_price > u128::MAX {
                0
            } else {
                tokens_per_tier * base_price
            };
            if tokens_per_tier == 0 || base_price == 0 || usd_per_tier == 0 {
                0u32
            } else {
                (usd_sold as nat / usd_per_tier as nat) as u32
            }
        }),
{
    if tokens_per_tier == 0 || base_price == 0 {
        return 0;
    }
    let usd_per_tier = match tokens_per_tier.checked_mul(base_price) {
        Some(v) => v,
        None => 0,
    };
    if usd_per_tier == 0 {
        return 0;
    }
    #[verifier::truncate] ((usd_sold / usd_per_tier) as u32)
}

/// Price per token for a tier, in micro-USD.
pub fn calculate_current_price(
    base_price: u128,
    current_tier: u32,
    tier_multiplier: u128,
) -> (price: u128)
    ensures
        price == spec_price_at(base_price, current_tier as nat, tier_multiplier),
{
    let mut price = base_price;
    let mut step: u32 = 0;
    while step < current_tier
        invariant
            step <= current_tier,
            price == spec_price_at(base_price, step as nat, tier_multiplier),
        decreases current_tier - step,
    {
        price = match price.checked_mul(tier_multiplier) {
            Some(scaled) => scaled / MULTIPLIER_SCALE,
            None => price,
        };
        step = step + 1;
    }
    price
}

/// Tokens purchasable with a micro-USD amount at a fixed price.
pub fn calculate_tokens_for_usd(usd_amount: u128, price_per_token: u128) -> (tokens: u128)
    ensures
        tokens == spec_tokens_for_usd(usd_amount, price_per_token),
{
    if price_per_token == 0 {
        return 0;
    }
    match usd_amount.checked_mul(TOKEN_SCALE) {
        Some(scaled) => scaled / price_per_token,
        None => 0,
    }
}

/// No free tokens: a zero payment buys nothing, and a zero price sells
/// nothing.
pub proof fn lemma_no_free_tokens(usd: u128, price: u128)
    ensures
        spec_tokens_for_usd(0, price) == 0,
        spec_tokens_for_usd(usd, 0) == 0,
{
}

/// The tier index is non-decreasing in cumulative tokens sold.
pub proof fn lemma_tier_monotonic(sold1: u128, sold2: u128, per_tier: u128)
    requires
        sold1 <= sold2,
    ensures
        spec_tier_of(sold1, per_tier) <= spec_tier_of(sold2, per_tier),
{
    if per_tier != 0 {
        vstd::arithmetic::div_mod::lemma_div_is_ordered(
            sold1 as int,
            sold2 as int,
            per_tier as int,
        );
    }
}

/// With a multiplier of at least x1.0, one escalation step never lowers the
/// price.
pub proof fn lemma_price_step_does_not_decrease(price: u128, multiplier: u128)
    requires
        multiplier >= MULTIPLIER_SCALE,
    ensures
        spec_price_step(price, multiplier) >= price,
{
    if price * multiplier <= u128::MAX {
        assert(price * MULTIPLIER_SCALE <= price * multiplier) by (nonlinear_arith)
            requires
                multiplier >= MULTIPLIER_SCALE,
                price >= 0,
        ;
        vstd::arithmetic::div_mod::lemma_div_is_ordered(
            price * MULTIPLIER_SCALE as int,
            price * multiplier,
            MULTIPLIER_SCALE as int,
        );
        vstd::arithmetic::div_mod::lemma_div_multiples_vanish(
            price as int,
            MULTIPLIER_SCALE as int,
        );
    }
}

/// With a multiplier of at least x1.0, the tier price is non-decreasing in
/// the tier index.
pub proof fn lemma_price_monotonic(base: u128, tier1: nat, tier2: nat, multiplier: u128)
    requires
        multiplier >= MULTIPLIER_SCALE,
        tier1 <= tier2,
    ensures
        spec_price_at(base, tier1, multiplier) <= spec_price_at(base, tier2, multiplier),
    decreases tier2,
{
    if tier1 < tier2 {
        lemma_price_monotonic(base, tier1, (tier2 - 1) as nat, multiplier);
        lemma_price_step_does_not_decrease(
            spec_price_at(base, (tier2 - 1) as nat, multiplier),
            multiplier,
        );
    }
}

} // verus!

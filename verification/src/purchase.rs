//! The multi-tier purchase solver.
//!
//! Given a micro-USD payment and the cumulative tokens sold so far, the
//! solver walks the price curve tier by tier, spending in each tier the
//! smaller of the remaining payment and the cost to exhaust the tier, until
//! the payment is consumed, progress stops, or a defensive ceiling of 50
//! iterations is hit. Hitting the ceiling (or stalling) leaves part of the
//! payment unconsumed, which a caller must treat as a fault, never as a
//! partial fill.
//!
//! Every arithmetic step is explicit about overflow: a checked operation
//! either falls back to a documented default or leaves a running total
//! unchanged, exactly as stated by the spec functions below.

use vstd::prelude::*;

use crate::pricing::{
    TOKEN_SCALE, calculate_current_price, calculate_current_tier, calculate_tokens_for_usd,
    spec_price_at, spec_tier_index, spec_tokens_for_usd,
};
use crate::state::PricingConfig;

verus! {

/// Defensive ceiling on tier crossings per purchase.
pub const MAX_TIER_ITERATIONS: u32 = 50;

/// Running state of the solver walk.
#[derive(Clone, Copy, Debug, PartialEq, Eq, Structural)]
pub struct SolveState {
    /// Micro-USD still to spend.
    pub remaining: u128,
    /// Token units issued so far.
    pub tokens: u128,
    /// Micro-USD consumed so far.
    pub spent: u128,
    /// Cumulative tokens sold, including this purchase's issuance so far.
    pub sold: u128,
    /// Tier index reached so far.
    pub end_tier: u32,
}

/// Addition that leaves the left operand unchanged on overflow.
pub open spec fn spec_clamped_add(a: u128, b: u128) -> u128 {
    if a + b > u128::MAX {
        a
    } else {
        (a + b) as u128
    }
}

/// Token units still available inside the tier that `sold` falls in.
pub open spec fn spec_tokens_left_in_tier(sold: u128, per_tier: u128) -> u128 {
    if per_tier == 0 {
        0
    } else {
        (per_tier - sold % per_tier) as u128
    }
}

/// Micro-USD needed to buy `tokens_left` token units at `price`: scale the
/// 9-decimal token count down by 10^9 after multiplying by the 6-decimal
/// price. An overflowing multiplication yields zero, which stalls the walk.
pub open spec fn spec_usd_to_fill(tokens_left: u128, price: u128) -> u128 {
    if tokens_left * price > u128::MAX {
        0
    } else {
        ((tokens_left * price) / TOKEN_SCALE as int) as u128
    }
}

/// Price of the tier the walk currently stands in.
pub open spec fn spec_entry_price(sold: u128, p: PricingConfig) -> u128 {
    spec_price_at(
        p.base_price_usd,
        spec_tier_index(sold, p.tokens_per_tier) as nat,
        p.tier_multiplier,
    )
}

/// Micro-USD the walk spends in the current tier: the remaining payment,
/// capped by the cost to exhaust the tier.
pub open spec fn spec_spend_in_tier(st: SolveState, p: PricingConfig) -> u128 {
    let tier_cost = spec_usd_to_fill(
        spec_tokens_left_in_tier(st.sold, p.tokens_per_tier),
        spec_entry_price(st.sold, p),
    );
    if st.remaining <= tier_cost {
        st.remaining
    } else {
        tier_cost
    }
}

/// The walk can make no further progress: nothing left to spend, a price
/// that resolved to zero, or a tier spend that rounds to zero.
pub open spec fn spec_solver_stalled(st: SolveState, p: PricingConfig) -> bool {
    st.remaining == 0 || spec_entry_price(st.sold, p) == 0 || spec_spend_in_tier(st, p) == 0
}

/// The tier-by-tier walk itself, `fuel` iterations at most.
pub open spec fn spec_solve_loop(st: SolveState, p: PricingConfig, fuel: nat) -> SolveState
    decreases fuel,
{
    if fuel == 0 || st.remaining == 0 {
        st
    } else {
        let price = spec_entry_price(st.sold, p);
        if price == 0 {
            st
        } else {
            let spend = spec_spend_in_tier(st, p);
            if spend == 0 {
                st
            } else {
                let bought = spec_tokens_for_usd(spend, price);
                let sold = spec_clamped_add(st.sold, bought);
                spec_solve_loop(
                    SolveState {
                        remaining: (st.remaining - spend) as u128,
                        tokens: spec_clamped_add(st.tokens, bought),
                        spent: spec_clamped_add(st.spent, spend),
                        sold,
                        end_tier: spec_tier_index(sold, p.tokens_per_tier),
                    },
                    p,
                    (fuel - 1) as nat,
                )
            }
        }
    }
}

/// Realized blended price: micro-USD spent per token issued, scaled back to
/// the 6-decimal price format; zero when nothing was issued or the scale
/// step overflows.
pub open spec fn spec_average_price(spent: u128, tokens: u128) -> u128 {
    if tokens == 0 {
        0
    } else if spent * TOKEN_SCALE > u128::MAX {
        0
    } else {
        ((spent * TOKEN_SCALE as int) / tokens as int) as u128
    }
}

/// The full solver: `(tokens_issued, payment_consumed, start_tier, end_tier,
/// blended_price)` for a payment entering at `sold` cumulative tokens sold.
pub open spec fn spec_multi_tier_purchase(usd: u128, sold: u128, p: PricingConfig) -> (
    u128,
    u128,
    u32,
    u32,
    u128,
) {
    if usd == 0 || p.tokens_per_tier == 0 || p.base_price_usd == 0 {
        (0, 0, 0, 0, 0)
    } else {
        let start_tier = spec_tier_index(sold, p.tokens_per_tier);
        let st = spec_solve_loop(
            SolveState { remaining: usd, tokens: 0, spent: 0, sold, end_tier: start_tier },
            p,
            MAX_TIER_ITERATIONS as nat,
        );
        (st.tokens, st.spent, start_tier, st.end_tier, spec_average_price(st.spent, st.tokens))
    }
}

/// Settle a purchase that may span several pricing tiers.
///
/// Returns `(tokens_issued, payment_consumed, start_tier, end_tier,
/// blended_price)`. A result whose consumed payment differs from
/// `usd_amount` signals a stalled or exhausted walk and must be rejected by
/// the caller.
pub fn calculate_multi_tier_purchase(
    usd_amount: u128,
    current_tokens_sold: u128,
    pricing_config: &PricingConfig,
) -> (result: (u128, u128, u32, u32, u128))
    ensures
        result == spec_multi_tier_purchase(usd_amount, current_tokens_sold, *pricing_config),
{
    let per_tier = pricing_config.tokens_per_tier;
    let base_price = pricing_config.base_price_usd;
    let multiplier = pricing_config.tier_multiplier;
    if usd_amount == 0 || per_tier == 0 || base_price == 0 {
        return (0, 0, 0, 0, 0);
    }

    let start_tier = calculate_current_tier(current_tokens_sold, per_tier);

    let mut remaining = usd_amount;
    let mut total_tokens: u128 = 0;
    let mut actual_usd_spent: u128 = 0;
    let mut sold_so_far = current_tokens_sold;
    let mut end_tier = start_tier;
    let mut iter: u32 = 0;
    let mut done = false;

    let ghost p = *pricing_config;
    let ghost target = spec_solve_loop(
        SolveState {
            remaining: usd_amount,
            tokens: 0,
            spent: 0,
            sold: current_tokens_sold,
            end_tier: start_tier,
        },
        p,
        MAX_TIER_ITERATIONS as nat,
    );

    while iter < MAX_TIER_ITERATIONS && !done
        invariant
            iter <= MAX_TIER_ITERATIONS,
            per_tier == p.tokens_per_tier,
            base_price == p.base_price_usd,
            multiplier == p.tier_multiplier,
            per_tier > 0,
            spec_solve_loop(
                (SolveState {
                    remaining,
                    tokens: total_tokens,
                    spent: actual_usd_spent,
                    sold: sold_so_far,
                    end_tier,
                }),
                p,
                (MAX_TIER_ITERATIONS - iter) as nat,
            ) == target,
            done ==> spec_solver_stalled(
                (SolveState {
                    remaining,
                    tokens: total_tokens,
                    spent: actual_usd_spent,
                    sold: sold_so_far,
                    end_tier,
                }),
                p,
            ),
        decreases 2 * (MAX_TIER_ITERATIONS - iter as int) + (if done {
            0int
        } else {
            1int
        }),
    {
        let ghost st_before = SolveState {
            remaining,
            tokens: total_tokens,
            spent: actual_usd_spent,
            sold: sold_so_far,
            end_tier,
        };
        let ghost fuel_before = (MAX_TIER_ITERATIONS - iter) as nat;

        if remaining == 0 {
            done = true;
        } else {
            let tier = calculate_current_tier(sold_so_far, per_tier);
            let price = calculate_current_price(base_price, tier, multiplier);
            if price == 0 {
                done = true;
            } else {
                let already_sold = sold_so_far % per_tier;
                let tokens_left = per_tier - already_sold;
                let tier_cost = match tokens_left.checked_mul(price) {
                    Some(raw) => raw / TOKEN_SCALE,
                    None => 0,
                };
                let spend = if remaining <= tier_cost {
                    remaining
                } else {
                    tier_cost
                };
                if spend == 0 {
                    done = true;
                } else {
                    let bought = calculate_tokens_for_usd(spend, price);
                    total_tokens = match total_tokens.checked_add(bought) {
                        Some(v) => v,
                        None => total_tokens,
                    };
                    actual_usd_spent = match actual_usd_spent.checked_add(spend) {
                        Some(v) => v,
                        None => actual_usd_spent,
                    };
                    remaining = remaining - spend;
                    sold_so_far = match sold_so_far.checked_add(bought) {
                        Some(v) => v,
                        None => sold_so_far,
                    };
                    end_tier = calculate_current_tier(sold_so_far, per_tier);
                    iter = iter + 1;
                    proof {
                        assert(spec_solve_loop(st_before, p, fuel_before) == spec_solve_loop(
                            (SolveState {
                                remaining,
                                tokens: total_tokens,
                                spent: actual_usd_spent,
                                sold: sold_so_far,
                                end_tier,
                            }),
                            p,
                            (fuel_before - 1) as nat,
                        ));
                    }
                }
            }
        }
    }

    proof {
        assert(spec_solve_loop(
            (SolveState {
                remaining,
                tokens: total_tokens,
                spent: actual_usd_spent,
                sold: sold_so_far,
                end_tier,
            }),
            p,
            (MAX_TIER_ITERATIONS - iter) as nat,
        ) == (SolveState {
            remaining,
            tokens: total_tokens,
            spent: actual_usd_spent,
            sold: sold_so_far,
            end_tier,
        }));
    }

    let average_price = if total_tokens == 0 {
        0
    } else {
        match actual_usd_spent.checked_mul(TOKEN_SCALE) {
            Some(raw) => raw / total_tokens,
            None => 0,
        }
    };

    (total_tokens, actual_usd_spent, start_tier, end_tier, average_price)
}

/// Accounting identity of the walk: micro-USD spent plus micro-USD still
/// remaining is constant, so the solver never conjures or loses payment.
pub proof fn lemma_solver_conserves_payment(st: SolveState, p: PricingConfig, fuel: nat)
    requires
        st.spent + st.remaining <= u128::MAX,
    ensures
        spec_solve_loop(st, p, fuel).spent + spec_solve_loop(st, p, fuel).remaining == st.spent
            + st.remaining,
    decreases fuel,
{
    if fuel > 0 && st.remaining > 0 {
        let price = spec_entry_price(st.sold, p);
        if price != 0 {
            let spend = spec_spend_in_tier(st, p);
            if spend != 0 {
                let bought = spec_tokens_for_usd(spend, price);
                let sold = spec_clamped_add(st.sold, bought);
                let next = SolveState {
                    remaining: (st.remaining - spend) as u128,
                    tokens: spec_clamped_add(st.tokens, bought),
                    spent: spec_clamped_add(st.spent, spend),
                    sold,
                    end_tier: spec_tier_index(sold, p.tokens_per_tier),
                };
                lemma_solver_conserves_payment(next, p, (fuel - 1) as nat);
            }
        }
    }
}

/// When a whole payment converts at one price, the blended price recovers
/// that price exactly, provided the rounding residue of the conversion is
/// smaller than the token count issued. The residue condition
/// `(usd * 10^9) % price < tokens` is the precise boundary: for a payment so
/// small that fewer tokens are issued than the residue, the floor division
/// inflates the blended price above the tier price.
pub proof fn lemma_single_tier_blended_price(usd: u128, price: u128)
    requires
        price > 0,
        spec_tokens_for_usd(usd, price) > 0,
        (usd * TOKEN_SCALE) % (price as int) < spec_tokens_for_usd(usd, price),
    ensures
        spec_average_price(usd, spec_tokens_for_usd(usd, price)) == price,
{
    let scaled = usd * TOKEN_SCALE;
    let tokens = spec_tokens_for_usd(usd, price) as int;
    let residue = scaled % (price as int);
    vstd::arithmetic::div_mod::lemma_fundamental_div_mod(scaled as int, price as int);
    assert(scaled == (price as int) * tokens + residue);
    vstd::arithmetic::div_mod::lemma_fundamental_div_mod_converse(
        scaled as int,
        tokens,
        price as int,
        residue,
    );
}

/// Single-tier identity: a purchase that fits inside the tier it starts in
/// settles in one step, consumes the whole payment, issues exactly the
/// one-price conversion, and realizes the tier price as its blended price,
/// under the same rounding-residue condition as
/// `lemma_single_tier_blended_price`.
pub proof fn lemma_single_tier_purchase(usd: u128, sold: u128, p: PricingConfig)
    requires
        p.wf(),
        usd > 0,
        spec_entry_price(sold, p) > 0,
        usd <= spec_usd_to_fill(
            spec_tokens_left_in_tier(sold, p.tokens_per_tier),
            spec_entry_price(sold, p),
        ),
        spec_tokens_for_usd(usd, spec_entry_price(sold, p)) > 0,
        (usd * TOKEN_SCALE) % (spec_entry_price(sold, p) as int) < spec_tokens_for_usd(
            usd,
            spec_entry_price(sold, p),
        ),
    ensures
        spec_multi_tier_purchase(usd, sold, p).0 == spec_tokens_for_usd(
            usd,
            spec_entry_price(sold, p),
        ),
        spec_multi_tier_purchase(usd, sold, p).1 == usd,
        spec_multi_tier_purchase(usd, sold, p).2 == spec_tier_index(sold, p.tokens_per_tier),
        spec_multi_tier_purchase(usd, sold, p).4 == spec_entry_price(sold, p),
{
    let price = spec_entry_price(sold, p);
    let start = spec_tier_index(sold, p.tokens_per_tier);
    let st0 = SolveState { remaining: usd, tokens: 0, spent: 0, sold, end_tier: start };
    let bought = spec_tokens_for_usd(usd, price);
    let sold1 = spec_clamped_add(sold, bought);
    let st1 = SolveState {
        remaining: 0,
        tokens: bought,
        spent: usd,
        sold: sold1,
        end_tier: spec_tier_index(sold1, p.tokens_per_tier),
    };
    assert(spec_spend_in_tier(st0, p) == usd);
    assert(spec_solve_loop(st0, p, MAX_TIER_ITERATIONS as nat) == spec_solve_loop(
        st1,
        p,
        (MAX_TIER_ITERATIONS - 1) as nat,
    ));
    assert(spec_solve_loop(st1, p, (MAX_TIER_ITERATIONS - 1) as nat) == st1);
    lemma_single_tier_blended_price(usd, price);
}

/// The solver never consumes more than the payment offered.
pub proof fn lemma_purchase_never_overspends(usd: u128, sold: u128, p: PricingConfig)
    ensures
        spec_multi_tier_purchase(usd, sold, p).1 <= usd,
{
    if !(usd == 0 || p.tokens_per_tier == 0 || p.base_price_usd == 0) {
        let start_tier = spec_tier_index(sold, p.tokens_per_tier);
        lemma_solver_conserves_payment(
            SolveState { remaining: usd, tokens: 0, spent: 0, sold, end_tier: start_tier },
            p,
            MAX_TIER_ITERATIONS as nat,
        );
    }
}

} // verus!

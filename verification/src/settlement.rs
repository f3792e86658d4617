//! Settlement orchestration.
//!
//! A settlement is computed in two phases so that the host shell can keep
//! the documented order of effects: `prepare_settlement` performs every check
//! up to and including the daily cap (the authenticity outcome is an input,
//! so a rejected payment instrument fails before any balance is even
//! queried), and `commit_settlement` performs the solvency check against the
//! live balance and produces the new state and the outbound transfer
//! instructions. Nothing is persisted by this crate: the shell saves the
//! returned records only when the whole sequence succeeded, which keeps the
//! all-or-nothing commit requirement.

use vstd::prelude::*;

use crate::bridge::ValidationOutcome;
use crate::daily::{
    roll_daily_stats, spec_daily_token_limit, spec_day_of, spec_rolled, spec_tokens_available,
};
use crate::error::ContractError;
use crate::msg::InstantiateMsg;
use crate::purchase::{calculate_multi_tier_purchase, spec_multi_tier_purchase};
use crate::state::{BP_DENOM, Config, DailyStats, PricingConfig};

verus! {

/// Default daily selling limit: 100 bp = 1%.
pub const DEFAULT_DAILY_LIMIT_BP: u128 = 100;

/// Default base price: 25000 micro-USD = $0.025 per token.
pub const DEFAULT_BASE_PRICE_USD: u128 = 25000;

/// Default tier size: 3 million tokens in 9-decimal units.
pub const DEFAULT_TOKENS_PER_TIER: u128 = 3_000_000_000_000_000;

/// Default tier multiplier: 1300 parts per thousand = x1.3.
pub const DEFAULT_TIER_MULTIPLIER: u128 = 1300;

/// The three records as initialization creates them.
#[derive(Clone, Debug, PartialEq, Eq)]
pub struct InitialState {
    pub config: Config,
    pub pricing: PricingConfig,
    pub stats: DailyStats,
}

/// A settlement that has passed every check except solvency.
#[derive(Clone, Copy, Debug, PartialEq, Eq)]
pub struct PendingSettlement {
    /// Daily stats after the lazy rollover, before this settlement's own
    /// amounts are added.
    pub stats: DailyStats,
    /// Token units to issue.
    pub tokens_to_buy: u128,
    /// Micro-USD consumed; equal to the payment amount by construction.
    pub usd_to_spend: u128,
    /// Tier the purchase starts in.
    pub start_tier: u32,
    /// Tier the purchase ends in.
    pub end_tier: u32,
    /// Realized blended price in micro-USD per token.
    pub average_price: u128,
    /// Tokens that were still issuable today before this settlement.
    pub tokens_available_today: u128,
}

/// An outbound transfer of the native token.
#[derive(Clone, Debug, PartialEq, Eq)]
pub struct NativeTransfer {
    pub to_address: String,
    pub denom: String,
    pub amount: u128,
}

/// An instruction to forward received payment tokens onward.
#[derive(Clone, Debug, PartialEq, Eq)]
pub struct Cw20Transfer {
    pub cw20_contract: String,
    pub recipient: String,
    pub amount: u128,
}

/// Everything a committed settlement changes or emits.
#[derive(Clone, Debug, PartialEq, Eq)]
pub struct Settlement {
    /// Sale configuration with the cumulative sold total advanced.
    pub config: Config,
    /// Daily stats with this settlement's amounts added.
    pub stats: DailyStats,
    /// Native tokens owed to the buyer.
    pub send_native: NativeTransfer,
    /// Payment forwarded to the administrator; `None` when no administrator
    /// is configured, in which case the payment intentionally remains with
    /// the contract.
    pub forward_payment: Option<Cw20Transfer>,
}

/// Establish the three records, applying the documented defaults and
/// validating the daily-limit fraction.
pub fn init_sale(msg: InstantiateMsg, native_denom: String, block_time_seconds: u64) -> (result:
    Result<InitialState, ContractError>)
    ensures
        result is Ok <==> 0 < msg.daily_limit_bp.unwrap_or(DEFAULT_DAILY_LIMIT_BP) <= BP_DENOM,
        result is Err ==> result == Err::<InitialState, ContractError>(
            ContractError::InvalidBasisPoints {
                value: msg.daily_limit_bp.unwrap_or(DEFAULT_DAILY_LIMIT_BP),
            },
        ),
        result matches Ok(init) ==> {
            &&& init.config.admin@ == (match msg.admin {
                Option::Some(addr) => if addr@.len() > 0 {
                    addr@
                } else {
                    Seq::<char>::empty()
                },
                Option::None => Seq::<char>::empty(),
            })
            &&& init.config.native_denom == native_denom
            &&& init.config.daily_limit_bp == msg.daily_limit_bp.unwrap_or(DEFAULT_DAILY_LIMIT_BP)
            &&& init.config.is_paused == false
            &&& init.config.total_supply == msg.total_supply.unwrap_or(0)
            &&& init.config.total_tokens_sold == 0
            &&& init.config.wf()
            &&& init.pricing == (PricingConfig {
                base_price_usd: msg.base_price_usd.unwrap_or(DEFAULT_BASE_PRICE_USD),
                tokens_per_tier: msg.tokens_per_tier.unwrap_or(DEFAULT_TOKENS_PER_TIER),
                tier_multiplier: msg.tier_multiplier.unwrap_or(DEFAULT_TIER_MULTIPLIER),
            })
            &&& init.stats == (DailyStats {
                current_day: spec_day_of(block_time_seconds),
                usd_received_today: 0,
                tokens_sold_today: 0,
            })
        },
{
    let daily_limit_bp = match msg.daily_limit_bp {
        Option::Some(bp) => bp,
        Option::None => DEFAULT_DAILY_LIMIT_BP,
    };
    if daily_limit_bp == 0 || daily_limit_bp > BP_DENOM {
        return Err(ContractError::InvalidBasisPoints { value: daily_limit_bp });
    }

    let admin = match msg.admin {
        Option::Some(addr) => if addr.as_str().is_empty() {
            String::new()
        } else {
            addr
        },
        Option::None => String::new(),
    };

    let config = Config {
        admin,
        native_denom,
        daily_limit_bp,
        is_paused: false,
        total_supply: match msg.total_supply {
            Option::Some(supply) => supply,
            Option::None => 0,
        },
        total_tokens_sold: 0,
    };

    let pricing = PricingConfig {
        base_price_usd: match msg.base_price_usd {
            Option::Some(price) => price,
            Option::None => DEFAULT_BASE_PRICE_USD,
        },
        tokens_per_tier: match msg.tokens_per_tier {
            Option::Some(tokens) => tokens,
            Option::None => DEFAULT_TOKENS_PER_TIER,
        },
        tier_multiplier: match msg.tier_multiplier {
            Option::Some(multiplier) => multiplier,
            Option::None => DEFAULT_TIER_MULTIPLIER,
        },
    };

    let stats = DailyStats {
        current_day: block_time_seconds / crate::daily::SECONDS_PER_DAY,
        usd_received_today: 0,
        tokens_sold_today: 0,
    };

    Ok(InitialState { config, pricing, stats })
}

/// Validate a payment and solve its issuance: pause flag, authenticity
/// outcome, non-zero amount, full consumption by the solver, non-zero
/// issuance, and the daily cap, in that order. Conservation holds by
/// construction: a prepared settlement consumes exactly the payment amount,
/// and issues exactly what the tier-by-tier solver computes.
pub fn prepare_settlement(
    config: &Config,
    pricing: &PricingConfig,
    stats: &DailyStats,
    block_time_seconds: u64,
    payment_token: &str,
    payment_amount: u128,
    validation: &ValidationOutcome,
) -> (result: Result<PendingSettlement, ContractError>)
    ensures
        config.is_paused ==> result == Err::<PendingSettlement, ContractError>(
            ContractError::ContractPaused,
        ),
        !config.is_paused ==> (match *validation {
            ValidationOutcome::Unavailable { reason } => result == Err::<
                PendingSettlement,
                ContractError,
            >(ContractError::HostError { reason }),
            ValidationOutcome::Rejected => result matches Err(ContractError::TokenNotAccepted {
                token,
            }) && token@ == payment_token@,
            ValidationOutcome::Approved => ({
                let rolled = spec_rolled(*stats, spec_day_of(block_time_seconds));
                let solved = spec_multi_tier_purchase(
                    payment_amount,
                    config.total_tokens_sold,
                    *pricing,
                );
                if payment_amount == 0 {
                    result == Err::<PendingSettlement, ContractError>(ContractError::ZeroAmount)
                } else if solved.1 != payment_amount {
                    result == Err::<PendingSettlement, ContractError>(
                        ContractError::PaymentMismatch {
                            requested: payment_amount,
                            consumed: solved.1,
                        },
                    )
                } else if solved.0 == 0 {
                    result == Err::<PendingSettlement, ContractError>(ContractError::ZeroAmount)
                } else {
                    match spec_daily_token_limit(*config) {
                        Option::None => result == Err::<PendingSettlement, ContractError>(
                            ContractError::InvalidBasisPoints { value: config.daily_limit_bp },
                        ),
                        Option::Some(limit) => ({
                            let available = spec_tokens_available(limit, rolled.tokens_sold_today);
                            if solved.0 > available {
                                result == Err::<PendingSettlement, ContractError>(
                                    ContractError::DailyLimitExceeded {
                                        available,
                                        requested: solved.0,
                                    },
                                )
                            } else {
                                result == Ok::<PendingSettlement, ContractError>(
                                    PendingSettlement {
                                        stats: rolled,
                                        tokens_to_buy: solved.0,
                                        usd_to_spend: payment_amount,
                                        start_tier: solved.2,
                                        end_tier: solved.3,
                                        average_price: solved.4,
                                        tokens_available_today: available,
                                    },
                                )
                            }
                        }),
                    }
                }
            }),
        }),
{
    if config.is_paused {
        return Err(ContractError::ContractPaused);
    }

    match validation {
        ValidationOutcome::Unavailable { reason } => {
            return Err(ContractError::HostError { reason: reason.clone() });
        },
        ValidationOutcome::Rejected => {
            return Err(ContractError::TokenNotAccepted { token: payment_token.to_owned() });
        },
        ValidationOutcome::Approved => {},
    }

    if payment_amount == 0 {
        return Err(ContractError::ZeroAmount);
    }

    let rolled = roll_daily_stats(stats, block_time_seconds);

    let (tokens_to_buy, usd_to_spend, start_tier, end_tier, average_price) =
        calculate_multi_tier_purchase(payment_amount, config.total_tokens_sold, pricing);

    if usd_to_spend != payment_amount {
        return Err(ContractError::PaymentMismatch {
            requested: payment_amount,
            consumed: usd_to_spend,
        });
    }

    if tokens_to_buy == 0 {
        return Err(ContractError::ZeroAmount);
    }

    let daily_token_limit = match config.total_supply.checked_mul(config.daily_limit_bp) {
        Some(raw) => raw / BP_DENOM,
        None => {
            return Err(ContractError::InvalidBasisPoints { value: config.daily_limit_bp });
        },
    };

    let tokens_available_today = if rolled.tokens_sold_today > daily_token_limit {
        0
    } else {
        daily_token_limit - rolled.tokens_sold_today
    };

    if tokens_to_buy > tokens_available_today {
        return Err(ContractError::DailyLimitExceeded {
            available: tokens_available_today,
            requested: tokens_to_buy,
        });
    }

    Ok(PendingSettlement {
        stats: rolled,
        tokens_to_buy,
        usd_to_spend,
        start_tier,
        end_tier,
        average_price,
        tokens_available_today,
    })
}

/// Check solvency against the live balance and commit: advance the
/// cumulative sold total, add this settlement's amounts to the daily
/// counters, and emit the two transfer instructions. The payment is
/// forwarded to the administrator only when one is configured.
pub fn commit_settlement(
    config: &Config,
    pending: &PendingSettlement,
    contract_balance: u128,
    buyer: &str,
    payment_token: &str,
) -> (result: Result<Settlement, ContractError>)
    ensures
        pending.tokens_to_buy > contract_balance ==> result == Err::<Settlement, ContractError>(
            ContractError::InsufficientBalance {
                available: contract_balance,
                needed: pending.tokens_to_buy,
            },
        ),
        pending.tokens_to_buy <= contract_balance && (pending.stats.usd_received_today
            + pending.usd_to_spend > u128::MAX || pending.stats.tokens_sold_today
            + pending.tokens_to_buy > u128::MAX || config.total_tokens_sold + pending.tokens_to_buy
            > u128::MAX) ==> result == Err::<Settlement, ContractError>(ContractError::Overflow),
        pending.tokens_to_buy <= contract_balance && pending.stats.usd_received_today
            + pending.usd_to_spend <= u128::MAX && pending.stats.tokens_sold_today
            + pending.tokens_to_buy <= u128::MAX && config.total_tokens_sold + pending.tokens_to_buy
            <= u128::MAX ==> (result matches Ok(settled) && {
            &&& settled.config == (Config {
                admin: config.admin,
                native_denom: config.native_denom,
                daily_limit_bp: config.daily_limit_bp,
                is_paused: config.is_paused,
                total_supply: config.total_supply,
                total_tokens_sold: (config.total_tokens_sold + pending.tokens_to_buy) as u128,
            })
            &&& settled.stats == (DailyStats {
                current_day: pending.stats.current_day,
                usd_received_today: (pending.stats.usd_received_today + pending.usd_to_spend)
                    as u128,
                tokens_sold_today: (pending.stats.tokens_sold_today + pending.tokens_to_buy)
                    as u128,
            })
            &&& settled.send_native.to_address@ == buyer@
            &&& settled.send_native.denom == config.native_denom
            &&& settled.send_native.amount == pending.tokens_to_buy
            &&& config.admin@.len() > 0 ==> (settled.forward_payment matches Some(forward)
                && forward.cw20_contract@ == payment_token@ && forward.recipient == config.admin
                && forward.amount == pending.usd_to_spend)
            &&& config.admin@.len() == 0 ==> settled.forward_payment is None
        }),
{
    if pending.tokens_to_buy > contract_balance {
        return Err(ContractError::InsufficientBalance {
            available: contract_balance,
            needed: pending.tokens_to_buy,
        });
    }

    let usd_received_today = match pending.stats.usd_received_today.checked_add(
        pending.usd_to_spend,
    ) {
        Some(sum) => sum,
        None => {
            return Err(ContractError::Overflow);
        },
    };
    let tokens_sold_today = match pending.stats.tokens_sold_today.checked_add(
        pending.tokens_to_buy,
    ) {
        Some(sum) => sum,
        None => {
            return Err(ContractError::Overflow);
        },
    };
    let total_tokens_sold = match config.total_tokens_sold.checked_add(pending.tokens_to_buy) {
        Some(sum) => sum,
        None => {
            return Err(ContractError::Overflow);
        },
    };

    let new_config = Config {
        admin: config.admin.clone(),
        native_denom: config.native_denom.clone(),
        daily_limit_bp: config.daily_limit_bp,
        is_paused: config.is_paused,
        total_supply: config.total_supply,
        total_tokens_sold,
    };

    let stats = DailyStats {
        current_day: pending.stats.current_day,
        usd_received_today,
        tokens_sold_today,
    };

    let send_native = NativeTransfer {
        to_address: buyer.to_owned(),
        denom: config.native_denom.clone(),
        amount: pending.tokens_to_buy,
    };

    let forward_payment = if config.admin.as_str().is_empty() {
        None
    } else {
        Some(
            Cw20Transfer {
                cw20_contract: payment_token.to_owned(),
                recipient: config.admin.clone(),
                amount: pending.usd_to_spend,
            },
        )
    };

    Ok(Settlement { config: new_config, stats, send_native, forward_payment })
}

} // verus!

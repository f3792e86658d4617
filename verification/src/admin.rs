//! Administrator-gated operations.
//!
//! Every operation here first checks that an administrator is configured and
//! that the caller is that administrator; with no administrator configured
//! nothing is authorized. Each returns the mutated record or the transfer
//! instruction; the host shell persists or emits it.

use vstd::prelude::*;

use crate::bridge::ValidationOutcome;
use crate::error::ContractError;
use crate::settlement::{DEFAULT_DAILY_LIMIT_BP, NativeTransfer};
use crate::state::{BP_DENOM, Config, PricingConfig};

verus! {

/// An administrator is configured and the caller is that administrator.
pub open spec fn spec_is_admin(config: Config, sender: Seq<char>) -> bool {
    config.admin@.len() > 0 && sender == config.admin@
}

/// Whether `sender` holds administrative authority over `config`.
pub fn is_admin(config: &Config, sender: &String) -> (authorized: bool)
    ensures
        authorized == spec_is_admin(*config, sender@),
{
    !config.admin.as_str().is_empty() && *sender == config.admin
}

/// A copy of the configuration record (its strings cloned, not shared).
fn copy_config(config: &Config) -> (copied: Config)
    ensures
        copied == *config,
{
    Config {
        admin: config.admin.clone(),
        native_denom: config.native_denom.clone(),
        daily_limit_bp: config.daily_limit_bp,
        is_paused: config.is_paused,
        total_supply: config.total_supply,
        total_tokens_sold: config.total_tokens_sold,
    }
}

/// Pause the sale.
pub fn pause_contract(config: &Config, sender: &String) -> (result: Result<Config, ContractError>)
    ensures
        !spec_is_admin(*config, sender@) ==> result == Err::<Config, ContractError>(
            ContractError::Unauthorized,
        ),
        spec_is_admin(*config, sender@) ==> result == Ok::<Config, ContractError>(
            Config {
                admin: config.admin,
                native_denom: config.native_denom,
                daily_limit_bp: config.daily_limit_bp,
                is_paused: true,
                total_supply: config.total_supply,
                total_tokens_sold: config.total_tokens_sold,
            },
        ),
{
    if !is_admin(config, sender) {
        return Err(ContractError::Unauthorized);
    }
    let mut updated = copy_config(config);
    updated.is_paused = true;
    Ok(updated)
}

/// Resume a paused sale.
pub fn resume_contract(config: &Config, sender: &String) -> (result: Result<Config, ContractError>)
    ensures
        !spec_is_admin(*config, sender@) ==> result == Err::<Config, ContractError>(
            ContractError::Unauthorized,
        ),
        spec_is_admin(*config, sender@) ==> result == Ok::<Config, ContractError>(
            Config {
                admin: config.admin,
                native_denom: config.native_denom,
                daily_limit_bp: config.daily_limit_bp,
                is_paused: false,
                total_supply: config.total_supply,
                total_tokens_sold: config.total_tokens_sold,
            },
        ),
{
    if !is_admin(config, sender) {
        return Err(ContractError::Unauthorized);
    }
    let mut updated = copy_config(config);
    updated.is_paused = false;
    Ok(updated)
}

/// Change the daily-limit fraction; an absent value restores the default.
pub fn update_daily_limit(config: &Config, sender: &String, daily_limit_bp: Option<u128>) -> (
    result: Result<Config, ContractError>)
    ensures
        !spec_is_admin(*config, sender@) ==> result == Err::<Config, ContractError>(
            ContractError::Unauthorized,
        ),
        spec_is_admin(*config, sender@) ==> ({
            let bp = daily_limit_bp.unwrap_or(DEFAULT_DAILY_LIMIT_BP);
            if bp == 0 || bp > BP_DENOM {
                result == Err::<Config, ContractError>(
                    ContractError::InvalidBasisPoints { value: bp },
                )
            } else {
                result == Ok::<Config, ContractError>(
                    Config {
                        admin: config.admin,
                        native_denom: config.native_denom,
                        daily_limit_bp: bp,
                        is_paused: config.is_paused,
                        total_supply: config.total_supply,
                        total_tokens_sold: config.total_tokens_sold,
                    },
                )
            }
        }),
{
    if !is_admin(config, sender) {
        return Err(ContractError::Unauthorized);
    }
    let bp = match daily_limit_bp {
        Option::Some(value) => value,
        Option::None => DEFAULT_DAILY_LIMIT_BP,
    };
    if bp == 0 || bp > BP_DENOM {
        return Err(ContractError::InvalidBasisPoints { value: bp });
    }
    let mut updated = copy_config(config);
    updated.daily_limit_bp = bp;
    Ok(updated)
}

/// Withdraw a positive amount of the native token to a recipient.
pub fn withdraw_native_tokens(
    config: &Config,
    sender: &String,
    amount: u128,
    recipient: String,
) -> (result: Result<NativeTransfer, ContractError>)
    ensures
        !spec_is_admin(*config, sender@) ==> result == Err::<NativeTransfer, ContractError>(
            ContractError::Unauthorized,
        ),
        spec_is_admin(*config, sender@) && amount == 0 ==> result == Err::<
            NativeTransfer,
            ContractError,
        >(ContractError::ZeroAmount),
        spec_is_admin(*config, sender@) && amount > 0 ==> result == Ok::<
            NativeTransfer,
            ContractError,
        >(NativeTransfer { to_address: recipient, denom: config.native_denom, amount }),
{
    if !is_admin(config, sender) {
        return Err(ContractError::Unauthorized);
    }
    if amount == 0 {
        return Err(ContractError::ZeroAmount);
    }
    Ok(NativeTransfer { to_address: recipient, denom: config.native_denom.clone(), amount })
}

/// Withdraw the contract's whole native balance; with nothing to withdraw
/// the operation succeeds and transfers nothing.
pub fn emergency_withdraw(
    config: &Config,
    sender: &String,
    contract_balance: u128,
    recipient: String,
) -> (result: Result<Option<NativeTransfer>, ContractError>)
    ensures
        !spec_is_admin(*config, sender@) ==> result == Err::<
            Option<NativeTransfer>,
            ContractError,
        >(ContractError::Unauthorized),
        spec_is_admin(*config, sender@) && contract_balance == 0 ==> result == Ok::<
            Option<NativeTransfer>,
            ContractError,
        >(None),
        spec_is_admin(*config, sender@) && contract_balance > 0 ==> result == Ok::<
            Option<NativeTransfer>,
            ContractError,
        >(
            Some(
                NativeTransfer {
                    to_address: recipient,
                    denom: config.native_denom,
                    amount: contract_balance,
                },
            ),
        ),
{
    if !is_admin(config, sender) {
        return Err(ContractError::Unauthorized);
    }
    if contract_balance == 0 {
        return Ok(None);
    }
    Ok(
        Some(
            NativeTransfer {
                to_address: recipient,
                denom: config.native_denom.clone(),
                amount: contract_balance,
            },
        ),
    )
}

/// Update any subset of the pricing parameters; each given value must be
/// strictly positive.
pub fn update_pricing_config(
    config: &Config,
    pricing: &PricingConfig,
    sender: &String,
    base_price_usd: Option<u128>,
    tokens_per_tier: Option<u128>,
    tier_multiplier: Option<u128>,
) -> (result: Result<PricingConfig, ContractError>)
    ensures
        !spec_is_admin(*config, sender@) ==> result == Err::<PricingConfig, ContractError>(
            ContractError::Unauthorized,
        ),
        spec_is_admin(*config, sender@) ==> ({
            if base_price_usd == Some(0u128) || tokens_per_tier == Some(0u128) {
                result == Err::<PricingConfig, ContractError>(ContractError::ZeroAmount)
            } else if tier_multiplier == Some(0u128) {
                result matches Err(ContractError::InvalidExchangeRate { token }) && token@
                    == "tier_multiplier must be > 0 (1.0x)"@
            } else {
                result == Ok::<PricingConfig, ContractError>(
                    PricingConfig {
                        base_price_usd: base_price_usd.unwrap_or(pricing.base_price_usd),
                        tokens_per_tier: tokens_per_tier.unwrap_or(pricing.tokens_per_tier),
                        tier_multiplier: tier_multiplier.unwrap_or(pricing.tier_multiplier),
                    },
                )
            }
        }),
{
    if !is_admin(config, sender) {
        return Err(ContractError::Unauthorized);
    }

    let mut updated = PricingConfig {
        base_price_usd: pricing.base_price_usd,
        tokens_per_tier: pricing.tokens_per_tier,
        tier_multiplier: pricing.tier_multiplier,
    };

    match base_price_usd {
        Option::Some(price) => {
            if price == 0 {
                return Err(ContractError::ZeroAmount);
            }
            updated.base_price_usd = price;
        },
        Option::None => {},
    }

    match tokens_per_tier {
        Option::Some(tokens) => {
            if tokens == 0 {
                return Err(ContractError::ZeroAmount);
            }
            updated.tokens_per_tier = tokens;
        },
        Option::None => {},
    }

    match tier_multiplier {
        Option::Some(multiplier) => {
            if multiplier == 0 {
                return Err(ContractError::InvalidExchangeRate {
                    token: String::from_str("tier_multiplier must be > 0 (1.0x)"),
                });
            }
            updated.tier_multiplier = multiplier;
        },
        Option::None => {},
    }

    Ok(updated)
}

/// Register a payment token after checking its exchange rate and its
/// authenticity. The registry itself has been retired, so a successful call
/// changes no state; the validation is the point.
pub fn add_payment_token(
    config: &Config,
    sender: &String,
    denom: String,
    usd_rate: u128,
    validation: &ValidationOutcome,
) -> (result: Result<(), ContractError>)
    ensures
        !spec_is_admin(*config, sender@) ==> result == Err::<(), ContractError>(
            ContractError::Unauthorized,
        ),
        spec_is_admin(*config, sender@) ==> ({
            if usd_rate == 0 {
                result == Err::<(), ContractError>(ContractError::InvalidExchangeRate {
                    token: denom,
                })
            } else {
                match *validation {
                    ValidationOutcome::Unavailable { reason } => result == Err::<
                        (),
                        ContractError,
                    >(ContractError::HostError { reason }),
                    ValidationOutcome::Rejected => result == Err::<(), ContractError>(
                        ContractError::TokenNotAccepted { token: denom },
                    ),
                    ValidationOutcome::Approved => result is Ok,
                }
            }
        }),
{
    if !is_admin(config, sender) {
        return Err(ContractError::Unauthorized);
    }
    if usd_rate == 0 {
        return Err(ContractError::InvalidExchangeRate { token: denom });
    }
    match validation {
        ValidationOutcome::Unavailable { reason } => Err(ContractError::HostError {
            reason: reason.clone(),
        }),
        ValidationOutcome::Rejected => Err(ContractError::TokenNotAccepted { token: denom }),
        ValidationOutcome::Approved => Ok(()),
    }
}

/// Remove a payment token. The registry itself has been retired, so beyond
/// the authorization check this changes no state.
pub fn remove_payment_token(config: &Config, sender: &String, denom: String) -> (result: Result<
    (),
    ContractError,
>)
    ensures
        !spec_is_admin(*config, sender@) ==> result == Err::<(), ContractError>(
            ContractError::Unauthorized,
        ),
        spec_is_admin(*config, sender@) ==> result is Ok,
{
    if !is_admin(config, sender) {
        return Err(ContractError::Unauthorized);
    }
    let _ = denom;
    Ok(())
}

} // verus!

//! End-to-end tests of initialization, administration, and settlement.

use liquidity_pool::ContractError;
use liquidity_pool::admin::{
    add_payment_token, emergency_withdraw, pause_contract, remove_payment_token, resume_contract,
    update_daily_limit, update_pricing_config, withdraw_native_tokens,
};
use liquidity_pool::bridge::ValidationOutcome;
use liquidity_pool::msg::InstantiateMsg;
use liquidity_pool::queries::{query_config, query_daily_stats};
use liquidity_pool::settlement::{
    InitialState, PendingSettlement, commit_settlement, init_sale, prepare_settlement,
};
use liquidity_pool::state::DailyStats;

const BLOCK_TIME: u64 = 1_571_797_419;

fn default_msg() -> InstantiateMsg {
    InstantiateMsg {
        admin: Some("admin".to_string()),
        daily_limit_bp: Some(100),
        base_price_usd: Some(25000),
        tokens_per_tier: Some(3_000_000_000_000_000),
        tier_multiplier: Some(1300),
        total_supply: Some(120_000_000_000_000_000),
    }
}

fn init_default() -> InitialState {
    init_sale(default_msg(), "ngonka".to_string(), BLOCK_TIME).unwrap()
}

#[test]
fn proper_instantiation() {
    let msg = InstantiateMsg {
        admin: Some("admin".to_string()),
        daily_limit_bp: Some(100),
        base_price_usd: Some(25000),
        tokens_per_tier: Some(3_000_000_000_000_000),
        tier_multiplier: Some(1300),
        total_supply: Some(120_000_000_000_000_000),
    };

    let init = init_sale(msg, "ngonka".to_string(), BLOCK_TIME).unwrap();

    assert_eq!(init.config.admin, "admin");
    assert_eq!(init.config.native_denom, "ngonka");
    assert_eq!(init.config.daily_limit_bp, 100);
    assert!(!init.config.is_paused);
    assert_eq!(init.config.total_supply, 120_000_000_000_000_000);
    assert_eq!(init.config.total_tokens_sold, 0);
    assert_eq!(init.pricing.base_price_usd, 25000);
    assert_eq!(init.pricing.tokens_per_tier, 3_000_000_000_000_000);
    assert_eq!(init.pricing.tier_multiplier, 1300);
    assert_eq!(init.stats.current_day, BLOCK_TIME / 86400);
    assert_eq!(init.stats.usd_received_today, 0);
    assert_eq!(init.stats.tokens_sold_today, 0);
}

#[test]
fn test_pause_resume() {
    let init = init_default();
    let admin = "admin".to_string();

    let paused = pause_contract(&init.config, &admin).unwrap();
    assert!(query_config(&paused).is_paused);

    let resumed = resume_contract(&paused, &admin).unwrap();
    assert!(!query_config(&resumed).is_paused);
}

#[test]
fn test_usd_based_tier_calculation() {
    let msg = InstantiateMsg {
        admin: Some("admin".to_string()),
        daily_limit_bp: Some(1000),
        base_price_usd: Some(25000),
        tokens_per_tier: Some(3_000_000_000_000_000),
        tier_multiplier: Some(1300),
        total_supply: Some(120_000_000_000_000_000),
    };
    let init = init_sale(msg, "ngonka".to_string(), BLOCK_TIME).unwrap();

    let response =
        liquidity_pool::queries::query_calculate_tokens(&init.config, &init.pricing, 100_000_000);

    assert_eq!(response.current_tier, 0);
    assert_eq!(response.current_price, 25000);
    // $100 in micro-USD at $0.025 per token: 100_000_000 * 10^9 / 25000,
    // in 9-decimal token units.
    assert_eq!(response.tokens, 4_000_000_000_000);
}

#[test]
fn instantiation_rejects_zero_basis_points() {
    let mut msg = default_msg();
    msg.daily_limit_bp = Some(0);
    let result = init_sale(msg, "ngonka".to_string(), BLOCK_TIME);
    assert!(matches!(
        result,
        Err(ContractError::InvalidBasisPoints { value: 0 })
    ));
}

#[test]
fn instantiation_rejects_excessive_basis_points() {
    let mut msg = default_msg();
    msg.daily_limit_bp = Some(10001);
    let result = init_sale(msg, "ngonka".to_string(), BLOCK_TIME);
    assert!(matches!(
        result,
        Err(ContractError::InvalidBasisPoints { value: 10001 })
    ));
}

#[test]
fn instantiation_defaults() {
    let msg = InstantiateMsg {
        admin: None,
        daily_limit_bp: None,
        base_price_usd: None,
        tokens_per_tier: None,
        tier_multiplier: None,
        total_supply: None,
    };
    let init = init_sale(msg, "ngonka".to_string(), BLOCK_TIME).unwrap();
    assert_eq!(init.config.admin, "");
    assert_eq!(init.config.daily_limit_bp, 100);
    assert_eq!(init.config.total_supply, 0);
    assert_eq!(init.pricing.base_price_usd, 25000);
    assert_eq!(init.pricing.tokens_per_tier, 3_000_000_000_000_000);
    assert_eq!(init.pricing.tier_multiplier, 1300);
}

#[test]
fn settlement_within_tier_commits() {
    let init = init_default();

    let pending = prepare_settlement(
        &init.config,
        &init.pricing,
        &init.stats,
        BLOCK_TIME,
        "wasm1cw20",
        100_000_000,
        &ValidationOutcome::Approved,
    )
    .unwrap();

    assert_eq!(pending.tokens_to_buy, 4_000_000_000_000);
    assert_eq!(pending.usd_to_spend, 100_000_000);
    assert_eq!(pending.start_tier, 0);
    assert_eq!(pending.end_tier, 0);
    assert_eq!(pending.average_price, 25000);
    assert_eq!(pending.tokens_available_today, 1_200_000_000_000_000);

    let settled = commit_settlement(
        &init.config,
        &pending,
        10_000_000_000_000,
        "buyer",
        "wasm1cw20",
    )
    .unwrap();

    assert_eq!(settled.config.total_tokens_sold, 4_000_000_000_000);
    assert_eq!(settled.stats.usd_received_today, 100_000_000);
    assert_eq!(settled.stats.tokens_sold_today, 4_000_000_000_000);
    assert_eq!(settled.send_native.to_address, "buyer");
    assert_eq!(settled.send_native.denom, "ngonka");
    assert_eq!(settled.send_native.amount, 4_000_000_000_000);
    let forward = settled.forward_payment.unwrap();
    assert_eq!(forward.cw20_contract, "wasm1cw20");
    assert_eq!(forward.recipient, "admin");
    assert_eq!(forward.amount, 100_000_000);
}

#[test]
fn settlement_without_admin_keeps_payment() {
    let mut msg = default_msg();
    msg.admin = None;
    let init = init_sale(msg, "ngonka".to_string(), BLOCK_TIME).unwrap();

    let pending = prepare_settlement(
        &init.config,
        &init.pricing,
        &init.stats,
        BLOCK_TIME,
        "wasm1cw20",
        100_000_000,
        &ValidationOutcome::Approved,
    )
    .unwrap();
    let settled = commit_settlement(
        &init.config,
        &pending,
        10_000_000_000_000,
        "buyer",
        "wasm1cw20",
    )
    .unwrap();

    assert!(settled.forward_payment.is_none());
}

#[test]
fn settlement_daily_limit_exceeded() {
    let init = init_default();

    let stats_response = query_daily_stats(&init.config, &init.stats, BLOCK_TIME);
    assert_eq!(stats_response.daily_token_limit, 1_200_000_000_000_000);

    let exhausted = DailyStats {
        current_day: BLOCK_TIME / 86400,
        usd_received_today: 0,
        tokens_sold_today: 1_200_000_000_000_000,
    };
    let result = prepare_settlement(
        &init.config,
        &init.pricing,
        &exhausted,
        BLOCK_TIME,
        "wasm1cw20",
        100_000_000,
        &ValidationOutcome::Approved,
    );

    assert!(matches!(
        result,
        Err(ContractError::DailyLimitExceeded {
            available: 0,
            requested: 4_000_000_000_000,
        })
    ));
}

#[test]
fn settlement_rejected_token_fails_before_anything_else() {
    let init = init_default();

    let result = prepare_settlement(
        &init.config,
        &init.pricing,
        &init.stats,
        BLOCK_TIME,
        "wasm1fake",
        100_000_000,
        &ValidationOutcome::Rejected,
    );

    match result {
        Err(ContractError::TokenNotAccepted { token }) => assert_eq!(token, "wasm1fake"),
        other => panic!("expected TokenNotAccepted, got {:?}", other),
    }
}

#[test]
fn settlement_validation_unavailable_fails() {
    let init = init_default();

    let result = prepare_settlement(
        &init.config,
        &init.pricing,
        &init.stats,
        BLOCK_TIME,
        "wasm1cw20",
        100_000_000,
        &ValidationOutcome::Unavailable {
            reason: "querier system error".to_string(),
        },
    );

    match result {
        Err(ContractError::HostError { reason }) => assert_eq!(reason, "querier system error"),
        other => panic!("expected HostError, got {:?}", other),
    }
}

#[test]
fn settlement_rejected_when_paused() {
    let init = init_default();
    let paused = pause_contract(&init.config, &"admin".to_string()).unwrap();

    let result = prepare_settlement(
        &paused,
        &init.pricing,
        &init.stats,
        BLOCK_TIME,
        "wasm1cw20",
        100_000_000,
        &ValidationOutcome::Approved,
    );

    assert!(matches!(result, Err(ContractError::ContractPaused)));
}

#[test]
fn settlement_rejects_zero_payment() {
    let init = init_default();
    let result = prepare_settlement(
        &init.config,
        &init.pricing,
        &init.stats,
        BLOCK_TIME,
        "wasm1cw20",
        0,
        &ValidationOutcome::Approved,
    );
    assert!(matches!(result, Err(ContractError::ZeroAmount)));
}

#[test]
fn settlement_rejects_dust_that_buys_nothing() {
    // At a price of 10^20 micro-USD per token, 100 micro-USD converts to
    // zero token units: the payment would be consumed but nothing issued,
    // which must not succeed silently.
    let mut msg = default_msg();
    msg.base_price_usd = Some(100_000_000_000_000_000_000);
    let init = init_sale(msg, "ngonka".to_string(), BLOCK_TIME).unwrap();

    let result = prepare_settlement(
        &init.config,
        &init.pricing,
        &init.stats,
        BLOCK_TIME,
        "wasm1cw20",
        100,
        &ValidationOutcome::Approved,
    );

    assert!(matches!(result, Err(ContractError::ZeroAmount)));
}

#[test]
fn settlement_mismatch_on_degenerate_pricing() {
    let mut init = init_default();
    init.pricing.base_price_usd = 0;

    let result = prepare_settlement(
        &init.config,
        &init.pricing,
        &init.stats,
        BLOCK_TIME,
        "wasm1cw20",
        100_000_000,
        &ValidationOutcome::Approved,
    );

    assert!(matches!(
        result,
        Err(ContractError::PaymentMismatch {
            requested: 100_000_000,
            consumed: 0,
        })
    ));
}

#[test]
fn commit_rejects_insufficient_balance() {
    let init = init_default();
    let pending = prepare_settlement(
        &init.config,
        &init.pricing,
        &init.stats,
        BLOCK_TIME,
        "wasm1cw20",
        100_000_000,
        &ValidationOutcome::Approved,
    )
    .unwrap();

    let result = commit_settlement(&init.config, &pending, 1, "buyer", "wasm1cw20");

    assert!(matches!(
        result,
        Err(ContractError::InsufficientBalance {
            available: 1,
            needed: 4_000_000_000_000,
        })
    ));
}

#[test]
fn commit_rejects_overflowing_counters() {
    let init = init_default();
    let pending = PendingSettlement {
        stats: DailyStats {
            current_day: BLOCK_TIME / 86400,
            usd_received_today: u128::MAX,
            tokens_sold_today: 0,
        },
        tokens_to_buy: 4_000_000_000_000,
        usd_to_spend: 100_000_000,
        start_tier: 0,
        end_tier: 0,
        average_price: 25000,
        tokens_available_today: 1_200_000_000_000_000,
    };

    let result = commit_settlement(
        &init.config,
        &pending,
        10_000_000_000_000,
        "buyer",
        "wasm1cw20",
    );

    assert!(matches!(result, Err(ContractError::Overflow)));
}

#[test]
fn daily_stats_rollover_is_idempotent() {
    let init = init_default();
    let stats = DailyStats {
        current_day: BLOCK_TIME / 86400,
        usd_received_today: 5,
        tokens_sold_today: 7,
    };

    let first = query_daily_stats(&init.config, &stats, BLOCK_TIME);
    let second = query_daily_stats(&init.config, &stats, BLOCK_TIME);
    assert_eq!(first, second);
    assert_eq!(first.usd_received_today, 5);
    assert_eq!(first.tokens_sold_today, 7);

    let next_day = query_daily_stats(&init.config, &stats, BLOCK_TIME + 86400);
    assert_eq!(next_day.current_day, BLOCK_TIME / 86400 + 1);
    assert_eq!(next_day.usd_received_today, 0);
    assert_eq!(next_day.tokens_sold_today, 0);
}

#[test]
fn unauthorized_caller_cannot_administer() {
    let init = init_default();
    let mallory = "mallory".to_string();

    assert!(matches!(
        pause_contract(&init.config, &mallory),
        Err(ContractError::Unauthorized)
    ));
    assert!(matches!(
        resume_contract(&init.config, &mallory),
        Err(ContractError::Unauthorized)
    ));
    assert!(matches!(
        update_daily_limit(&init.config, &mallory, Some(500)),
        Err(ContractError::Unauthorized)
    ));
    assert!(matches!(
        withdraw_native_tokens(&init.config, &mallory, 10, "somewhere".to_string()),
        Err(ContractError::Unauthorized)
    ));
}

#[test]
fn no_admin_means_nothing_is_authorized() {
    let mut msg = default_msg();
    msg.admin = None;
    let init = init_sale(msg, "ngonka".to_string(), BLOCK_TIME).unwrap();

    assert!(matches!(
        pause_contract(&init.config, &"".to_string()),
        Err(ContractError::Unauthorized)
    ));
}

#[test]
fn update_daily_limit_validates_and_defaults() {
    let init = init_default();
    let admin = "admin".to_string();

    let updated = update_daily_limit(&init.config, &admin, Some(500)).unwrap();
    assert_eq!(updated.daily_limit_bp, 500);

    let defaulted = update_daily_limit(&init.config, &admin, None).unwrap();
    assert_eq!(defaulted.daily_limit_bp, 100);

    assert!(matches!(
        update_daily_limit(&init.config, &admin, Some(20000)),
        Err(ContractError::InvalidBasisPoints { value: 20000 })
    ));
}

#[test]
fn update_pricing_validates_parameters() {
    let init = init_default();
    let admin = "admin".to_string();

    let updated =
        update_pricing_config(&init.config, &init.pricing, &admin, Some(30000), None, None)
            .unwrap();
    assert_eq!(updated.base_price_usd, 30000);
    assert_eq!(updated.tokens_per_tier, 3_000_000_000_000_000);
    assert_eq!(updated.tier_multiplier, 1300);

    assert!(matches!(
        update_pricing_config(&init.config, &init.pricing, &admin, Some(0), None, None),
        Err(ContractError::ZeroAmount)
    ));
    assert!(matches!(
        update_pricing_config(&init.config, &init.pricing, &admin, None, Some(0), None),
        Err(ContractError::ZeroAmount)
    ));
    match update_pricing_config(&init.config, &init.pricing, &admin, None, None, Some(0)) {
        Err(ContractError::InvalidExchangeRate { token }) => {
            assert_eq!(token, "tier_multiplier must be > 0 (1.0x)")
        }
        other => panic!("expected InvalidExchangeRate, got {:?}", other),
    }
}

#[test]
fn withdrawals_build_transfers() {
    let init = init_default();
    let admin = "admin".to_string();

    assert!(matches!(
        withdraw_native_tokens(&init.config, &admin, 0, "treasury".to_string()),
        Err(ContractError::ZeroAmount)
    ));

    let transfer =
        withdraw_native_tokens(&init.config, &admin, 42, "treasury".to_string()).unwrap();
    assert_eq!(transfer.to_address, "treasury");
    assert_eq!(transfer.denom, "ngonka");
    assert_eq!(transfer.amount, 42);

    let nothing = emergency_withdraw(&init.config, &admin, 0, "treasury".to_string()).unwrap();
    assert!(nothing.is_none());

    let everything = emergency_withdraw(&init.config, &admin, 777, "treasury".to_string())
        .unwrap()
        .unwrap();
    assert_eq!(everything.to_address, "treasury");
    assert_eq!(everything.denom, "ngonka");
    assert_eq!(everything.amount, 777);
}

#[test]
fn payment_token_registry_checks() {
    let init = init_default();
    let admin = "admin".to_string();

    assert!(matches!(
        add_payment_token(
            &init.config,
            &admin,
            "wusdt".to_string(),
            0,
            &ValidationOutcome::Approved
        ),
        Err(ContractError::InvalidExchangeRate { .. })
    ));
    match add_payment_token(
        &init.config,
        &admin,
        "wusdt".to_string(),
        1_000_000,
        &ValidationOutcome::Rejected,
    ) {
        Err(ContractError::TokenNotAccepted { token }) => assert_eq!(token, "wusdt"),
        other => panic!("expected TokenNotAccepted, got {:?}", other),
    }
    assert!(add_payment_token(
        &init.config,
        &admin,
        "wusdt".to_string(),
        1_000_000,
        &ValidationOutcome::Approved
    )
    .is_ok());
    assert!(remove_payment_token(&init.config, &admin, "wusdt".to_string()).is_ok());
}

//! Tiered-pricing token sale engine.
//!
//! The library converts an incoming stable-value payment (micro-USD, 6
//! implied decimals) into an amount of a scarce native token (9 implied
//! decimals), at a price that escalates in discrete tiers as cumulative
//! supply is sold, under a rolling daily issuance cap.
//!
//! Everything here is pure state-transition logic: the host shell loads the
//! three persisted records, performs the chain queries (payment-token
//! authenticity, bank balance, native denomination), calls into this crate,
//! and persists or emits whatever comes back.

pub mod admin;
pub mod bridge;
pub mod daily;
pub mod error;
pub mod msg;
pub mod pricing;
pub mod purchase;
pub mod queries;
pub mod settlement;
pub mod state;

pub use error::ContractError;
pub use state::{Config, DailyStats, PricingConfig};

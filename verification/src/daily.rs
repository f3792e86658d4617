//! The daily issuance window.
//!
//! Rollover is lazy: whenever a settlement (or a read-only query) observes a
//! block time whose accounting day differs from the stored one, both running
//! totals are reset to zero and the new day adopted before the settlement's
//! own amounts are added. This is correct only because settlement is the
//! sole writer of the record.

use vstd::prelude::*;

use crate::state::{BP_DENOM, Config, DailyStats};

verus! {

/// Seconds per accounting day.
pub const SECONDS_PER_DAY: u64 = 86400;

/// The accounting day a block time falls in.
pub open spec fn spec_day_of(block_time_seconds: u64) -> u64 {
    block_time_seconds / SECONDS_PER_DAY
}

/// Daily stats after the lazy rollover: unchanged within the same day, reset
/// to zero totals on a day change.
pub open spec fn spec_rolled(stats: DailyStats, day: u64) -> DailyStats {
    if stats.current_day == day {
        stats
    } else {
        DailyStats { current_day: day, usd_received_today: 0, tokens_sold_today: 0 }
    }
}

/// Today's token issuance cap: floor(total_supply * daily_limit_bp / 10000),
/// or `None` if the multiplication overflows.
pub open spec fn spec_daily_token_limit(config: Config) -> Option<u128> {
    if config.total_supply * config.daily_limit_bp > u128::MAX {
        None
    } else {
        Some(((config.total_supply * config.daily_limit_bp) / BP_DENOM as int) as u128)
    }
}

/// Tokens still issuable today under a cap, clamped at zero when the sold
/// total already exceeds the cap (possible after a parameter change lowered
/// it).
pub open spec fn spec_tokens_available(limit: u128, sold_today: u128) -> u128 {
    if sold_today > limit {
        0
    } else {
        (limit - sold_today) as u128
    }
}

/// Apply the lazy day rollover to the stored stats.
pub fn roll_daily_stats(stats: &DailyStats, block_time_seconds: u64) -> (rolled: DailyStats)
    ensures
        rolled == spec_rolled(*stats, spec_day_of(block_time_seconds)),
{
    let day = block_time_seconds / SECONDS_PER_DAY;
    if stats.current_day == day {
        *stats
    } else {
        DailyStats { current_day: day, usd_received_today: 0, tokens_sold_today: 0 }
    }
}

/// Rolling over is idempotent: within one day, rolling twice without an
/// intervening settlement changes nothing more than rolling once; and a day
/// change resets both counters to zero before any new amounts are added.
pub proof fn lemma_rollover_idempotent(stats: DailyStats, day: u64)
    ensures
        spec_rolled(spec_rolled(stats, day), day) == spec_rolled(stats, day),
        stats.current_day != day ==> spec_rolled(stats, day) == (DailyStats {
            current_day: day,
            usd_received_today: 0,
            tokens_sold_today: 0,
        }),
{
}

} // verus!

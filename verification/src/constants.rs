//! The farm's fixed numbers: balances, ledger windows, prices and feeding limits.

use vstd::prelude::*;

verus! {

/// Balance that a user must keep after paying, in stroops (1.5 native units).
pub const MINIMUM_USER_BALANCE: i128 = 15_000_000;

/// Stroops in one native unit.
pub const STROOPS_PER_UNIT: i128 = 10_000_000;

/// Ledgers closed in twelve hours, at five seconds a ledger.
pub const LEDGER_AMOUNT_IN_12_HOURS: u32 = 8640;

/// Ledgers closed in a day.
pub const LEDGER_AMOUNT_IN_24_HOURS: u32 = 17280;

/// Ledgers closed in three days: the age from which a cow can be sold.
pub const LEDGER_AMOUNT_IN_3_DAYS: u32 = 51840;

/// Ledgers closed in a week.
pub const LEDGER_AMOUNT_IN_1_WEEK: u32 = 120960;

/// Ledgers closed in four weeks.
pub const LEDGER_AMOUNT_IN_1_MONTH: u32 = 483840;

/// The last ledger at which the farm works: four weeks before the last
/// ledger that can be counted, so that every window still fits after it.
pub const LAST_LEDGER: u32 = 4294483455;

/// Price of a Jersey, in native units.
pub const JERSEY_PRICE: i128 = 1000;

/// Price of a Limousin, in native units.
pub const LIMOUSIN_PRICE: i128 = 1000;

/// Price of a Hallikar, in native units.
pub const HALLIKAR_PRICE: i128 = 1000;

/// Price of a Hereford, in native units.
pub const HEREFORD_PRICE: i128 = 5000;

/// Price of a Holstein, in native units.
pub const HOLSTEIN_PRICE: i128 = 15000;

/// Price of a Simmental, in native units.
pub const SIMMENTAL_PRICE: i128 = 15000;

/// Reward for a feeding on time, in hundredths of a percent.
pub const ON_TIME_REWARD: i128 = 50;

/// Reward for a late feeding, in hundredths of a percent.
pub const LATE_REWARD: i128 = 25;

/// Fine for a forgotten feeding, in hundredths of a percent.
pub const FORGET_FINE: i128 = 100;

/// One hundred percent, in hundredths of a percent.
pub const PRECISION_100_PERCENT: i128 = 10_000;

/// Up to this distance from the last feeding the cow is still full.
pub const WELL_FED: u32 = 4320;

/// Up to this distance a feeding counts as on time.
pub const ON_TIME_FEED: u32 = 8640;

/// Up to this distance a feeding counts as late; beyond it, as forgotten.
pub const LATE_FEED: u32 = 12960;

} // verus!

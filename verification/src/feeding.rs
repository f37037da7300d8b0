//! The feeding routine of one cow: what a feeding counts as, by the ledgers
//! gone by since the last one.
//!
//! Neglect is only counted. A cow is never removed for want of feeding,
//! however long: it goes when its record lapses, which a feeding prevents
//! by renewing it. Removal on neglect is not implemented.

use vstd::prelude::*;
use crate::constants::{LATE_FEED, ON_TIME_FEED, WELL_FED};
use crate::enums::Status;
use crate::types::{CowData, CowDataView, CowFeedingStats};

verus! {

/// What a feeding counts as.
#[derive(Clone, Copy, Debug, PartialEq, Eq, Structural)]
pub enum FeedingBucket {
    /// The cow is still full and does not eat.
    Full,
    OnTime,
    Late,
    Forgot,
}

/// The bucket of a feeding that comes `distance` ledgers after the last one.
pub open spec fn bucket_of(distance: int) -> FeedingBucket {
    if distance <= 4320 {
        FeedingBucket::Full
    } else if distance <= 8640 {
        FeedingBucket::OnTime
    } else if distance <= 12960 {
        FeedingBucket::Late
    } else {
        FeedingBucket::Forgot
    }
}

/// The record after a feeding of the given bucket was counted.
pub open spec fn counted(stats: CowFeedingStats, bucket: FeedingBucket) -> CowFeedingStats {
    match bucket {
        FeedingBucket::Full => stats,
        FeedingBucket::OnTime => CowFeedingStats { on_time: (stats.on_time + 1) as u32, ..stats },
        FeedingBucket::Late => CowFeedingStats { late: (stats.late + 1) as u32, ..stats },
        FeedingBucket::Forgot => CowFeedingStats { forget: (stats.forget + 1) as u32, ..stats },
    }
}

/// Whether the ledgers of a cow are in order at ledger `now`: it was born
/// no later than it was last fed, neither lies ahead, and it has no more
/// feedings on record than ledgers had gone by when it was last fed (no
/// two feedings share a ledger). This is what the arithmetic of a feeding
/// and of an age needs, and every cow of the farm has it.
pub open spec fn sound_at(cow: CowDataView, now: u32) -> bool {
    &&& cow.born_ledger <= cow.last_fed_ledger <= now
    &&& cow.feeding_stats.feedings() <= cow.last_fed_ledger
}

/// The cow after it was fed at ledger `now`.
pub open spec fn fed_at(cow: CowDataView, now: u32) -> CowDataView {
    let bucket = bucket_of(now - cow.last_fed_ledger);
    if bucket == FeedingBucket::Full {
        cow
    } else {
        CowDataView {
            last_fed_ledger: now,
            feeding_stats: counted(cow.feeding_stats, bucket),
            ..cow
        }
    }
}

/// The bucket of a feeding that comes `distance` ledgers after the last one.
pub fn feeding_bucket(distance: u32) -> (bucket: FeedingBucket)
    ensures
        bucket == bucket_of(distance as int),
{
    if distance <= WELL_FED {
        FeedingBucket::Full
    } else if distance <= ON_TIME_FEED {
        FeedingBucket::OnTime
    } else if distance <= LATE_FEED {
        FeedingBucket::Late
    } else {
        FeedingBucket::Forgot
    }
}

/// Feeds the cow at ledger `now`. A cow that is still full stays as it is
/// and the answer is `FullStomach`; else exactly one counter grows by one,
/// the cow was last fed now, and the answer is `Success`.
pub fn feed(cow: &mut CowData, now: u32) -> (status: Status)
    requires
        sound_at(old(cow)@, now),
    ensures
        final(cow)@ == fed_at(old(cow)@, now),
        sound_at(final(cow)@, now),
        status == if bucket_of(now - old(cow)@.last_fed_ledger) == FeedingBucket::Full {
            Status::FullStomach
        } else {
            Status::Success
        },
        final(cow)@.feeding_stats.feedings() == old(cow)@.feeding_stats.feedings() + if status
            == Status::Success {
            1int
        } else {
            0int
        },
{
    let feed_distance: u32 = now - cow.last_fed_ledger;
    match feeding_bucket(feed_distance) {
        FeedingBucket::Full => {
            return Status::FullStomach;
        },
        FeedingBucket::OnTime => {
            cow.feeding_stats.on_time = cow.feeding_stats.on_time + 1;
        },
        FeedingBucket::Late => {
            cow.feeding_stats.late = cow.feeding_stats.late + 1;
        },
        FeedingBucket::Forgot => {
            cow.feeding_stats.forget = cow.feeding_stats.forget + 1;
        },
    }
    cow.last_fed_ledger = now;
    Status::Success
}

} // verus!

use cowchain_farm::enums::{CowBreed, Status};
use cowchain_farm::feeding::{feed, feeding_bucket, FeedingBucket};
use cowchain_farm::types::{CowData, CowFeedingStats};

fn cow_last_fed_at(last_fed_ledger: u32) -> CowData {
    CowData {
        id: String::from("cow-1"),
        name: String::from("daisy"),
        breed: CowBreed::Jersey,
        born_ledger: 0,
        last_fed_ledger,
        feeding_stats: CowFeedingStats::new(),
        auction_id: String::new(),
    }
}

#[test]
fn buckets_change_at_their_limits() {
    assert_eq!(feeding_bucket(0), FeedingBucket::Full);
    assert_eq!(feeding_bucket(4320), FeedingBucket::Full);
    assert_eq!(feeding_bucket(4321), FeedingBucket::OnTime);
    assert_eq!(feeding_bucket(8640), FeedingBucket::OnTime);
    assert_eq!(feeding_bucket(8641), FeedingBucket::Late);
    assert_eq!(feeding_bucket(12960), FeedingBucket::Late);
    assert_eq!(feeding_bucket(12961), FeedingBucket::Forgot);
    assert_eq!(feeding_bucket(u32::MAX), FeedingBucket::Forgot);
}

#[test]
fn a_full_cow_stays_as_it_is() {
    let mut cow = cow_last_fed_at(100);
    let before = cow.clone();
    assert_eq!(feed(&mut cow, 100 + 4320), Status::FullStomach);
    assert_eq!(cow, before);
}

#[test]
fn a_feeding_on_time_counts_once() {
    let mut cow = cow_last_fed_at(100);
    assert_eq!(feed(&mut cow, 100 + 4321), Status::Success);
    assert_eq!(cow.feeding_stats, CowFeedingStats { on_time: 1, late: 0, forget: 0 });
    assert_eq!(cow.last_fed_ledger, 4421);
    assert_eq!(cow.born_ledger, 0);
}

#[test]
fn a_late_feeding_counts_once() {
    let mut cow = cow_last_fed_at(100);
    assert_eq!(feed(&mut cow, 100 + 8641), Status::Success);
    assert_eq!(cow.feeding_stats, CowFeedingStats { on_time: 0, late: 1, forget: 0 });
    assert_eq!(cow.last_fed_ledger, 8741);
}

#[test]
fn a_forgotten_feeding_counts_once() {
    let mut cow = cow_last_fed_at(100);
    assert_eq!(feed(&mut cow, 100 + 12961), Status::Success);
    assert_eq!(cow.feeding_stats, CowFeedingStats { on_time: 0, late: 0, forget: 1 });
    assert_eq!(cow.last_fed_ledger, 13061);
}

#[test]
fn counters_add_up_over_a_life() {
    let mut cow = cow_last_fed_at(0);
    assert_eq!(feed(&mut cow, 5000), Status::Success);
    assert_eq!(feed(&mut cow, 6000), Status::FullStomach);
    assert_eq!(feed(&mut cow, 13640), Status::Success);
    assert_eq!(feed(&mut cow, 23640), Status::Success);
    assert_eq!(feed(&mut cow, 36601), Status::Success);
    assert_eq!(feed(&mut cow, 40921), Status::FullStomach);
    assert_eq!(feed(&mut cow, 40922), Status::Success);
    assert_eq!(cow.feeding_stats, CowFeedingStats { on_time: 3, late: 1, forget: 1 });
    assert_eq!(cow.last_fed_ledger, 40922);
}

#[test]
fn a_cow_with_a_record_is_fed_by_the_distance_alone() {
    let mut cow = cow_last_fed_at(1000);
    cow.feeding_stats = CowFeedingStats { on_time: 2, late: 1, forget: 0 };
    assert_eq!(feed(&mut cow, 13961), Status::Success);
    assert_eq!(cow.feeding_stats, CowFeedingStats { on_time: 2, late: 1, forget: 1 });
    assert_eq!(cow.last_fed_ledger, 13961);
}

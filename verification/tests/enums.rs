use cowchain_farm::enums::CowBreed;
use cowchain_farm::enums::Status;
use cowchain_farm::types::{
    Address, AuctionResult, BuyCowResult, CowAppraisalResult, CowFeedingStats, CowStatus,
    SellCowResult,
};

#[test]
fn breeds_are_numbered_from_one_to_six() {
    assert_eq!(CowBreed::Jersey.code(), 1);
    assert_eq!(CowBreed::Limousin.code(), 2);
    assert_eq!(CowBreed::Hallikar.code(), 3);
    assert_eq!(CowBreed::Hereford.code(), 4);
    assert_eq!(CowBreed::Holstein.code(), 5);
    assert_eq!(CowBreed::Simmental.code(), 6);
}

#[test]
fn a_breed_is_found_again_by_its_number() {
    for n in 1..=6u32 {
        assert_eq!(CowBreed::from_code(n).map(|breed| breed.code()), Some(n));
    }
    assert_eq!(CowBreed::from_code(0), None);
    assert_eq!(CowBreed::from_code(7), None);
    assert_eq!(CowBreed::from_code(4), Some(CowBreed::Hereford));
}

#[test]
fn results_start_empty() {
    assert_eq!(CowFeedingStats::new(), CowFeedingStats { on_time: 0, late: 0, forget: 0 });
    assert_eq!(
        CowStatus::new(42, Status::NotFound),
        CowStatus { status: Status::NotFound, ledger: 42 }
    );
    assert_eq!(
        CowAppraisalResult::new(Status::Underage),
        CowAppraisalResult { status: Status::Underage, price: 0 }
    );
    let bought = BuyCowResult::new(Status::Duplicate);
    assert_eq!(bought.status, Status::Duplicate);
    assert!(bought.cow_data.is_empty());
    assert!(bought.ownership.is_empty());
    let sold = SellCowResult::new(Status::OnAuction);
    assert_eq!(sold.status, Status::OnAuction);
    assert!(sold.ownership.is_empty());
    let auction = AuctionResult::default(Status::BidIsOpen);
    assert_eq!(auction.status, Status::BidIsOpen);
    assert!(auction.auction_data.is_empty());
}

#[test]
fn addresses_are_the_same_by_their_key() {
    let alice = Address::new(String::from("alice"));
    assert!(alice.same(&Address::new(String::from("alice"))));
    assert!(!alice.same(&Address::new(String::from("bob"))));
    assert_eq!(alice.clone(), alice);
}

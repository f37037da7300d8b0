use cowchain_farm::contract::{has_real_bid, CowContract};
use cowchain_farm::effects::{Effect, Topic};
use cowchain_farm::enums::{CowBreed, DataKey, Status};
use cowchain_farm::types::{Address, AuctionData, AuctionEventDetails, Bidder};

const RICH: i128 = 1_000_000_000_000;

fn text(s: &str) -> String {
    String::from(s)
}

fn who(s: &str) -> Address {
    Address::new(String::from(s))
}

/// A farm at ledger 10 where alice has put daisy up for auction from 100.
fn farm_with_auction() -> CowContract {
    let mut farm = CowContract::new();
    assert_eq!(farm.init(who("admin"), who("token"), &text("moo"), &text("moo")), Status::Success);
    let (bought, _) =
        farm.buy_cow(&who("alice"), &text("daisy"), &text("cow-1"), CowBreed::Hereford, RICH);
    assert_eq!(bought.status, Status::Success);
    assert!(farm.set_ledger(10));
    let (registered, _) =
        farm.register_auction(&who("alice"), &text("cow-1"), &text("a-1"), 100);
    assert_eq!(registered.status, Status::Success);
    farm
}

fn opening() -> AuctionData {
    AuctionData {
        auction_id: text("a-1"),
        cow_id: text("cow-1"),
        cow_name: text("daisy"),
        cow_breed: CowBreed::Hereford,
        cow_born_ledger: 0,
        owner: who("alice"),
        start_price: 100,
        highest_bidder: Bidder { user: who("alice"), price: 100 },
        bid_history: Vec::new(),
        auction_limit_ledger: 8650,
    }
}

fn refund_notice(bidder: &str, price: i128) -> Effect {
    Effect::AuctionEvent {
        topic: Topic::Refund,
        auction: AuctionEventDetails { auction_id: text("a-1"), bidder: who(bidder), price },
    }
}

#[test]
fn registering_opens_the_auction_for_twelve_hours() {
    let mut farm = CowContract::new();
    farm.init(who("admin"), who("token"), &text("moo"), &text("moo"));
    farm.buy_cow(&who("alice"), &text("daisy"), &text("cow-1"), CowBreed::Hereford, RICH);
    assert!(farm.set_ledger(10));
    let (registered, effects) =
        farm.register_auction(&who("alice"), &text("cow-1"), &text("a-1"), 100);
    assert_eq!(registered.status, Status::Success);
    assert_eq!(registered.auction_data, vec![opening()]);
    assert_eq!(
        effects,
        vec![Effect::AuctionEvent {
            topic: Topic::Register,
            auction: AuctionEventDetails {
                auction_id: text("a-1"),
                bidder: who("alice"),
                price: 100,
            },
        }]
    );
    assert_eq!(farm.cows().get(&text("cow-1"), 10).unwrap().auction_id, text("a-1"));
    assert!(farm.has_key(DataKey::AuctionList));
    assert!(farm.auctions().has(&text("a-1"), 10 + 17280));
    assert!(!farm.auctions().has(&text("a-1"), 10 + 17281));
    let listed = farm.get_all_auction();
    assert_eq!(listed.status, Status::Success);
    assert_eq!(listed.auction_data, vec![opening()]);
}

#[test]
fn registering_is_refused_in_a_fixed_order() {
    let mut bare = CowContract::new();
    let (refused, effects) =
        bare.register_auction(&who("alice"), &text("cow-1"), &text("a-1"), 100);
    assert_eq!(refused.status, Status::NotInitialized);
    assert!(effects.is_empty());
    let mut farm = farm_with_auction();
    assert_eq!(
        farm.register_auction(&who("alice"), &text("cow-9"), &text("a-2"), 100).0.status,
        Status::NotFound
    );
    let (again, effects) =
        farm.register_auction(&who("alice"), &text("cow-1"), &text("a-2"), 100);
    assert_eq!(again.status, Status::Fail);
    assert!(effects.is_empty());
    assert_eq!(farm.auctions().len(), 1);
    assert_eq!(farm.get_all_auction().auction_data.len(), 1);
}

#[test]
fn there_is_no_list_of_auctions_before_the_first() {
    let mut farm = CowContract::new();
    farm.init(who("admin"), who("token"), &text("moo"), &text("moo"));
    let listed = farm.get_all_auction();
    assert_eq!(listed.status, Status::NotFound);
    assert!(listed.auction_data.is_empty());
}

#[test]
fn a_bid_must_be_above_the_highest() {
    let mut farm = farm_with_auction();
    for price in [0u32, 99, 100] {
        let (refused, effects) = farm.bidding(&who("bob"), &text("a-1"), price, RICH);
        assert_eq!(refused.status, Status::CannotBidLower);
        assert!(refused.auction_data.is_empty());
        assert!(effects.is_empty());
    }
    assert_eq!(farm.get_all_auction().auction_data, vec![opening()]);
    let (accepted, _) = farm.bidding(&who("bob"), &text("a-1"), 101, RICH);
    assert_eq!(accepted.status, Status::Success);
    let (refused, effects) = farm.bidding(&who("carol"), &text("a-1"), 101, RICH);
    assert_eq!(refused.status, Status::CannotBidLower);
    assert!(effects.is_empty());
}

#[test]
fn the_first_bid_is_taken_and_nobody_refunded() {
    let mut farm = farm_with_auction();
    let (accepted, effects) = farm.bidding(&who("bob"), &text("a-1"), 150, RICH);
    assert_eq!(accepted.status, Status::Success);
    assert_eq!(effects, vec![Effect::Collect { from: who("bob"), amount: 1_500_000_000 }]);
    let mut expected = opening();
    expected.bid_history = vec![Bidder { user: who("alice"), price: 100 }];
    expected.highest_bidder = Bidder { user: who("bob"), price: 150 };
    assert_eq!(accepted.auction_data, vec![expected.clone()]);
    assert_eq!(farm.auctions().get(&text("a-1"), 10), Some(&expected));
}

#[test]
fn a_later_bid_refunds_the_one_before() {
    let mut farm = farm_with_auction();
    farm.bidding(&who("bob"), &text("a-1"), 150, RICH);
    let (accepted, effects) = farm.bidding(&who("carol"), &text("a-1"), 200, RICH);
    assert_eq!(accepted.status, Status::Success);
    assert_eq!(
        effects,
        vec![
            Effect::Collect { from: who("carol"), amount: 2_000_000_000 },
            Effect::Pay { to: who("bob"), amount: 1_500_000_000 },
            refund_notice("bob", 150),
        ]
    );
    let (accepted, effects) = farm.bidding(&who("bob"), &text("a-1"), 4_294_967_295, i128::MAX);
    assert_eq!(accepted.status, Status::Success);
    assert_eq!(
        effects,
        vec![
            Effect::Collect { from: who("bob"), amount: 42_949_672_950_000_000 },
            Effect::Pay { to: who("carol"), amount: 2_000_000_000 },
            refund_notice("carol", 200),
        ]
    );
    assert_eq!(
        accepted.auction_data[0].bid_history,
        vec![
            Bidder { user: who("alice"), price: 100 },
            Bidder { user: who("bob"), price: 150 },
            Bidder { user: who("carol"), price: 200 },
        ]
    );
}

#[test]
fn the_bidder_must_keep_more_than_the_minimum() {
    let mut farm = farm_with_auction();
    let (refused, effects) =
        farm.bidding(&who("bob"), &text("a-1"), 150, 1_500_000_000 + 15_000_000);
    assert_eq!(refused.status, Status::InsufficientFund);
    assert!(effects.is_empty());
    assert_eq!(farm.get_all_auction().auction_data, vec![opening()]);
    let (accepted, _) = farm.bidding(&who("bob"), &text("a-1"), 150, 1_500_000_000 + 15_000_001);
    assert_eq!(accepted.status, Status::Success);
}

#[test]
fn bidding_is_refused_in_a_fixed_order() {
    let mut bare = CowContract::new();
    assert_eq!(
        bare.bidding(&who("bob"), &text("a-1"), 150, RICH).0.status,
        Status::NotInitialized
    );
    let mut farm = farm_with_auction();
    assert_eq!(farm.bidding(&who("bob"), &text("a-9"), 150, RICH).0.status, Status::NotFound);
    assert!(farm.set_ledger(8650));
    assert_eq!(farm.bidding(&who("bob"), &text("a-1"), 150, RICH).0.status, Status::Success);
    assert!(farm.set_ledger(8651));
    let (closed, effects) = farm.bidding(&who("carol"), &text("a-1"), 100, 0);
    assert_eq!(closed.status, Status::BidIsClosed);
    assert!(effects.is_empty());
    assert!(farm.set_ledger(10 + 17281));
    assert_eq!(farm.bidding(&who("carol"), &text("a-1"), 200, RICH).0.status, Status::NotFound);
}

#[test]
fn an_auction_is_not_closed_before_its_deadline() {
    let mut farm = farm_with_auction();
    farm.bidding(&who("bob"), &text("a-1"), 150, RICH);
    assert!(farm.set_ledger(8650));
    let (open, effects) = farm.finalize_auction(&text("a-1"));
    assert_eq!(open.status, Status::BidIsOpen);
    assert!(effects.is_empty());
    assert!(farm.auctions().has(&text("a-1"), 8650));
    assert_eq!(farm.finalize_auction(&text("a-9")).0.status, Status::NotFound);
}

#[test]
fn the_winner_gets_the_cow_and_the_seller_the_bid() {
    let mut farm = farm_with_auction();
    farm.buy_cow(&who("alice"), &text("molly"), &text("cow-2"), CowBreed::Jersey, RICH);
    farm.bidding(&who("bob"), &text("a-1"), 150, RICH);
    farm.bidding(&who("carol"), &text("a-1"), 200, RICH);
    assert!(farm.set_ledger(8651));
    let (closed, effects) = farm.finalize_auction(&text("a-1"));
    assert_eq!(closed.status, Status::Success);
    let mut last = opening();
    last.bid_history =
        vec![Bidder { user: who("alice"), price: 100 }, Bidder { user: who("bob"), price: 150 }];
    last.highest_bidder = Bidder { user: who("carol"), price: 200 };
    assert_eq!(closed.auction_data, vec![last]);
    assert_eq!(
        effects,
        vec![
            Effect::Pay { to: who("alice"), amount: 2_000_000_000 },
            Effect::AuctionEvent {
                topic: Topic::Auction,
                auction: AuctionEventDetails {
                    auction_id: text("a-1"),
                    bidder: who("carol"),
                    price: 200,
                },
            },
        ]
    );
    let sellers = farm.owners().get(&text("alice"), 8651).unwrap();
    assert_eq!(sellers.ids, vec![text("cow-2")]);
    let winners = farm.owners().get(&text("carol"), 8651).unwrap();
    assert_eq!(winners.ids, vec![text("cow-1")]);
    assert!(!farm.owners().has(&text("bob"), 8651));
    assert!(farm.owners().has(&text("carol"), 8651 + 120960));
    assert_eq!(farm.cows().get(&text("cow-1"), 8651).unwrap().auction_id, String::new());
    assert_eq!(farm.auctions().len(), 0);
    let listed = farm.get_all_auction();
    assert_eq!(listed.status, Status::Success);
    assert!(listed.auction_data.is_empty());
    assert_eq!(farm.auction_list().get(8651).unwrap().len(), 0);
    let carols = farm.get_all_cow(&who("carol"));
    assert_eq!(carols.data.len(), 1);
    assert_eq!(carols.data[0].id, text("cow-1"));
}

#[test]
fn a_closed_auction_is_not_found_again() {
    let mut farm = farm_with_auction();
    farm.bidding(&who("bob"), &text("a-1"), 150, RICH);
    assert!(farm.set_ledger(8651));
    assert_eq!(farm.finalize_auction(&text("a-1")).0.status, Status::Success);
    let (again, effects) = farm.finalize_auction(&text("a-1"));
    assert_eq!(again.status, Status::NotFound);
    assert!(again.auction_data.is_empty());
    assert!(effects.is_empty());
    assert!(farm.set_ledger(9000));
    assert_eq!(farm.finalize_auction(&text("a-1")).0.status, Status::NotFound);
    assert_eq!(farm.owners().get(&text("bob"), 9000).unwrap().ids, vec![text("cow-1")]);
}

#[test]
fn an_auction_without_bids_gives_the_cow_back() {
    let mut farm = farm_with_auction();
    assert!(farm.set_ledger(8651));
    let (closed, effects) = farm.finalize_auction(&text("a-1"));
    assert_eq!(closed.status, Status::Success);
    assert!(closed.auction_data.is_empty());
    assert!(effects.is_empty());
    assert_eq!(farm.auctions().len(), 0);
    assert_eq!(farm.cows().get(&text("cow-1"), 8651).unwrap().auction_id, String::new());
    assert_eq!(farm.owners().get(&text("alice"), 8651).unwrap().ids, vec![text("cow-1")]);
    // the id stays in the list of open auctions, and is passed over when listing
    assert_eq!(farm.auction_list().get(8651).unwrap().ids, vec![text("a-1")]);
    assert!(farm.get_all_auction().auction_data.is_empty());
    let (again, _) = farm.register_auction(&who("alice"), &text("cow-1"), &text("a-2"), 7);
    assert_eq!(again.status, Status::Success);
    assert_eq!(again.auction_data[0].auction_limit_ledger, 8651 + 8640);
}

#[test]
fn an_auction_without_bids_for_a_lapsed_cow_is_just_deleted() {
    let mut farm = farm_with_auction();
    assert!(farm.set_ledger(17285));
    assert!(!farm.cows().has(&text("cow-1"), 17285));
    let cows_before = farm.cows().len();
    let (closed, effects) = farm.finalize_auction(&text("a-1"));
    assert_eq!(closed.status, Status::Success);
    assert!(closed.auction_data.is_empty());
    assert!(effects.is_empty());
    assert_eq!(farm.auctions().len(), 0);
    assert_eq!(farm.cows().len(), cows_before);
    assert_eq!(farm.owners().get(&text("alice"), 17285).unwrap().ids, vec![text("cow-1")]);
}

#[test]
fn the_highest_bid_for_a_lapsed_cow_is_refunded() {
    let mut farm = farm_with_auction();
    farm.bidding(&who("bob"), &text("a-1"), 150, RICH);
    assert!(farm.set_ledger(17285));
    let (closed, effects) = farm.finalize_auction(&text("a-1"));
    assert_eq!(closed.status, Status::Success);
    assert!(closed.auction_data.is_empty());
    assert_eq!(
        effects,
        vec![Effect::Pay { to: who("bob"), amount: 1_500_000_000 }, refund_notice("bob", 150)]
    );
    assert_eq!(farm.auctions().len(), 0);
    assert!(!farm.owners().has(&text("bob"), 17285));
    assert_eq!(farm.owners().get(&text("alice"), 17285).unwrap().ids, vec![text("cow-1")]);
    assert_eq!(farm.finalize_auction(&text("a-1")).0.status, Status::NotFound);
}

#[test]
fn an_auction_out_of_range_is_not_restored() {
    let mut farm = CowContract::new();
    let mut auction = opening();
    assert!(farm.restore_auction(&text("a-1"), auction.clone(), 500));
    auction.highest_bidder.price = 4_294_967_296;
    assert!(!farm.restore_auction(&text("a-2"), auction.clone(), 500));
    auction.highest_bidder.price = 100;
    auction.start_price = -1;
    assert!(!farm.restore_auction(&text("a-2"), auction.clone(), 500));
    // a highest bid below the start price
    auction.start_price = 101;
    assert!(!farm.restore_auction(&text("a-2"), auction, 500));
    assert_eq!(farm.auctions().len(), 1);
    assert_eq!(farm.auctions().get(&text("a-1"), 500), Some(&opening()));
}

/// A farm at ledger 10 where alice has put daisy up for auction from 10.
fn farm_with_cheap_auction() -> CowContract {
    let mut farm = CowContract::new();
    farm.init(who("admin"), who("token"), &text("moo"), &text("moo"));
    farm.buy_cow(&who("alice"), &text("daisy"), &text("cow-1"), CowBreed::Hereford, RICH);
    assert!(farm.set_ledger(10));
    let (registered, _) = farm.register_auction(&who("alice"), &text("cow-1"), &text("a-1"), 10);
    assert_eq!(registered.status, Status::Success);
    farm
}

#[test]
fn the_stand_in_is_the_seller_at_the_start_price() {
    let mut auction = opening();
    assert!(!has_real_bid(&auction));
    auction.highest_bidder = Bidder { user: who("alice"), price: 101 };
    assert!(has_real_bid(&auction));
    auction.highest_bidder = Bidder { user: who("bob"), price: 100 };
    assert!(has_real_bid(&auction));
    auction.highest_bidder = Bidder { user: who("bob"), price: 101 };
    assert!(has_real_bid(&auction));
}

#[test]
fn a_bid_of_the_seller_is_refunded_when_it_is_outbid() {
    let mut farm = farm_with_cheap_auction();
    let (own, effects) = farm.bidding(&who("alice"), &text("a-1"), 20, RICH);
    assert_eq!(own.status, Status::Success);
    assert_eq!(effects, vec![Effect::Collect { from: who("alice"), amount: 200_000_000 }]);
    let (higher, effects) = farm.bidding(&who("bob"), &text("a-1"), 30, RICH);
    assert_eq!(higher.status, Status::Success);
    assert_eq!(
        effects,
        vec![
            Effect::Collect { from: who("bob"), amount: 300_000_000 },
            Effect::Pay { to: who("alice"), amount: 200_000_000 },
            refund_notice("alice", 20),
        ]
    );
    assert_eq!(
        higher.auction_data[0].bid_history,
        vec![Bidder { user: who("alice"), price: 10 }, Bidder { user: who("alice"), price: 20 }]
    );
}

#[test]
fn a_seller_who_wins_gets_the_bid_back_and_keeps_the_cow() {
    let mut farm = farm_with_cheap_auction();
    farm.buy_cow(&who("alice"), &text("molly"), &text("cow-2"), CowBreed::Jersey, RICH);
    assert_eq!(farm.bidding(&who("alice"), &text("a-1"), 20, RICH).0.status, Status::Success);
    assert!(farm.set_ledger(8651));
    let (closed, effects) = farm.finalize_auction(&text("a-1"));
    assert_eq!(closed.status, Status::Success);
    assert_eq!(closed.auction_data.len(), 1);
    assert_eq!(closed.auction_data[0].highest_bidder, Bidder { user: who("alice"), price: 20 });
    assert_eq!(
        effects,
        vec![
            Effect::Pay { to: who("alice"), amount: 200_000_000 },
            Effect::AuctionEvent {
                topic: Topic::Auction,
                auction: AuctionEventDetails {
                    auction_id: text("a-1"),
                    bidder: who("alice"),
                    price: 20,
                },
            },
        ]
    );
    // the id left the list and joined it again, at the end
    let owned = farm.owners().get(&text("alice"), 8651).unwrap();
    assert_eq!(owned.ids, vec![text("cow-2"), text("cow-1")]);
    assert_eq!(farm.cows().get(&text("cow-1"), 8651).unwrap().auction_id, String::new());
    assert_eq!(farm.auctions().len(), 0);
    assert_eq!(farm.auction_list().get(8651).unwrap().len(), 0);
}

#[test]
fn a_bid_of_the_seller_for_a_lapsed_cow_is_refunded() {
    let mut farm = farm_with_cheap_auction();
    assert_eq!(farm.bidding(&who("alice"), &text("a-1"), 20, RICH).0.status, Status::Success);
    assert!(farm.set_ledger(17285));
    let (closed, effects) = farm.finalize_auction(&text("a-1"));
    assert_eq!(closed.status, Status::Success);
    assert!(closed.auction_data.is_empty());
    assert_eq!(
        effects,
        vec![Effect::Pay { to: who("alice"), amount: 200_000_000 }, refund_notice("alice", 20)]
    );
    assert_eq!(farm.auctions().len(), 0);
}

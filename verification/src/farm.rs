//! The farm as a mathematical state machine: its state, and for each
//! operation the next state, the result and the effects, as functions of the
//! state and the arguments. The executable farm is held to these functions.

use vstd::prelude::*;
use crate::effects::{EffectView, Topic};
use crate::enums::{CowBreed, Status};
use crate::feeding::{bucket_of, fed_at, sound_at, FeedingBucket};
use crate::ids::without_first;
use crate::ownership::{list_of, ownership_added, ownership_removed};
use crate::pricing::{appraisal_price, base_price_in_stroops};
use crate::store::{
    after_renew, after_set, is_live, kept_after_renew, kept_after_set, kept_is_live, live_part,
    written, Record,
};
use crate::types::{
    AuctionDataView, AuctionEventDetailsView, AuctionResultView, BidderView, BuyCowResultView,
    CowAppraisalResult, CowDataView, CowEventDetailsView, CowFeedingStats, CowStatus,
    GetAllCowResultView, SellCowResultView,
};

verus! {

/// The farm's configuration, set once.
pub ghost struct ConfigView {
    pub admin: Seq<char>,
    pub native_token: Seq<char>,
    pub initialized_ledger: u32,
}

/// The state of the farm.
pub ghost struct FarmView {
    /// The current ledger.
    pub ledger: u32,
    /// The configuration, once the farm is initialized.
    pub config: Option<ConfigView>,
    /// The cows, by id.
    pub cows: Map<Seq<char>, Record<CowDataView>>,
    /// The id of the cow that bears a name, by name.
    pub names: Map<Seq<char>, Record<Seq<char>>>,
    /// The ids of the cows of an owner, by the owner's key.
    pub owners: Map<Seq<char>, Record<Seq<Seq<char>>>>,
    /// The auctions, by id.
    pub auctions: Map<Seq<char>, Record<AuctionDataView>>,
    /// The ids of the auctions that were registered and not closed with a winner.
    pub auction_list: Option<Record<Seq<Seq<char>>>>,
}

/// What an operation yields: the next state, its result, and what the host
/// has to do, in order.
pub ghost struct Outcome<R> {
    pub state: FarmView,
    pub result: R,
    pub effects: Seq<EffectView>,
}

/// The outcome of an operation that refuses: nothing changes, nothing is due.
pub open spec fn refused<R>(state: FarmView, result: R) -> Outcome<R> {
    Outcome { state, result, effects: Seq::empty() }
}

/// Whether the prices of an auction are those of bids that can be made, the
/// highest no lower than the start price.
pub open spec fn auction_is_sound(auction: AuctionDataView) -> bool {
    0 <= auction.start_price <= auction.highest_bidder.price <= u32::MAX
}

/// The invariant of the farm's state: the ledger leaves room for the
/// longest window, four weeks; each cow's ledgers are in order; and each
/// auction's prices are those of bids.
pub open spec fn valid(state: FarmView) -> bool {
    &&& state.ledger + 483840 <= u32::MAX
    &&& forall|id: Seq<char>| #[trigger]
        state.cows.contains_key(id) ==> sound_at(state.cows[id].value, state.ledger)
    &&& forall|id: Seq<char>| #[trigger]
        state.auctions.contains_key(id) ==> auction_is_sound(state.auctions[id].value)
}

/// The state after every record whose lifetime has lapsed was evicted.
pub open spec fn evicted(state: FarmView) -> FarmView {
    FarmView {
        cows: live_part(state.cows, state.ledger),
        names: live_part(state.names, state.ledger),
        owners: live_part(state.owners, state.ledger),
        auctions: live_part(state.auctions, state.ledger),
        auction_list: if kept_is_live(state.auction_list, state.ledger) {
            state.auction_list
        } else {
            None
        },
        ..state
    }
}

/// The stand-in for a highest bid while nobody has bid: the seller at the
/// start price.
pub open spec fn stand_in(auction: AuctionDataView) -> BidderView {
    BidderView { user: auction.owner, price: auction.start_price }
}

/// Whether somebody has bid: the highest bid is no longer the stand-in. A
/// bid of the seller's own, which is above the start price, is a bid like
/// any other.
pub open spec fn has_real_bid(auction: AuctionDataView) -> bool {
    auction.highest_bidder != stand_in(auction)
}

/// The age of a cow at ledger `now`.
pub open spec fn age_of(cow: CowDataView, now: u32) -> int {
    now - cow.born_ledger
}

/// What a cow is worth: the appraisal of its breed's base price, in stroops.
pub open spec fn worth_of(cow: CowDataView) -> int {
    appraisal_price(cow.feeding_stats, base_price_in_stroops(cow.breed))
}

/// The cows of `ids` that are alive at ledger `now`, in the order of `ids`.
pub open spec fn live_cows(
    ids: Seq<Seq<char>>,
    cows: Map<Seq<char>, Record<CowDataView>>,
    now: u32,
) -> Seq<CowDataView>
    decreases ids.len(),
{
    if ids.len() == 0 {
        Seq::empty()
    } else {
        let before = live_cows(ids.drop_last(), cows, now);
        if is_live(cows, ids.last(), now) {
            before.push(cows[ids.last()].value)
        } else {
            before
        }
    }
}

/// The auctions of `ids` that are alive at ledger `now`, in the order of `ids`.
pub open spec fn live_auctions(
    ids: Seq<Seq<char>>,
    auctions: Map<Seq<char>, Record<AuctionDataView>>,
    now: u32,
) -> Seq<AuctionDataView>
    decreases ids.len(),
{
    if ids.len() == 0 {
        Seq::empty()
    } else {
        let before = live_auctions(ids.drop_last(), auctions, now);
        if is_live(auctions, ids.last(), now) {
            before.push(auctions[ids.last()].value)
        } else {
            before
        }
    }
}

/// Initializing the farm: with the right word only, and once only.
pub open spec fn init(
    state: FarmView,
    admin: Seq<char>,
    native_token: Seq<char>,
    message: Seq<char>,
    password: Seq<char>,
) -> Outcome<Status> {
    if message != password {
        refused(state, Status::TryAgain)
    } else if state.config is Some {
        refused(state, Status::AlreadyInitialized)
    } else {
        Outcome {
            state: FarmView {
                config: Some(
                    ConfigView { admin, native_token, initialized_ledger: state.ledger },
                ),
                ..state
            },
            result: Status::Success,
            effects: Seq::empty(),
        }
    }
}

/// A donation of `amount` native units to the farm.
pub open spec fn open_donation(state: FarmView, from: Seq<char>, amount: int) -> Outcome<Status> {
    if state.config is None {
        refused(state, Status::Fail)
    } else {
        Outcome {
            state,
            result: Status::Success,
            effects: seq![EffectView::Collect { from, amount: amount * 10_000_000 }],
        }
    }
}

/// The cow that a purchase creates.
pub open spec fn newborn(id: Seq<char>, name: Seq<char>, breed: CowBreed, now: u32) -> CowDataView {
    CowDataView {
        id,
        name,
        breed,
        born_ledger: now,
        last_fed_ledger: now,
        feeding_stats: CowFeedingStats { on_time: 0, late: 0, forget: 0 },
        auction_id: Seq::empty(),
    }
}

/// Buying a cow from the supplier. `balance` is what the buyer holds.
pub open spec fn buy_cow(
    state: FarmView,
    user: Seq<char>,
    name: Seq<char>,
    id: Seq<char>,
    breed: CowBreed,
    balance: int,
) -> Outcome<BuyCowResultView> {
    let now = state.ledger;
    let price = base_price_in_stroops(breed);
    let failed = |status: Status|
        refused(
            state,
            BuyCowResultView { status, cow_data: Seq::empty(), ownership: Seq::empty() },
        );
    if state.config is None {
        failed(Status::NotInitialized)
    } else if is_live(state.names, name, now) {
        failed(Status::Duplicate)
    } else if balance - 15_000_000 - price <= 0 {
        failed(Status::InsufficientFund)
    } else {
        let cow = newborn(id, name, breed, now);
        Outcome {
            state: FarmView {
                owners: ownership_added(state.owners, user, id, now),
                cows: written(state.cows, id, cow, now, 17280),
                names: written(state.names, name, id, now, 17280),
                ..state
            },
            result: BuyCowResultView {
                status: Status::Success,
                cow_data: seq![cow],
                ownership: list_of(state.owners, user, now).push(id),
            },
            effects: seq![
                EffectView::Collect { from: user, amount: price },
                EffectView::CowEvent {
                    topic: Topic::Buy,
                    cow: CowEventDetailsView { id, name, owner: user, last_fed_ledger: now },
                },
            ],
        }
    }
}

/// Selling a cow back to the supplier. `farm_balance` is what the farm holds.
pub open spec fn sell_cow(
    state: FarmView,
    user: Seq<char>,
    id: Seq<char>,
    farm_balance: int,
) -> Outcome<SellCowResultView> {
    let now = state.ledger;
    let failed = |status: Status|
        refused(state, SellCowResultView { status, ownership: Seq::empty() });
    if state.config is None {
        failed(Status::NotInitialized)
    } else if !is_live(state.cows, id, now) {
        failed(Status::NotFound)
    } else if !is_live(state.owners, user, now) {
        failed(Status::MissingOwnership)
    } else {
        let cow = state.cows[id].value;
        if cow.auction_id.len() != 0 {
            failed(Status::OnAuction)
        } else if age_of(cow, now) < 51840 {
            failed(Status::Underage)
        } else if farm_balance < worth_of(cow) {
            failed(Status::InsufficientFund)
        } else {
            Outcome {
                state: FarmView {
                    owners: ownership_removed(state.owners, user, id, now),
                    cows: state.cows.remove(id),
                    names: state.names.remove(cow.name),
                    ..state
                },
                result: SellCowResultView {
                    status: Status::Success,
                    ownership: without_first(state.owners[user].value, id),
                },
                effects: seq![
                    EffectView::Pay { to: user, amount: worth_of(cow) },
                    EffectView::CowEvent {
                        topic: Topic::Sell,
                        cow: CowEventDetailsView {
                            id: cow.id,
                            name: cow.name,
                            owner: user,
                            last_fed_ledger: cow.last_fed_ledger,
                        },
                    },
                ],
            }
        }
    }
}

/// Appraising a cow: nothing changes and nothing is due.
pub open spec fn cow_appraisal(state: FarmView, id: Seq<char>) -> CowAppraisalResult {
    if !is_live(state.cows, id, state.ledger) {
        CowAppraisalResult { status: Status::NotFound, price: 0 }
    } else if age_of(state.cows[id].value, state.ledger) < 51840 {
        CowAppraisalResult { status: Status::Underage, price: 0 }
    } else {
        CowAppraisalResult {
            status: Status::Success,
            price: worth_of(state.cows[id].value) as i128,
        }
    }
}

/// Feeding a cow.
pub open spec fn feed_the_cow(state: FarmView, user: Seq<char>, id: Seq<char>) -> Outcome<
    CowStatus,
> {
    let now = state.ledger;
    if !is_live(state.cows, id, now) {
        refused(state, CowStatus { status: Status::NotFound, ledger: now })
    } else if !is_live(state.owners, user, now) {
        refused(state, CowStatus { status: Status::MissingOwnership, ledger: now })
    } else {
        let cow = state.cows[id].value;
        if bucket_of(now - cow.last_fed_ledger) == FeedingBucket::Full {
            refused(state, CowStatus { status: Status::FullStomach, ledger: now })
        } else {
            Outcome {
                state: FarmView {
                    cows: written(state.cows, id, fed_at(cow, now), now, 17280),
                    names: after_renew(state.names, cow.name, now, 17280),
                    owners: after_renew(state.owners, user, now, 120960),
                    ..state
                },
                result: CowStatus { status: Status::Success, ledger: now },
                effects: seq![
                    EffectView::CowEvent {
                        topic: Topic::Feed,
                        cow: CowEventDetailsView {
                            id: cow.id,
                            name: cow.name,
                            owner: user,
                            last_fed_ledger: now,
                        },
                    },
                ],
            }
        }
    }
}

/// Listing the cows of an owner that are alive.
pub open spec fn get_all_cow(state: FarmView, user: Seq<char>) -> GetAllCowResultView {
    if !is_live(state.owners, user, state.ledger) {
        GetAllCowResultView { status: Status::Fail, data: Seq::empty() }
    } else {
        GetAllCowResultView {
            status: Status::Success,
            data: live_cows(state.owners[user].value, state.cows, state.ledger),
        }
    }
}

/// The auction that a registration creates: the seller stands in as the
/// highest bidder at the start price, and bids are taken for twelve hours
/// from the registration. (A deadline at a fixed ledger, whenever the
/// auction was registered, is not implemented.)
pub open spec fn opened(
    cow: CowDataView,
    user: Seq<char>,
    cow_id: Seq<char>,
    auction_id: Seq<char>,
    price: u32,
    now: u32,
) -> AuctionDataView {
    AuctionDataView {
        auction_id,
        cow_id,
        cow_name: cow.name,
        cow_breed: cow.breed,
        cow_born_ledger: cow.born_ledger,
        owner: user,
        start_price: price as i128,
        highest_bidder: BidderView { user, price: price as i128 },
        bid_history: Seq::empty(),
        auction_limit_ledger: (now + 8640) as u32,
    }
}

/// The open auctions, or the empty list where no live record is.
pub open spec fn open_auctions(state: FarmView) -> Seq<Seq<char>> {
    if kept_is_live(state.auction_list, state.ledger) {
        state.auction_list->Some_0.value
    } else {
        Seq::empty()
    }
}

/// Putting a cow up for auction.
pub open spec fn register_auction(
    state: FarmView,
    user: Seq<char>,
    cow_id: Seq<char>,
    auction_id: Seq<char>,
    price: u32,
) -> Outcome<AuctionResultView> {
    let now = state.ledger;
    let failed = |status: Status|
        refused(state, AuctionResultView { status, auction_data: Seq::empty() });
    if state.config is None {
        failed(Status::NotInitialized)
    } else if !is_live(state.cows, cow_id, now) {
        failed(Status::NotFound)
    } else if state.cows[cow_id].value.auction_id.len() != 0 {
        failed(Status::Fail)
    } else {
        let cow = state.cows[cow_id].value;
        let auction = opened(cow, user, cow_id, auction_id, price, now);
        Outcome {
            state: FarmView {
                auction_list: kept_after_renew(
                    kept_after_set(state.auction_list, open_auctions(state).push(auction_id), now),
                    now,
                    483840,
                ),
                auctions: written(state.auctions, auction_id, auction, now, 17280),
                cows: after_set(state.cows, cow_id, CowDataView { auction_id, ..cow }, now),
                owners: after_renew(state.owners, user, now, 120960),
                ..state
            },
            result: AuctionResultView { status: Status::Success, auction_data: seq![auction] },
            effects: seq![
                EffectView::AuctionEvent {
                    topic: Topic::Register,
                    auction: AuctionEventDetailsView {
                        auction_id,
                        bidder: user,
                        price: price as i128,
                    },
                },
            ],
        }
    }
}

/// The refund that is due to the highest bidder of an auction, and its notice.
pub open spec fn refund_of(auction: AuctionDataView) -> Seq<EffectView> {
    seq![
        EffectView::Pay {
            to: auction.highest_bidder.user,
            amount: auction.highest_bidder.price * 10_000_000,
        },
        EffectView::AuctionEvent {
            topic: Topic::Refund,
            auction: AuctionEventDetailsView {
                auction_id: auction.auction_id,
                bidder: auction.highest_bidder.user,
                price: auction.highest_bidder.price,
            },
        },
    ]
}

/// The auction after `user` has bid `price`: the bid it supersedes goes to
/// the history.
pub open spec fn outbid(auction: AuctionDataView, user: Seq<char>, price: u32) -> AuctionDataView {
    AuctionDataView {
        bid_history: auction.bid_history.push(auction.highest_bidder),
        highest_bidder: BidderView { user, price: price as i128 },
        ..auction
    }
}

/// Bidding at an auction. `balance` is what the bidder holds.
pub open spec fn bidding(
    state: FarmView,
    user: Seq<char>,
    auction_id: Seq<char>,
    bid_price: u32,
    balance: int,
) -> Outcome<AuctionResultView> {
    let now = state.ledger;
    let failed = |status: Status|
        refused(state, AuctionResultView { status, auction_data: Seq::empty() });
    if state.config is None {
        failed(Status::NotInitialized)
    } else if !is_live(state.auctions, auction_id, now) {
        failed(Status::NotFound)
    } else {
        let auction = state.auctions[auction_id].value;
        if auction.auction_limit_ledger < now {
            failed(Status::BidIsClosed)
        } else if bid_price <= auction.highest_bidder.price {
            failed(Status::CannotBidLower)
        } else if balance - 15_000_000 - bid_price * 10_000_000 <= 0 {
            failed(Status::InsufficientFund)
        } else {
            let escrow = seq![
                EffectView::Collect { from: user, amount: bid_price * 10_000_000 },
            ];
            Outcome {
                state: FarmView {
                    auctions: after_set(
                        state.auctions,
                        auction_id,
                        outbid(auction, user, bid_price),
                        now,
                    ),
                    owners: after_renew(state.owners, user, now, 120960),
                    ..state
                },
                result: AuctionResultView {
                    status: Status::Success,
                    auction_data: seq![outbid(auction, user, bid_price)],
                },
                effects: if has_real_bid(auction) {
                    escrow + refund_of(auction)
                } else {
                    escrow
                },
            }
        }
    }
}

/// The cows after the cow under `cow_id` was taken off auction.
pub open spec fn released(
    cows: Map<Seq<char>, Record<CowDataView>>,
    cow_id: Seq<char>,
    now: u32,
) -> Map<Seq<char>, Record<CowDataView>> {
    after_set(
        cows,
        cow_id,
        CowDataView { auction_id: Seq::empty(), ..cows[cow_id].value },
        now,
    )
}

/// The single record of open auctions after `auction_id` was taken out of
/// it and the record renewed for four weeks; unchanged where it is not alive.
pub open spec fn auction_delisted(
    list: Option<Record<Seq<Seq<char>>>>,
    auction_id: Seq<char>,
    now: u32,
) -> Option<Record<Seq<Seq<char>>>> {
    if kept_is_live(list, now) {
        kept_after_renew(
            kept_after_set(list, without_first(list->Some_0.value, auction_id), now),
            now,
            483840,
        )
    } else {
        list
    }
}

/// Closing an auction after its deadline.
pub open spec fn finalize_auction(state: FarmView, auction_id: Seq<char>) -> Outcome<
    AuctionResultView,
> {
    let now = state.ledger;
    let ended = |status: Status| AuctionResultView { status, auction_data: Seq::empty() };
    if !is_live(state.auctions, auction_id, now) {
        refused(state, ended(Status::NotFound))
    } else {
        let auction = state.auctions[auction_id].value;
        let cow_id = auction.cow_id;
        let cow_is_alive = is_live(state.cows, cow_id, now);
        let auctions = state.auctions.remove(auction_id);
        if auction.auction_limit_ledger >= now {
            refused(state, ended(Status::BidIsOpen))
        } else if !has_real_bid(auction) {
            Outcome {
                state: FarmView {
                    auctions,
                    cows: if cow_is_alive {
                        released(state.cows, cow_id, now)
                    } else {
                        state.cows
                    },
                    ..state
                },
                result: ended(Status::Success),
                effects: Seq::empty(),
            }
        } else if !cow_is_alive {
            Outcome {
                state: FarmView { auctions, ..state },
                result: ended(Status::Success),
                effects: refund_of(auction),
            }
        } else {
            let winner = auction.highest_bidder.user;
            Outcome {
                state: FarmView {
                    auctions,
                    owners: ownership_added(
                        ownership_removed(state.owners, auction.owner, cow_id, now),
                        winner,
                        cow_id,
                        now,
                    ),
                    auction_list: auction_delisted(state.auction_list, auction_id, now),
                    cows: released(state.cows, cow_id, now),
                    ..state
                },
                result: AuctionResultView {
                    status: Status::Success,
                    auction_data: seq![auction],
                },
                effects: seq![
                    EffectView::Pay {
                        to: auction.owner,
                        amount: auction.highest_bidder.price * 10_000_000,
                    },
                    EffectView::AuctionEvent {
                        topic: Topic::Auction,
                        auction: AuctionEventDetailsView {
                            auction_id: auction.auction_id,
                            bidder: winner,
                            price: auction.highest_bidder.price,
                        },
                    },
                ],
            }
        }
    }
}

/// Listing the open auctions that are alive.
pub open spec fn get_all_auction(state: FarmView) -> AuctionResultView {
    if !kept_is_live(state.auction_list, state.ledger) {
        AuctionResultView { status: Status::NotFound, auction_data: Seq::empty() }
    } else {
        AuctionResultView {
            status: Status::Success,
            auction_data: live_auctions(
                state.auction_list->Some_0.value,
                state.auctions,
                state.ledger,
            ),
        }
    }
}

} // verus!

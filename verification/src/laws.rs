//! What holds of the farm whatever its state: laws of the model that the
//! executable farm is held to.

use vstd::prelude::*;
use crate::effects::{no_funds_move, EffectView};
use crate::enums::{CowBreed, Status};
use crate::farm::{
    age_of, bidding, buy_cow, cow_appraisal, evicted, feed_the_cow, finalize_auction,
    get_all_auction, get_all_cow, has_real_bid, live_auctions, live_cows, register_auction,
    sell_cow, valid, FarmView,
};
use crate::feeding::{fed_at, sound_at};
use crate::ids::{
    occurrences, occurrences_after_push, occurrences_and_contains, occurrences_without_first,
    without_first,
};
use crate::ownership::{list_of, ownership_removed};
use crate::store::{is_live, kept_is_live, live_part, Record};
use crate::types::{AuctionDataView, CowDataView, CowStatus};

verus! {

/// The buckets of a feeding are exact. Up to 4320 ledgers after the last
/// feeding the cow stays as it is; up to 8640 the feeding counts as on time,
/// up to 12960 as late, beyond that as forgotten. In each of these three
/// cases that one counter grows by one, the others stay, the cow was last
/// fed now, and nothing else of the cow changes.
pub proof fn feeding_buckets_are_exact(cow: CowDataView, now: u32)
    requires
        sound_at(cow, now),
    ensures
        ({
            let distance = now - cow.last_fed_ledger;
            let before = cow.feeding_stats;
            let after = fed_at(cow, now).feeding_stats;
            &&& distance <= 4320 ==> fed_at(cow, now) == cow
            &&& 4320 < distance <= 8640 ==> {
                &&& after.on_time == before.on_time + 1
                &&& after.late == before.late
                &&& after.forget == before.forget
            }
            &&& 8640 < distance <= 12960 ==> {
                &&& after.on_time == before.on_time
                &&& after.late == before.late + 1
                &&& after.forget == before.forget
            }
            &&& 12960 < distance ==> {
                &&& after.on_time == before.on_time
                &&& after.late == before.late
                &&& after.forget == before.forget + 1
            }
            &&& 4320 < distance ==> fed_at(cow, now) == (CowDataView {
                last_fed_ledger: now,
                feeding_stats: after,
                ..cow
            })
        }),
{
}

/// A cow that is still full is not fed: where the cow and the user's list
/// are alive and no more than 4320 ledgers have gone by since the last
/// feeding, the answer is `FullStomach` and nothing changes.
pub proof fn full_cow_is_not_fed(state: FarmView, user: Seq<char>, id: Seq<char>)
    requires
        is_live(state.cows, id, state.ledger),
        is_live(state.owners, user, state.ledger),
        state.ledger - state.cows[id].value.last_fed_ledger <= 4320,
    ensures
        feed_the_cow(state, user, id).result == (CowStatus {
            status: Status::FullStomach,
            ledger: state.ledger,
        }),
        feed_the_cow(state, user, id).state == state,
        feed_the_cow(state, user, id).effects == Seq::<EffectView>::empty(),
{
}

/// A cow younger than 51840 ledgers is never sold: the state stays as it
/// is and nothing is due. The answer is `Underage` wherever the farm is
/// initialized, the seller has a live list and the cow is not up for
/// auction; before that, the answer is that of the check that failed first.
pub proof fn underage_cow_is_not_sold(
    state: FarmView,
    user: Seq<char>,
    id: Seq<char>,
    farm_balance: int,
)
    requires
        is_live(state.cows, id, state.ledger),
        age_of(state.cows[id].value, state.ledger) < 51840,
    ensures
        sell_cow(state, user, id, farm_balance).state == state,
        sell_cow(state, user, id, farm_balance).effects == Seq::<EffectView>::empty(),
        sell_cow(state, user, id, farm_balance).result.status != Status::Success,
        state.config is Some && is_live(state.owners, user, state.ledger)
            && state.cows[id].value.auction_id.len() == 0 ==> sell_cow(
            state,
            user,
            id,
            farm_balance,
        ).result.status == Status::Underage,
{
}

/// A cow younger than 51840 ledgers is never appraised: the answer is
/// `Underage`, without a price.
pub proof fn underage_cow_is_not_appraised(state: FarmView, id: Seq<char>)
    requires
        is_live(state.cows, id, state.ledger),
        age_of(state.cows[id].value, state.ledger) < 51840,
    ensures
        cow_appraisal(state, id).status == Status::Underage,
        cow_appraisal(state, id).price == 0,
{
}

/// After a purchase the buyer's list is alive and holds the new id once
/// more than before: exactly once, where it did not hold it.
pub proof fn bought_cow_is_owned_once(
    state: FarmView,
    user: Seq<char>,
    name: Seq<char>,
    id: Seq<char>,
    breed: CowBreed,
    balance: int,
)
    requires
        valid(state),
        buy_cow(state, user, name, id, breed, balance).result.status == Status::Success,
    ensures
        ({
            let after = buy_cow(state, user, name, id, breed, balance).state;
            let before = list_of(state.owners, user, state.ledger);
            &&& is_live(after.owners, user, after.ledger)
            &&& occurrences(after.owners[user].value, id) == occurrences(before, id) + 1
            &&& !before.contains(id) ==> occurrences(after.owners[user].value, id) == 1
            &&& is_live(after.cows, id, after.ledger)
        }),
{
    let before = list_of(state.owners, user, state.ledger);
    occurrences_after_push(before, id, id);
    occurrences_and_contains(before, id);
}

/// After a sale the cow is gone and the seller's list holds its id once
/// less than before: not at all, where it held it no more than once.
pub proof fn sold_cow_is_owned_no_more(
    state: FarmView,
    user: Seq<char>,
    id: Seq<char>,
    farm_balance: int,
)
    requires
        valid(state),
        sell_cow(state, user, id, farm_balance).result.status == Status::Success,
    ensures
        ({
            let after = sell_cow(state, user, id, farm_balance).state;
            let before = state.owners[user].value;
            &&& is_live(after.owners, user, after.ledger)
            &&& occurrences(before, id) <= 1 ==> !after.owners[user].value.contains(id)
            &&& !after.cows.contains_key(id)
        }),
{
    let before = state.owners[user].value;
    occurrences_without_first(before, id, id);
    occurrences_and_contains(without_first(before, id), id);
}

/// An auction that closes with a winner moves the cow from the seller's
/// list to the winner's. The winner's list is then alive. Where the winner
/// is not the seller, it holds the id once more than before, and the
/// seller's list, if alive, holds it once less (or as often, where it did
/// not hold it). So a cow that the seller held once and the winner did not
/// hold is then held by the winner alone, once. Where the seller has won
/// with a bid of its own, the id is taken out of its list and appended
/// again: the list holds it as often as before, or once where it did not
/// hold it.
pub proof fn auctioned_cow_changes_hands(state: FarmView, auction_id: Seq<char>)
    requires
        valid(state),
        is_live(state.auctions, auction_id, state.ledger),
        state.auctions[auction_id].value.auction_limit_ledger < state.ledger,
        has_real_bid(state.auctions[auction_id].value),
        is_live(state.cows, state.auctions[auction_id].value.cow_id, state.ledger),
    ensures
        ({
            let auction = state.auctions[auction_id].value;
            let seller = auction.owner;
            let winner = auction.highest_bidder.user;
            let id = auction.cow_id;
            let now = state.ledger;
            let after = finalize_auction(state, auction_id).state;
            let sellers = list_of(state.owners, seller, now);
            let winners = list_of(state.owners, winner, now);
            &&& finalize_auction(state, auction_id).result.status == Status::Success
            &&& is_live(after.owners, winner, now)
            &&& winner != seller ==> {
                &&& occurrences(after.owners[winner].value, id) == occurrences(winners, id) + 1
                &&& is_live(state.owners, seller, now) ==> {
                    &&& is_live(after.owners, seller, now)
                    &&& occurrences(sellers, id) > 0 ==> occurrences(
                        after.owners[seller].value,
                        id,
                    ) == occurrences(sellers, id) - 1
                    &&& occurrences(sellers, id) == 0 ==> after.owners[seller].value == sellers
                }
                &&& !is_live(state.owners, seller, now) ==> !is_live(after.owners, seller, now)
            }
            &&& winner == seller ==> {
                &&& occurrences(sellers, id) > 0 ==> occurrences(after.owners[seller].value, id)
                    == occurrences(sellers, id)
                &&& occurrences(sellers, id) == 0 ==> occurrences(after.owners[seller].value, id)
                    == 1
            }
        }),
{
    let auction = state.auctions[auction_id].value;
    let seller = auction.owner;
    let winner = auction.highest_bidder.user;
    let id = auction.cow_id;
    let now = state.ledger;
    let between = ownership_removed(state.owners, seller, id, now);
    occurrences_after_push(list_of(between, winner, now), id, id);
    if is_live(state.owners, seller, now) {
        occurrences_without_first(state.owners[seller].value, id, id);
    }
}

/// A bid that is not above the highest moves no funds and changes nothing;
/// it is answered `CannotBidLower` wherever the farm is initialized and the
/// auction is still open. And a bid that is accepted raises the highest
/// price.
pub proof fn bid_must_be_higher(
    state: FarmView,
    user: Seq<char>,
    auction_id: Seq<char>,
    bid_price: u32,
    balance: int,
)
    requires
        is_live(state.auctions, auction_id, state.ledger),
    ensures
        ({
            let highest = state.auctions[auction_id].value.highest_bidder.price;
            let limit = state.auctions[auction_id].value.auction_limit_ledger;
            let outcome = bidding(state, user, auction_id, bid_price, balance);
            &&& bid_price <= highest ==> {
                &&& outcome.result.status != Status::Success
                &&& outcome.state == state
                &&& outcome.effects == Seq::<EffectView>::empty()
                &&& no_funds_move(outcome.effects)
                &&& state.config is Some && state.ledger <= limit ==> outcome.result.status
                    == Status::CannotBidLower
            }
            &&& outcome.result.status == Status::Success ==> {
                &&& bid_price > highest
                &&& is_live(outcome.state.auctions, auction_id, state.ledger)
                &&& outcome.state.auctions[auction_id].value.highest_bidder.price == bid_price
            }
        }),
{
}

/// An accepted bid takes the bid from the bidder into custody and refunds
/// the bid that it supersedes, at its full price, to the bidder who made
/// it, be it the seller; only the stand-in, the seller at the start price
/// while nobody has bid, is not refunded.
pub proof fn accepted_bid_refunds_the_superseded(
    state: FarmView,
    user: Seq<char>,
    auction_id: Seq<char>,
    bid_price: u32,
    balance: int,
)
    requires
        bidding(state, user, auction_id, bid_price, balance).result.status == Status::Success,
    ensures
        ({
            let auction = state.auctions[auction_id].value;
            let effects = bidding(state, user, auction_id, bid_price, balance).effects;
            &&& effects.len() > 0
            &&& effects[0] == (EffectView::Collect { from: user, amount: bid_price * 10_000_000 })
            &&& has_real_bid(auction) ==> effects.len() == 3 && effects[1] == (EffectView::Pay {
                to: auction.highest_bidder.user,
                amount: auction.highest_bidder.price * 10_000_000,
            }) && !(effects[2] is Pay) && !(effects[2] is Collect)
            &&& !has_real_bid(auction) ==> effects.len() == 1
        }),
{
}

/// Of two accepted bids in a row, the second refunds to the first bidder
/// exactly what the first took into custody, whoever the first bidder is:
/// the seller too.
pub proof fn second_bid_refunds_the_first(
    state: FarmView,
    first: Seq<char>,
    first_price: u32,
    first_balance: int,
    second: Seq<char>,
    second_price: u32,
    second_balance: int,
    auction_id: Seq<char>,
)
    requires
        bidding(state, first, auction_id, first_price, first_balance).result.status
            == Status::Success,
        bidding(
            bidding(state, first, auction_id, first_price, first_balance).state,
            second,
            auction_id,
            second_price,
            second_balance,
        ).result.status == Status::Success,
        valid(state),
    ensures
        ({
            let earlier = bidding(state, first, auction_id, first_price, first_balance);
            let later = bidding(
                earlier.state,
                second,
                auction_id,
                second_price,
                second_balance,
            );
            &&& earlier.effects[0] is Collect
            &&& later.effects.len() == 3
            &&& later.effects[1] == (EffectView::Pay {
                to: first,
                amount: earlier.effects[0]->Collect_amount,
            })
        }),
{
}

/// An auction that was closed is gone: closing it again, now or at any
/// later ledger, is answered `NotFound` and changes nothing.
pub proof fn closed_auction_is_not_found(state: FarmView, auction_id: Seq<char>, later: u32)
    requires
        finalize_auction(state, auction_id).result.status == Status::Success,
    ensures
        ({
            let closed = FarmView { ledger: later, ..finalize_auction(state, auction_id).state };
            &&& finalize_auction(closed, auction_id).result.status == Status::NotFound
            &&& finalize_auction(closed, auction_id).state == closed
            &&& finalize_auction(closed, auction_id).effects == Seq::<EffectView>::empty()
        }),
{
}

/// An operation that does not answer `Success` changes nothing and asks
/// nothing of the host.
pub proof fn refusal_changes_nothing(
    state: FarmView,
    user: Seq<char>,
    name: Seq<char>,
    cow_id: Seq<char>,
    auction_id: Seq<char>,
    breed: CowBreed,
    price: u32,
    balance: int,
)
    ensures
        ({
            let outcome = buy_cow(state, user, name, cow_id, breed, balance);
            outcome.result.status != Status::Success ==> outcome.state == state
                && outcome.effects.len() == 0
        }),
        ({
            let outcome = sell_cow(state, user, cow_id, balance);
            outcome.result.status != Status::Success ==> outcome.state == state
                && outcome.effects.len() == 0
        }),
        ({
            let outcome = feed_the_cow(state, user, cow_id);
            outcome.result.status != Status::Success ==> outcome.state == state
                && outcome.effects.len() == 0
        }),
        ({
            let outcome = register_auction(state, user, cow_id, auction_id, price);
            outcome.result.status != Status::Success ==> outcome.state == state
                && outcome.effects.len() == 0
        }),
        ({
            let outcome = bidding(state, user, auction_id, price, balance);
            outcome.result.status != Status::Success ==> outcome.state == state
                && outcome.effects.len() == 0
        }),
        ({
            let outcome = finalize_auction(state, auction_id);
            outcome.result.status != Status::Success ==> outcome.state == state
                && outcome.effects.len() == 0
        }),
{
}

/// Every operation keeps the farm's state valid.
pub proof fn operations_keep_the_state_valid(
    state: FarmView,
    user: Seq<char>,
    name: Seq<char>,
    cow_id: Seq<char>,
    auction_id: Seq<char>,
    breed: CowBreed,
    price: u32,
    balance: int,
)
    requires
        valid(state),
    ensures
        valid(buy_cow(state, user, name, cow_id, breed, balance).state),
        valid(sell_cow(state, user, cow_id, balance).state),
        valid(feed_the_cow(state, user, cow_id).state),
        valid(register_auction(state, user, cow_id, auction_id, price).state),
        valid(bidding(state, user, auction_id, price, balance).state),
        valid(finalize_auction(state, auction_id).state),
{
}

/// Two states hold the same as far as every record that is alive goes.
pub open spec fn same_live_records(a: FarmView, b: FarmView) -> bool {
    evicted(a) == evicted(b)
}

/// A record whose lifetime has lapsed is as good as absent: the answer of a
/// query is the same with the lapsed records as without them.
pub proof fn lapsed_records_change_no_answer(
    state: FarmView,
    user: Seq<char>,
    cow_id: Seq<char>,
)
    ensures
        cow_appraisal(evicted(state), cow_id) == cow_appraisal(state, cow_id),
        get_all_cow(evicted(state), user) == get_all_cow(state, user),
        get_all_auction(evicted(state)) == get_all_auction(state),
{
    let now = state.ledger;
    if is_live(state.owners, user, now) {
        live_cows_ignore_the_lapsed(state.owners[user].value, state.cows, now);
    }
    if kept_is_live(state.auction_list, now) {
        live_auctions_ignore_the_lapsed(state.auction_list->Some_0.value, state.auctions, now);
    }
}

/// The live cows of a list are the same with the lapsed records as without.
proof fn live_cows_ignore_the_lapsed(
    ids: Seq<Seq<char>>,
    cows: Map<Seq<char>, Record<CowDataView>>,
    now: u32,
)
    ensures
        live_cows(ids, live_part(cows, now), now)
            == live_cows(ids, cows, now),
    decreases ids.len(),
{
    if ids.len() > 0 {
        live_cows_ignore_the_lapsed(ids.drop_last(), cows, now);
    }
}

/// The live auctions of a list are the same with the lapsed records as without.
proof fn live_auctions_ignore_the_lapsed(
    ids: Seq<Seq<char>>,
    auctions: Map<Seq<char>, Record<AuctionDataView>>,
    now: u32,
)
    ensures
        live_auctions(ids, live_part(auctions, now), now)
            == live_auctions(ids, auctions, now),
    decreases ids.len(),
{
    if ids.len() > 0 {
        live_auctions_ignore_the_lapsed(ids.drop_last(), auctions, now);
    }
}

/// A record whose lifetime has lapsed is as good as absent: an operation
/// answers the same and asks the same of the host with the lapsed records
/// as without them, and leaves the same live records.
pub proof fn lapsed_records_change_no_outcome(
    state: FarmView,
    user: Seq<char>,
    name: Seq<char>,
    cow_id: Seq<char>,
    auction_id: Seq<char>,
    breed: CowBreed,
    price: u32,
    balance: int,
)
    ensures
        ({
            let with = buy_cow(state, user, name, cow_id, breed, balance);
            let without = buy_cow(evicted(state), user, name, cow_id, breed, balance);
            with.result == without.result && with.effects == without.effects
                && same_live_records(with.state, without.state)
        }),
        ({
            let with = sell_cow(state, user, cow_id, balance);
            let without = sell_cow(evicted(state), user, cow_id, balance);
            with.result == without.result && with.effects == without.effects
                && same_live_records(with.state, without.state)
        }),
        ({
            let with = feed_the_cow(state, user, cow_id);
            let without = feed_the_cow(evicted(state), user, cow_id);
            with.result == without.result && with.effects == without.effects
                && same_live_records(with.state, without.state)
        }),
        ({
            let with = register_auction(state, user, cow_id, auction_id, price);
            let without = register_auction(evicted(state), user, cow_id, auction_id, price);
            with.result == without.result && with.effects == without.effects
                && same_live_records(with.state, without.state)
        }),
        ({
            let with = bidding(state, user, auction_id, price, balance);
            let without = bidding(evicted(state), user, auction_id, price, balance);
            with.result == without.result && with.effects == without.effects
                && same_live_records(with.state, without.state)
        }),
        ({
            let with = finalize_auction(state, auction_id);
            let without = finalize_auction(evicted(state), auction_id);
            with.result == without.result && with.effects == without.effects
                && same_live_records(with.state, without.state)
        }),
{
    lapsed_make_no_difference_to_buying(state, user, name, cow_id, breed, balance);
    lapsed_make_no_difference_to_selling(state, user, cow_id, balance);
    lapsed_make_no_difference_to_feeding(state, user, cow_id);
    lapsed_make_no_difference_to_registering(state, user, cow_id, auction_id, price);
    lapsed_make_no_difference_to_bidding(state, user, auction_id, price, balance);
    lapsed_make_no_difference_to_closing(state, auction_id);
}

/// Whether two states agree on every record that is alive, field by field.
spec fn agree(a: FarmView, b: FarmView) -> bool {
    &&& a.ledger == b.ledger
    &&& a.config == b.config
    &&& evicted(a).cows =~= evicted(b).cows
    &&& evicted(a).names =~= evicted(b).names
    &&& evicted(a).owners =~= evicted(b).owners
    &&& evicted(a).auctions =~= evicted(b).auctions
    &&& evicted(a).auction_list == evicted(b).auction_list
}

proof fn lapsed_make_no_difference_to_buying(
    state: FarmView,
    user: Seq<char>,
    name: Seq<char>,
    cow_id: Seq<char>,
    breed: CowBreed,
    balance: int,
)
    ensures
        ({
            let with = buy_cow(state, user, name, cow_id, breed, balance);
            let without = buy_cow(evicted(state), user, name, cow_id, breed, balance);
            with.result == without.result && with.effects == without.effects
                && same_live_records(with.state, without.state)
        }),
{
    let with = buy_cow(state, user, name, cow_id, breed, balance);
    let without = buy_cow(evicted(state), user, name, cow_id, breed, balance);
    assert(agree(with.state, without.state));
}

proof fn lapsed_make_no_difference_to_selling(
    state: FarmView,
    user: Seq<char>,
    cow_id: Seq<char>,
    balance: int,
)
    ensures
        ({
            let with = sell_cow(state, user, cow_id, balance);
            let without = sell_cow(evicted(state), user, cow_id, balance);
            with.result == without.result && with.effects == without.effects
                && same_live_records(with.state, without.state)
        }),
{
    let with = sell_cow(state, user, cow_id, balance);
    let without = sell_cow(evicted(state), user, cow_id, balance);
    assert(agree(with.state, without.state));
}

proof fn lapsed_make_no_difference_to_feeding(state: FarmView, user: Seq<char>, cow_id: Seq<char>)
    ensures
        ({
            let with = feed_the_cow(state, user, cow_id);
            let without = feed_the_cow(evicted(state), user, cow_id);
            with.result == without.result && with.effects == without.effects
                && same_live_records(with.state, without.state)
        }),
{
    let with = feed_the_cow(state, user, cow_id);
    let without = feed_the_cow(evicted(state), user, cow_id);
    assert(agree(with.state, without.state));
}

proof fn lapsed_make_no_difference_to_registering(
    state: FarmView,
    user: Seq<char>,
    cow_id: Seq<char>,
    auction_id: Seq<char>,
    price: u32,
)
    ensures
        ({
            let with = register_auction(state, user, cow_id, auction_id, price);
            let without = register_auction(evicted(state), user, cow_id, auction_id, price);
            with.result == without.result && with.effects == without.effects
                && same_live_records(with.state, without.state)
        }),
{
    let with = register_auction(state, user, cow_id, auction_id, price);
    let without = register_auction(evicted(state), user, cow_id, auction_id, price);
    assert(agree(with.state, without.state));
}

proof fn lapsed_make_no_difference_to_bidding(
    state: FarmView,
    user: Seq<char>,
    auction_id: Seq<char>,
    price: u32,
    balance: int,
)
    ensures
        ({
            let with = bidding(state, user, auction_id, price, balance);
            let without = bidding(evicted(state), user, auction_id, price, balance);
            with.result == without.result && with.effects == without.effects
                && same_live_records(with.state, without.state)
        }),
{
    let with = bidding(state, user, auction_id, price, balance);
    let without = bidding(evicted(state), user, auction_id, price, balance);
    assert(agree(with.state, without.state));
}

proof fn lapsed_make_no_difference_to_closing(state: FarmView, auction_id: Seq<char>)
    ensures
        ({
            let with = finalize_auction(state, auction_id);
            let without = finalize_auction(evicted(state), auction_id);
            with.result == without.result && with.effects == without.effects
                && same_live_records(with.state, without.state)
        }),
{
    let with = finalize_auction(state, auction_id);
    let without = finalize_auction(evicted(state), auction_id);
    assert(agree(with.state, without.state));
}

} // verus!

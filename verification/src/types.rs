//! The farm's records and the results of its operations, each with the
//! mathematical value (its view) that the contracts speak of.

use vstd::prelude::*;
use crate::enums::{CowBreed, Status};

verus! {

/// The values of a sequence of items, one for one.
pub open spec fn views<T: View>(items: Seq<T>) -> Seq<T::V> {
    items.map_values(|item: T| item@)
}

/// A principal: a user or a contract, known by the text of its key.
/// Two addresses are the same principal when their texts are equal.
#[derive(Debug, PartialEq, Eq)]
pub struct Address {
    pub key: String,
}

impl View for Address {
    type V = Seq<char>;

    open spec fn view(&self) -> Seq<char> {
        self.key@
    }
}

impl Address {
    /// The address with the given key.
    pub fn new(key: String) -> (address: Address)
        ensures
            address@ == key@,
    {
        Address { key }
    }

    /// Whether both name the same principal.
    pub fn same(&self, other: &Address) -> (same: bool)
        ensures
            same == (self@ == other@),
    {
        self.key == other.key
    }
}

impl Clone for Address {
    fn clone(&self) -> (copy: Address)
        ensures
            copy@ == self@,
    {
        Address { key: self.key.clone() }
    }
}

/// How often a cow was fed on time, late, or only after it had been forgotten.
#[derive(Clone, Copy, Debug, PartialEq, Eq, Structural, PartialOrd, Ord)]
pub struct CowFeedingStats {
    pub on_time: u32,
    pub late: u32,
    pub forget: u32,
}

impl CowFeedingStats {
    /// The record of a cow that was never fed.
    pub fn new() -> (stats: CowFeedingStats)
        ensures
            stats == (CowFeedingStats { on_time: 0, late: 0, forget: 0 }),
    {
        CowFeedingStats { on_time: 0, late: 0, forget: 0 }
    }

    /// The number of feedings on record.
    pub open spec fn feedings(self) -> int {
        self.on_time + self.late + self.forget
    }
}

/// A cow as the registry holds it. An empty `auction_id` means that the cow
/// is not up for auction.
#[derive(Debug, PartialEq, Eq)]
pub struct CowData {
    pub id: String,
    pub name: String,
    pub breed: CowBreed,
    pub born_ledger: u32,
    pub last_fed_ledger: u32,
    pub feeding_stats: CowFeedingStats,
    pub auction_id: String,
}

/// The value of a [`CowData`].
pub ghost struct CowDataView {
    pub id: Seq<char>,
    pub name: Seq<char>,
    pub breed: CowBreed,
    pub born_ledger: u32,
    pub last_fed_ledger: u32,
    pub feeding_stats: CowFeedingStats,
    pub auction_id: Seq<char>,
}

impl View for CowData {
    type V = CowDataView;

    open spec fn view(&self) -> CowDataView {
        CowDataView {
            id: self.id@,
            name: self.name@,
            breed: self.breed,
            born_ledger: self.born_ledger,
            last_fed_ledger: self.last_fed_ledger,
            feeding_stats: self.feeding_stats,
            auction_id: self.auction_id@,
        }
    }
}

impl Clone for CowData {
    fn clone(&self) -> (copy: CowData)
        ensures
            copy@ == self@,
    {
        CowData {
            id: self.id.clone(),
            name: self.name.clone(),
            breed: self.breed,
            born_ledger: self.born_ledger,
            last_fed_ledger: self.last_fed_ledger,
            feeding_stats: self.feeding_stats,
            auction_id: self.auction_id.clone(),
        }
    }
}

/// A status with the ledger at which it was given (after a feeding: the
/// ledger of that feeding).
#[derive(Clone, Copy, Debug, PartialEq, Eq, Structural, PartialOrd, Ord)]
pub struct CowStatus {
    pub status: Status,
    pub ledger: u32,
}

impl CowStatus {
    /// The given status at the given ledger.
    pub fn new(ledger: u32, return_status: Status) -> (result: CowStatus)
        ensures
            result == (CowStatus { status: return_status, ledger }),
    {
        CowStatus { status: return_status, ledger }
    }
}

/// The outcome of an appraisal: the price is in stroops, and 0 unless the
/// status is `Success`.
#[derive(Clone, Copy, Debug, PartialEq, Eq, Structural, PartialOrd, Ord)]
pub struct CowAppraisalResult {
    pub status: Status,
    pub price: i128,
}

impl CowAppraisalResult {
    /// The given status with no price.
    pub fn new(return_status: Status) -> (result: CowAppraisalResult)
        ensures
            result == (CowAppraisalResult { status: return_status, price: 0 }),
    {
        CowAppraisalResult { status: return_status, price: 0 }
    }
}

/// A bid: who made it and the price offered, in native units.
#[derive(Debug, PartialEq, Eq)]
pub struct Bidder {
    pub user: Address,
    pub price: i128,
}

/// The value of a [`Bidder`].
pub ghost struct BidderView {
    pub user: Seq<char>,
    pub price: i128,
}

impl View for Bidder {
    type V = BidderView;

    open spec fn view(&self) -> BidderView {
        BidderView { user: self.user@, price: self.price }
    }
}

impl Clone for Bidder {
    fn clone(&self) -> (copy: Bidder)
        ensures
            copy@ == self@,
    {
        Bidder { user: self.user.clone(), price: self.price }
    }
}

/// An auction as the market holds it. While nobody has bid, the highest
/// bidder is the seller at the start price.
#[derive(Debug, PartialEq, Eq)]
pub struct AuctionData {
    pub auction_id: String,
    pub cow_id: String,
    pub cow_name: String,
    pub cow_breed: CowBreed,
    pub cow_born_ledger: u32,
    pub owner: Address,
    pub start_price: i128,
    pub highest_bidder: Bidder,
    pub bid_history: Vec<Bidder>,
    pub auction_limit_ledger: u32,
}

/// The value of an [`AuctionData`].
pub ghost struct AuctionDataView {
    pub auction_id: Seq<char>,
    pub cow_id: Seq<char>,
    pub cow_name: Seq<char>,
    pub cow_breed: CowBreed,
    pub cow_born_ledger: u32,
    pub owner: Seq<char>,
    pub start_price: i128,
    pub highest_bidder: BidderView,
    pub bid_history: Seq<BidderView>,
    pub auction_limit_ledger: u32,
}

impl View for AuctionData {
    type V = AuctionDataView;

    open spec fn view(&self) -> AuctionDataView {
        AuctionDataView {
            auction_id: self.auction_id@,
            cow_id: self.cow_id@,
            cow_name: self.cow_name@,
            cow_breed: self.cow_breed,
            cow_born_ledger: self.cow_born_ledger,
            owner: self.owner@,
            start_price: self.start_price,
            highest_bidder: self.highest_bidder@,
            bid_history: views(self.bid_history@),
            auction_limit_ledger: self.auction_limit_ledger,
        }
    }
}

impl Clone for AuctionData {
    fn clone(&self) -> (copy: AuctionData)
        ensures
            copy@ == self@,
    {
        let mut bid_history: Vec<Bidder> = Vec::new();
        let mut i: usize = 0;
        while i < self.bid_history.len()
            invariant
                i <= self.bid_history.len(),
                bid_history.len() == i,
                forall|j: int| 0 <= j < i ==> bid_history[j]@ == self.bid_history[j]@,
            decreases self.bid_history.len() - i,
        {
            bid_history.push(self.bid_history[i].clone());
            i = i + 1;
        }
        proof {
            assert(views(bid_history@) =~= views(self.bid_history@));
        }
        AuctionData {
            auction_id: self.auction_id.clone(),
            cow_id: self.cow_id.clone(),
            cow_name: self.cow_name.clone(),
            cow_breed: self.cow_breed,
            cow_born_ledger: self.cow_born_ledger,
            owner: self.owner.clone(),
            start_price: self.start_price,
            highest_bidder: self.highest_bidder.clone(),
            bid_history,
            auction_limit_ledger: self.auction_limit_ledger,
        }
    }
}

/// The outcome of a purchase: on success the new cow and the buyer's cows.
#[derive(Debug, PartialEq, Eq)]
pub struct BuyCowResult {
    pub status: Status,
    pub cow_data: Vec<CowData>,
    pub ownership: Vec<String>,
}

/// The value of a [`BuyCowResult`].
pub ghost struct BuyCowResultView {
    pub status: Status,
    pub cow_data: Seq<CowDataView>,
    pub ownership: Seq<Seq<char>>,
}

impl View for BuyCowResult {
    type V = BuyCowResultView;

    open spec fn view(&self) -> BuyCowResultView {
        BuyCowResultView {
            status: self.status,
            cow_data: views(self.cow_data@),
            ownership: views(self.ownership@),
        }
    }
}

impl BuyCowResult {
    /// The given status with no cow and no ownership.
    pub fn new(return_status: Status) -> (result: BuyCowResult)
        ensures
            result@ == (BuyCowResultView {
                status: return_status,
                cow_data: Seq::empty(),
                ownership: Seq::empty(),
            }),
    {
        let result = BuyCowResult {
            status: return_status,
            cow_data: Vec::new(),
            ownership: Vec::new(),
        };
        proof {
            assert(views(result.cow_data@) =~= Seq::empty());
            assert(views(result.ownership@) =~= Seq::empty());
        }
        result
    }
}

/// The outcome of a sale: on success the cows that the seller has left.
#[derive(Debug, PartialEq, Eq)]
pub struct SellCowResult {
    pub status: Status,
    pub ownership: Vec<String>,
}

/// The value of a [`SellCowResult`].
pub ghost struct SellCowResultView {
    pub status: Status,
    pub ownership: Seq<Seq<char>>,
}

impl View for SellCowResult {
    type V = SellCowResultView;

    open spec fn view(&self) -> SellCowResultView {
        SellCowResultView { status: self.status, ownership: views(self.ownership@) }
    }
}

impl SellCowResult {
    /// The given status with no ownership.
    pub fn new(return_status: Status) -> (result: SellCowResult)
        ensures
            result@ == (SellCowResultView { status: return_status, ownership: Seq::empty() }),
    {
        let result = SellCowResult { status: return_status, ownership: Vec::new() };
        proof {
            assert(views(result.ownership@) =~= Seq::empty());
        }
        result
    }
}

/// The outcome of listing an owner's cows.
#[derive(Debug, PartialEq, Eq)]
pub struct GetAllCowResult {
    pub status: Status,
    pub data: Vec<CowData>,
}

/// The value of a [`GetAllCowResult`].
pub ghost struct GetAllCowResultView {
    pub status: Status,
    pub data: Seq<CowDataView>,
}

impl View for GetAllCowResult {
    type V = GetAllCowResultView;

    open spec fn view(&self) -> GetAllCowResultView {
        GetAllCowResultView { status: self.status, data: views(self.data@) }
    }
}

/// The outcome of an operation of the market.
#[derive(Debug, PartialEq, Eq)]
pub struct AuctionResult {
    pub status: Status,
    pub auction_data: Vec<AuctionData>,
}

/// The value of an [`AuctionResult`].
pub ghost struct AuctionResultView {
    pub status: Status,
    pub auction_data: Seq<AuctionDataView>,
}

impl View for AuctionResult {
    type V = AuctionResultView;

    open spec fn view(&self) -> AuctionResultView {
        AuctionResultView { status: self.status, auction_data: views(self.auction_data@) }
    }
}

impl AuctionResult {
    /// The given status with no auction.
    pub fn default(return_status: Status) -> (result: AuctionResult)
        ensures
            result@ == (AuctionResultView { status: return_status, auction_data: Seq::empty() }),
    {
        let result = AuctionResult { status: return_status, auction_data: Vec::new() };
        proof {
            assert(views(result.auction_data@) =~= Seq::empty());
        }
        result
    }
}

/// What is told about a cow when it is bought, sold or fed.
#[derive(Debug, PartialEq, Eq)]
pub struct CowEventDetails {
    pub id: String,
    pub name: String,
    pub owner: Address,
    pub last_fed_ledger: u32,
}

/// The value of a [`CowEventDetails`].
pub ghost struct CowEventDetailsView {
    pub id: Seq<char>,
    pub name: Seq<char>,
    pub owner: Seq<char>,
    pub last_fed_ledger: u32,
}

impl View for CowEventDetails {
    type V = CowEventDetailsView;

    open spec fn view(&self) -> CowEventDetailsView {
        CowEventDetailsView {
            id: self.id@,
            name: self.name@,
            owner: self.owner@,
            last_fed_ledger: self.last_fed_ledger,
        }
    }
}

/// What is told about an auction when it is registered, when a bid is
/// refunded and when it is closed with a winner.
#[derive(Debug, PartialEq, Eq)]
pub struct AuctionEventDetails {
    pub auction_id: String,
    pub bidder: Address,
    pub price: i128,
}

/// The value of an [`AuctionEventDetails`].
pub ghost struct AuctionEventDetailsView {
    pub auction_id: Seq<char>,
    pub bidder: Seq<char>,
    pub price: i128,
}

impl View for AuctionEventDetails {
    type V = AuctionEventDetailsView;

    open spec fn view(&self) -> AuctionEventDetailsView {
        AuctionEventDetailsView {
            auction_id: self.auction_id@,
            bidder: self.bidder@,
            price: self.price,
        }
    }
}

} // verus!

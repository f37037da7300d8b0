//! The executable farm: the state machine of the model over the stores,
//! with every operation proved to yield what the model says.

use vstd::prelude::*;
use crate::constants::{
    LAST_LEDGER, LEDGER_AMOUNT_IN_12_HOURS, LEDGER_AMOUNT_IN_1_MONTH, LEDGER_AMOUNT_IN_1_WEEK,
    LEDGER_AMOUNT_IN_24_HOURS, LEDGER_AMOUNT_IN_3_DAYS, MINIMUM_USER_BALANCE, STROOPS_PER_UNIT,
};
use crate::effects::{Effect, Topic};
use crate::enums::{CowBreed, DataKey, Status};
use crate::farm;
use crate::farm::{valid, ConfigView, FarmView};
use crate::feeding::{feed, sound_at};
use crate::ids::IdList;
use crate::ownership::{ownership_add, ownership_remove};
use crate::pricing::{
    appraisal_of_a_breed_fits, get_cow_appraisal_price, get_cow_base_price_in_stroops,
};
use crate::registry;
use crate::store::{is_live, kept_is_live, Kept, Record, Store};
use crate::types::{
    views, Address, AuctionData, AuctionEventDetails, AuctionResult, Bidder, BuyCowResult,
    CowAppraisalResult, CowData, CowEventDetails, CowFeedingStats, CowStatus, GetAllCowResult,
    SellCowResult,
};

verus! {

/// The farm's configuration: who administers it and on which token it is paid.
#[derive(Debug, PartialEq, Eq)]
pub struct Config {
    pub admin: Address,
    pub native_token: Address,
    pub initialized_ledger: u32,
}

impl View for Config {
    type V = ConfigView;

    open spec fn view(&self) -> ConfigView {
        ConfigView {
            admin: self.admin@,
            native_token: self.native_token@,
            initialized_ledger: self.initialized_ledger,
        }
    }
}

/// Whether somebody has bid at the auction: its highest bid is no longer the
/// seller's stand-in at the start price.
pub fn has_real_bid(auction: &AuctionData) -> (somebody_has_bid: bool)
    ensures
        somebody_has_bid == farm::has_real_bid(auction@),
{
    let by_seller: bool = auction.highest_bidder.user.same(&auction.owner);
    let at_start: bool = auction.highest_bidder.price == auction.start_price;
    !(by_seller && at_start)
}

/// The farm: a clock, the configuration, and the stores of cows, names,
/// ownerships and auctions.
pub struct CowContract {
    ledger: u32,
    config: Option<Config>,
    cows: Store<CowData>,
    names: Store<String>,
    owners: Store<IdList>,
    auctions: Store<AuctionData>,
    auction_list: Kept<IdList>,
}

impl View for CowContract {
    type V = FarmView;

    closed spec fn view(&self) -> FarmView {
        FarmView {
            ledger: self.ledger,
            config: match self.config {
                Some(config) => Some(config@),
                None => None,
            },
            cows: self.cows@,
            names: self.names@,
            owners: self.owners@,
            auctions: self.auctions@,
            auction_list: self.auction_list@,
        }
    }
}

impl CowContract {
    /// The farm's invariant: its stores are in order and its state is valid.
    pub closed spec fn well_formed(&self) -> bool {
        &&& self.cows.well_formed()
        &&& self.names.well_formed()
        &&& self.owners.well_formed()
        &&& self.auctions.well_formed()
        &&& valid(self@)
    }

    /// A farm that is well formed has a valid state.
    pub proof fn well_formed_is_valid(&self)
        requires
            self.well_formed(),
        ensures
            valid(self@),
    {
    }

    /// The empty farm at ledger 0, not yet initialized.
    pub fn new() -> (contract: CowContract)
        ensures
            contract.well_formed(),
            contract@ == (FarmView {
                ledger: 0,
                config: None,
                cows: Map::empty(),
                names: Map::empty(),
                owners: Map::empty(),
                auctions: Map::empty(),
                auction_list: None,
            }),
    {
        CowContract {
            ledger: 0,
            config: None,
            cows: Store::new(),
            names: Store::new(),
            owners: Store::new(),
            auctions: Store::new(),
            auction_list: Kept::new(),
        }
    }

    /// The current ledger.
    pub fn ledger(&self) -> (ledger: u32)
        ensures
            ledger == self@.ledger,
    {
        self.ledger
    }

    /// Moves the clock to `ledger` and says whether it did: the clock does
    /// not go back, nor beyond the last ledger at which every window fits.
    pub fn set_ledger(&mut self, ledger: u32) -> (moved: bool)
        requires
            old(self).well_formed(),
        ensures
            final(self).well_formed(),
            moved == (old(self)@.ledger <= ledger <= LAST_LEDGER),
            final(self)@ == if moved {
                FarmView { ledger, ..old(self)@ }
            } else {
                old(self)@
            },
    {
        if self.ledger <= ledger && ledger <= LAST_LEDGER {
            self.ledger = ledger;
            true
        } else {
            false
        }
    }

    /// Evicts every record whose lifetime has lapsed at the current ledger.
    /// No operation tells a lapsed record from an absent one, so this
    /// changes no answer; it only frees what the lapsed records took.
    pub fn evict(&mut self)
        requires
            old(self).well_formed(),
        ensures
            final(self).well_formed(),
            final(self)@ == farm::evicted(old(self)@),
    {
        let now: u32 = self.ledger;
        self.cows.evict(now);
        self.names.evict(now);
        self.owners.evict(now);
        self.auctions.evict(now);
        self.auction_list.evict(now);
    }

    /// Initializes the farm with its administrator and its token.
    /// `TryAgain` where `message` is not the farm's `password`,
    /// `AlreadyInitialized` where the farm has its configuration; else the
    /// configuration is kept, with the current ledger.
    pub fn init(
        &mut self,
        admin: Address,
        native_token: Address,
        message: &String,
        password: &String,
    ) -> (status: Status)
        requires
            old(self).well_formed(),
        ensures
            final(self).well_formed(),
            final(self)@ == farm::init(
                old(self)@,
                admin@,
                native_token@,
                message@,
                password@,
            ).state,
            status == farm::init(old(self)@, admin@, native_token@, message@, password@).result,
    {
        if *message != *password {
            return Status::TryAgain;
        }
        if self.config.is_some() {
            return Status::AlreadyInitialized;
        }
        self.config = Some(Config { admin, native_token, initialized_ledger: self.ledger });
        Status::Success
    }

    /// The configuration, once the farm is initialized.
    pub fn config(&self) -> (config: Option<&Config>)
        ensures
            config is Some <==> self@.config is Some,
            config is Some ==> config->Some_0@ == self@.config->Some_0,
    {
        self.config.as_ref()
    }

    /// Who administers the farm, or `NotInitialized` before the farm is
    /// initialized: only the administrator may upgrade the farm or extend
    /// the life of its configuration.
    pub fn admin(&self) -> (admin: Result<&Address, Status>)
        ensures
            admin is Ok <==> self@.config is Some,
            admin is Ok ==> admin->Ok_0@ == self@.config->Some_0.admin,
            admin is Err ==> admin->Err_0 == Status::NotInitialized,
    {
        match &self.config {
            Some(config) => Ok(&config.admin),
            None => Err(Status::NotInitialized),
        }
    }

    /// Whether the farm may be upgraded: `Upgraded` once it is initialized,
    /// for the host to put the new code in place with the administrator's
    /// authorization; `NotInitialized` before.
    pub fn upgrade(&self) -> (status: Status)
        ensures
            status == if self@.config is Some {
                Status::Upgraded
            } else {
                Status::NotInitialized
            },
    {
        match self.admin() {
            Ok(_) => Status::Upgraded,
            Err(status) => status,
        }
    }

    /// Whether the life of the farm's configuration may be extended:
    /// `Bumped` once the farm is initialized, for the host to extend it with
    /// the administrator's authorization; `NotInitialized` before.
    pub fn bump_instance(&self) -> (status: Status)
        ensures
            status == if self@.config is Some {
                Status::Bumped
            } else {
                Status::NotInitialized
            },
    {
        match self.admin() {
            Ok(_) => Status::Bumped,
            Err(status) => status,
        }
    }

    /// Whether the farm holds something under the given key: the
    /// configuration keys once it is initialized, the list of open auctions
    /// while its record is alive.
    pub fn has_key(&self, key: DataKey) -> (present: bool)
        ensures
            present == match key {
                DataKey::AuctionList => kept_is_live(self@.auction_list, self@.ledger),
                _ => self@.config is Some,
            },
    {
        match key {
            DataKey::AuctionList => self.auction_list.has(self.ledger),
            _ => self.config.is_some(),
        }
    }

    /// The farm's answer to a health check: `Success`, at the current ledger.
    pub fn health_check(&self) -> (result: CowStatus)
        ensures
            result == (CowStatus { status: Status::Success, ledger: self@.ledger }),
    {
        CowStatus { status: Status::Success, ledger: self.ledger }
    }

    /// Takes a donation of `amount` native units from `from`: due is the
    /// transfer of that amount in stroops. A farm that is not initialized
    /// answers `Fail`.
    pub fn open_donation(&self, from: &Address, amount: i128) -> (out: (Status, Vec<Effect>))
        requires
            self@.config is Some ==> i128::MIN <= amount * 10_000_000 <= i128::MAX,
        ensures
            out.0 == farm::open_donation(self@, from@, amount as int).result,
            views(out.1@) == farm::open_donation(self@, from@, amount as int).effects,
    {
        let mut effects: Vec<Effect> = Vec::new();
        if self.config.is_none() {
            return (Status::Fail, effects);
        }
        let donation_amount: i128 = amount * STROOPS_PER_UNIT;
        effects.push(Effect::Collect { from: from.clone(), amount: donation_amount });
        (Status::Success, effects)
    }

    /// Appraises the cow under `cow_id`: `NotFound` where no such cow is
    /// alive, `Underage` before it is three days old, else its worth.
    pub fn cow_appraisal(&self, cow_id: &String) -> (result: CowAppraisalResult)
        requires
            self.well_formed(),
        ensures
            result == farm::cow_appraisal(self@, cow_id@),
    {
        let cow_data: &CowData = match registry::get(&self.cows, cow_id, self.ledger) {
            Ok(cow_data) => cow_data,
            Err(status) => {
                return CowAppraisalResult::new(status);
            },
        };
        let cow_base_price: i128 = get_cow_base_price_in_stroops(&cow_data.breed);
        let cow_age: u32 = self.ledger - cow_data.born_ledger;
        if cow_age < LEDGER_AMOUNT_IN_3_DAYS {
            return CowAppraisalResult::new(Status::Underage);
        }
        proof {
            appraisal_of_a_breed_fits(cow_data.feeding_stats, cow_data.breed);
        }
        let cow_price_appraisal: i128 = get_cow_appraisal_price(cow_data, cow_base_price);
        CowAppraisalResult { status: Status::Success, price: cow_price_appraisal }
    }

    /// Feeds the cow under `cow_id`. `NotFound` where no such cow is alive,
    /// `MissingOwnership` where the user has no live list of cows,
    /// `FullStomach` up to 4320 ledgers after the last feeding; else the
    /// feeding is counted, and the cow, its name and the user's list live on.
    pub fn feed_the_cow(&mut self, user: &Address, cow_id: &String) -> (out: (
        CowStatus,
        Vec<Effect>,
    ))
        requires
            old(self).well_formed(),
        ensures
            final(self).well_formed(),
            final(self)@ == farm::feed_the_cow(old(self)@, user@, cow_id@).state,
            out.0 == farm::feed_the_cow(old(self)@, user@, cow_id@).result,
            views(out.1@) == farm::feed_the_cow(old(self)@, user@, cow_id@).effects,
    {
        let now: u32 = self.ledger;
        let mut effects: Vec<Effect> = Vec::new();
        let mut cow_data: CowData = match registry::get(&self.cows, cow_id, now) {
            Ok(cow_data) => cow_data.clone(),
            Err(status) => {
                return (CowStatus::new(now, status), effects);
            },
        };
        if !self.owners.has(&user.key, now) {
            return (CowStatus::new(now, Status::MissingOwnership), effects);
        }
        match feed(&mut cow_data, now) {
            Status::Success => {},
            _ => {
                return (CowStatus::new(now, Status::FullStomach), effects);
            },
        }
        let cow_name: String = cow_data.name.clone();
        let event = CowEventDetails {
            id: cow_data.id.clone(),
            name: cow_data.name.clone(),
            owner: user.clone(),
            last_fed_ledger: cow_data.last_fed_ledger,
        };
        self.cows.set(cow_id, cow_data, now);
        self.cows.renew(cow_id, now, LEDGER_AMOUNT_IN_24_HOURS);
        self.names.renew(&cow_name, now, LEDGER_AMOUNT_IN_24_HOURS);
        self.owners.renew(&user.key, now, LEDGER_AMOUNT_IN_1_WEEK);
        effects.push(Effect::CowEvent { topic: Topic::Feed, cow: event });
        (CowStatus { status: Status::Success, ledger: now }, effects)
    }

    /// Buys a cow for `user`, who holds `user_balance` stroops.
    /// `NotInitialized` before the farm is initialized, `Duplicate` where a
    /// live cow bears the name, `InsufficientFund` where the price would
    /// leave the buyer no more than the minimum balance; else the cow is
    /// born, joins the buyer's list, and the price is due.
    pub fn buy_cow(
        &mut self,
        user: &Address,
        cow_name: &String,
        cow_id: &String,
        cow_breed: CowBreed,
        user_balance: i128,
    ) -> (out: (BuyCowResult, Vec<Effect>))
        requires
            old(self).well_formed(),
        ensures
            final(self).well_formed(),
            final(self)@ == farm::buy_cow(
                old(self)@,
                user@,
                cow_name@,
                cow_id@,
                cow_breed,
                user_balance as int,
            ).state,
            out.0@ == farm::buy_cow(
                old(self)@,
                user@,
                cow_name@,
                cow_id@,
                cow_breed,
                user_balance as int,
            ).result,
            views(out.1@) == farm::buy_cow(
                old(self)@,
                user@,
                cow_name@,
                cow_id@,
                cow_breed,
                user_balance as int,
            ).effects,
    {
        let now: u32 = self.ledger;
        let ghost model = farm::buy_cow(
            old(self)@,
            user@,
            cow_name@,
            cow_id@,
            cow_breed,
            user_balance as int,
        );
        let mut effects: Vec<Effect> = Vec::new();
        if self.config.is_none() {
            return (BuyCowResult::new(Status::NotInitialized), effects);
        }
        if self.names.has(cow_name, now) {
            return (BuyCowResult::new(Status::Duplicate), effects);
        }
        let cow_price_in_stroops: i128 = get_cow_base_price_in_stroops(&cow_breed);
        if user_balance <= MINIMUM_USER_BALANCE + cow_price_in_stroops {
            return (BuyCowResult::new(Status::InsufficientFund), effects);
        }
        effects.push(Effect::Collect { from: user.clone(), amount: cow_price_in_stroops });
        let new_cow_data = CowData {
            id: cow_id.clone(),
            name: cow_name.clone(),
            breed: cow_breed,
            born_ledger: now,
            last_fed_ledger: now,
            feeding_stats: CowFeedingStats::new(),
            auction_id: String::new(),
        };
        let event = CowEventDetails {
            id: cow_id.clone(),
            name: cow_name.clone(),
            owner: user.clone(),
            last_fed_ledger: now,
        };
        let ownership: IdList = ownership_add(&mut self.owners, user, cow_id, now);
        let mut cow_data_list: Vec<CowData> = Vec::new();
        cow_data_list.push(new_cow_data.clone());
        let _ = registry::create(&mut self.cows, &mut self.names, new_cow_data, now);
        effects.push(Effect::CowEvent { topic: Topic::Buy, cow: event });
        let result = BuyCowResult {
            status: Status::Success,
            cow_data: cow_data_list,
            ownership: ownership.ids,
        };
        proof {
            assert(views(result.cow_data@) =~= model.result.cow_data);
        }
        (result, effects)
    }

    /// Sells the cow under `cow_id` back to the supplier, while the farm
    /// holds `farm_balance` stroops. Refused, in this order, as
    /// `NotInitialized`, `NotFound` (no such cow alive), `MissingOwnership`
    /// (no live list of the user), `OnAuction`, `Underage` (younger than
    /// three days) and `InsufficientFund` (the farm cannot pay the cow's
    /// worth); else the cow and its name are gone, its id leaves the user's
    /// list, and its worth is due to the user.
    pub fn sell_cow(&mut self, user: &Address, cow_id: &String, farm_balance: i128) -> (out: (
        SellCowResult,
        Vec<Effect>,
    ))
        requires
            old(self).well_formed(),
        ensures
            final(self).well_formed(),
            final(self)@ == farm::sell_cow(old(self)@, user@, cow_id@, farm_balance as int).state,
            out.0@ == farm::sell_cow(old(self)@, user@, cow_id@, farm_balance as int).result,
            views(out.1@) == farm::sell_cow(
                old(self)@,
                user@,
                cow_id@,
                farm_balance as int,
            ).effects,
    {
        let now: u32 = self.ledger;
        let mut effects: Vec<Effect> = Vec::new();
        if self.config.is_none() {
            return (SellCowResult::new(Status::NotInitialized), effects);
        }
        let cow_data: CowData = match registry::get(&self.cows, cow_id, now) {
            Ok(cow_data) => cow_data.clone(),
            Err(status) => {
                return (SellCowResult::new(status), effects);
            },
        };
        if !self.owners.has(&user.key, now) {
            return (SellCowResult::new(Status::MissingOwnership), effects);
        }
        if !cow_data.auction_id.as_str().is_empty() {
            return (SellCowResult::new(Status::OnAuction), effects);
        }
        let cow_age: u32 = now - cow_data.born_ledger;
        if cow_age < LEDGER_AMOUNT_IN_3_DAYS {
            return (SellCowResult::new(Status::Underage), effects);
        }
        let cow_base_price: i128 = get_cow_base_price_in_stroops(&cow_data.breed);
        proof {
            appraisal_of_a_breed_fits(cow_data.feeding_stats, cow_data.breed);
        }
        let cow_selling_price: i128 = get_cow_appraisal_price(&cow_data, cow_base_price);
        if farm_balance < cow_selling_price {
            return (SellCowResult::new(Status::InsufficientFund), effects);
        }
        effects.push(Effect::Pay { to: user.clone(), amount: cow_selling_price });
        let ownership: IdList = match ownership_remove(&mut self.owners, user, cow_id, now) {
            Some(list) => list,
            None => IdList::new(),
        };
        registry::remove(&mut self.cows, &mut self.names, cow_id, now);
        let event = CowEventDetails {
            id: cow_data.id,
            name: cow_data.name,
            owner: user.clone(),
            last_fed_ledger: cow_data.last_fed_ledger,
        };
        effects.push(Effect::CowEvent { topic: Topic::Sell, cow: event });
        let result = SellCowResult { status: Status::Success, ownership: ownership.ids };
        (result, effects)
    }

    /// Lists the cows of `user` that are alive, in the order of the user's
    /// list; `Fail` where the user has no live list.
    pub fn get_all_cow(&self, user: &Address) -> (result: GetAllCowResult)
        requires
            self.well_formed(),
        ensures
            result@ == farm::get_all_cow(self@, user@),
    {
        let now: u32 = self.ledger;
        let mut cow_data_list: Vec<CowData> = Vec::new();
        let ownership_data: &IdList = match self.owners.get(&user.key, now) {
            Some(list) => list,
            None => {
                proof {
                    assert(views(cow_data_list@) =~= Seq::empty());
                }
                return GetAllCowResult { status: Status::Fail, data: cow_data_list };
            },
        };
        let mut i: usize = 0;
        while i < ownership_data.len()
            invariant
                self.well_formed(),
                now == self@.ledger,
                i <= ownership_data@.len(),
                views(cow_data_list@) == farm::live_cows(
                    ownership_data@.take(i as int),
                    self@.cows,
                    now,
                ),
            decreases ownership_data@.len() - i,
        {
            proof {
                let next = ownership_data@.take(i + 1);
                assert(next.drop_last() =~= ownership_data@.take(i as int));
            }
            match self.cows.get(ownership_data.get(i), now) {
                Some(cow_data) => {
                    cow_data_list.push(cow_data.clone());
                },
                None => {},
            }
            i = i + 1;
        }
        proof {
            assert(ownership_data@.take(i as int) =~= ownership_data@);
        }
        GetAllCowResult { status: Status::Success, data: cow_data_list }
    }

    /// Puts the cow under `cow_id` up for auction under `auction_id`, from
    /// `price` native units. `NotInitialized` before the farm is
    /// initialized, `NotFound` where no such cow is alive, `Fail` where the
    /// cow is up for auction already; else the auction opens for twelve
    /// hours with the seller standing in as highest bidder, the cow refers
    /// to it, and its id joins the open auctions.
    pub fn register_auction(
        &mut self,
        user: &Address,
        cow_id: &String,
        auction_id: &String,
        price: u32,
    ) -> (out: (AuctionResult, Vec<Effect>))
        requires
            old(self).well_formed(),
        ensures
            final(self).well_formed(),
            final(self)@ == farm::register_auction(
                old(self)@,
                user@,
                cow_id@,
                auction_id@,
                price,
            ).state,
            out.0@ == farm::register_auction(old(self)@, user@, cow_id@, auction_id@, price).result,
            views(out.1@) == farm::register_auction(
                old(self)@,
                user@,
                cow_id@,
                auction_id@,
                price,
            ).effects,
    {
        let now: u32 = self.ledger;
        let ghost model = farm::register_auction(old(self)@, user@, cow_id@, auction_id@, price);
        let mut effects: Vec<Effect> = Vec::new();
        if self.config.is_none() {
            return (AuctionResult::default(Status::NotInitialized), effects);
        }
        let mut cow_data: CowData = match registry::get(&self.cows, cow_id, now) {
            Ok(cow_data) => cow_data.clone(),
            Err(status) => {
                return (AuctionResult::default(status), effects);
            },
        };
        if !cow_data.auction_id.as_str().is_empty() {
            return (AuctionResult::default(Status::Fail), effects);
        }
        cow_data.auction_id = auction_id.clone();
        let bid_history: Vec<Bidder> = Vec::new();
        proof {
            assert(views(bid_history@) =~= Seq::empty());
        }
        let new_auction_data = AuctionData {
            auction_id: auction_id.clone(),
            cow_id: cow_id.clone(),
            cow_name: cow_data.name.clone(),
            cow_breed: cow_data.breed,
            cow_born_ledger: cow_data.born_ledger,
            owner: user.clone(),
            start_price: price as i128,
            highest_bidder: Bidder { user: user.clone(), price: price as i128 },
            bid_history,
            auction_limit_ledger: now + LEDGER_AMOUNT_IN_12_HOURS,
        };
        let mut auction_list: IdList = match self.auction_list.get(now) {
            Some(list) => list.clone(),
            None => IdList::new(),
        };
        auction_list.push_back(auction_id.clone());
        self.auction_list.set(auction_list, now);
        self.auction_list.renew(now, LEDGER_AMOUNT_IN_1_MONTH);
        let mut result: Vec<AuctionData> = Vec::new();
        result.push(new_auction_data.clone());
        self.auctions.set(auction_id, new_auction_data, now);
        self.auctions.renew(auction_id, now, LEDGER_AMOUNT_IN_24_HOURS);
        self.cows.set(cow_id, cow_data, now);
        self.owners.renew(&user.key, now, LEDGER_AMOUNT_IN_1_WEEK);
        let event = AuctionEventDetails {
            auction_id: auction_id.clone(),
            bidder: user.clone(),
            price: price as i128,
        };
        effects.push(Effect::AuctionEvent { topic: Topic::Register, auction: event });
        proof {
            assert(views(result@) =~= model.result.auction_data);
        }
        (AuctionResult { status: Status::Success, auction_data: result }, effects)
    }

    /// Bids `bid_price` native units at the auction under `auction_id`, for
    /// `user`, who holds `user_balance` stroops. Refused, in this order, as
    /// `NotInitialized`, `NotFound` (no such auction alive), `BidIsClosed`
    /// (the deadline has passed), `CannotBidLower` (the bid is not above the
    /// highest) and `InsufficientFund` (the bid would leave the bidder no
    /// more than the minimum balance). Else the bid is due from the bidder,
    /// the bid it supersedes is refunded unless it is the seller's stand-in,
    /// and goes to the history.
    pub fn bidding(
        &mut self,
        user: &Address,
        auction_id: &String,
        bid_price: u32,
        user_balance: i128,
    ) -> (out: (AuctionResult, Vec<Effect>))
        requires
            old(self).well_formed(),
        ensures
            final(self).well_formed(),
            final(self)@ == farm::bidding(
                old(self)@,
                user@,
                auction_id@,
                bid_price,
                user_balance as int,
            ).state,
            out.0@ == farm::bidding(
                old(self)@,
                user@,
                auction_id@,
                bid_price,
                user_balance as int,
            ).result,
            views(out.1@) == farm::bidding(
                old(self)@,
                user@,
                auction_id@,
                bid_price,
                user_balance as int,
            ).effects,
    {
        let now: u32 = self.ledger;
        let ghost model = farm::bidding(
            old(self)@,
            user@,
            auction_id@,
            bid_price,
            user_balance as int,
        );
        let mut effects: Vec<Effect> = Vec::new();
        if self.config.is_none() {
            return (AuctionResult::default(Status::NotInitialized), effects);
        }
        let mut auction_data: AuctionData = match self.auctions.get(auction_id, now) {
            Some(auction_data) => auction_data.clone(),
            None => {
                return (AuctionResult::default(Status::NotFound), effects);
            },
        };
        let ghost before = auction_data@;
        if auction_data.auction_limit_ledger < now {
            return (AuctionResult::default(Status::BidIsClosed), effects);
        }
        if (bid_price as i128) <= auction_data.highest_bidder.price {
            return (AuctionResult::default(Status::CannotBidLower), effects);
        }
        let bid_amount: i128 = (bid_price as i128) * STROOPS_PER_UNIT;
        if user_balance <= MINIMUM_USER_BALANCE + bid_amount {
            return (AuctionResult::default(Status::InsufficientFund), effects);
        }
        effects.push(Effect::Collect { from: user.clone(), amount: bid_amount });
        if has_real_bid(&auction_data) {
            let refund_amount: i128 = auction_data.highest_bidder.price * STROOPS_PER_UNIT;
            effects.push(
                Effect::Pay { to: auction_data.highest_bidder.user.clone(), amount: refund_amount },
            );
            let event = AuctionEventDetails {
                auction_id: auction_data.auction_id.clone(),
                bidder: auction_data.highest_bidder.user.clone(),
                price: auction_data.highest_bidder.price,
            };
            effects.push(Effect::AuctionEvent { topic: Topic::Refund, auction: event });
        }
        let superseded: Bidder = auction_data.highest_bidder.clone();
        auction_data.bid_history.push(superseded);
        auction_data.highest_bidder = Bidder { user: user.clone(), price: bid_price as i128 };
        proof {
            assert(auction_data@.bid_history =~= before.bid_history.push(before.highest_bidder));
        }
        let mut result: Vec<AuctionData> = Vec::new();
        result.push(auction_data.clone());
        self.auctions.set(auction_id, auction_data, now);
        self.owners.renew(&user.key, now, LEDGER_AMOUNT_IN_1_WEEK);
        proof {
            assert(views(result@) =~= model.result.auction_data);
        }
        (AuctionResult { status: Status::Success, auction_data: result }, effects)
    }

    /// Lists the open auctions that are alive, in the order in which they
    /// were registered; `NotFound` where the list of open auctions is not
    /// alive.
    pub fn get_all_auction(&self) -> (result: AuctionResult)
        requires
            self.well_formed(),
        ensures
            result@ == farm::get_all_auction(self@),
    {
        let now: u32 = self.ledger;
        let mut auction_data_list: Vec<AuctionData> = Vec::new();
        proof {
            assert(views(auction_data_list@) =~= Seq::empty());
        }
        let stored_auction_list: &IdList = match self.auction_list.get(now) {
            Some(list) => list,
            None => {
                return AuctionResult { status: Status::NotFound, auction_data: auction_data_list };
            },
        };
        let mut i: usize = 0;
        while i < stored_auction_list.len()
            invariant
                self.well_formed(),
                now == self@.ledger,
                i <= stored_auction_list@.len(),
                views(auction_data_list@) == farm::live_auctions(
                    stored_auction_list@.take(i as int),
                    self@.auctions,
                    now,
                ),
            decreases stored_auction_list@.len() - i,
        {
            proof {
                let next = stored_auction_list@.take(i + 1);
                assert(next.drop_last() =~= stored_auction_list@.take(i as int));
            }
            match self.auctions.get(stored_auction_list.get(i), now) {
                Some(auction_data) => {
                    auction_data_list.push(auction_data.clone());
                },
                None => {},
            }
            i = i + 1;
        }
        proof {
            assert(stored_auction_list@.take(i as int) =~= stored_auction_list@);
        }
        AuctionResult { status: Status::Success, auction_data: auction_data_list }
    }

    /// Takes the cow under `cow_id`, which is alive, off auction.
    fn release_cow(&mut self, cow_id: &String)
        requires
            old(self).well_formed(),
            is_live(old(self)@.cows, cow_id@, old(self)@.ledger),
        ensures
            final(self).well_formed(),
            final(self)@ == (FarmView {
                cows: farm::released(old(self)@.cows, cow_id@, old(self)@.ledger),
                ..old(self)@
            }),
    {
        let now: u32 = self.ledger;
        let released: Option<CowData> = match self.cows.get(cow_id, now) {
            Some(cow_data) => Some(cow_data.clone()),
            None => None,
        };
        match released {
            Some(mut cow_data) => {
                cow_data.auction_id = String::new();
                self.cows.set(cow_id, cow_data, now);
            },
            None => {},
        }
    }

    /// Takes `auction_id` out of the open auctions and renews their list
    /// for four weeks, where the list is alive.
    fn delist_auction(&mut self, auction_id: &String)
        requires
            old(self).well_formed(),
        ensures
            final(self).well_formed(),
            final(self)@ == (FarmView {
                auction_list: farm::auction_delisted(
                    old(self)@.auction_list,
                    auction_id@,
                    old(self)@.ledger,
                ),
                ..old(self)@
            }),
    {
        let now: u32 = self.ledger;
        let stored: Option<IdList> = match self.auction_list.get(now) {
            Some(list) => Some(list.clone()),
            None => None,
        };
        match stored {
            Some(mut stored_auction_list) => {
                let _ = stored_auction_list.remove_first(auction_id);
                self.auction_list.set(stored_auction_list, now);
                self.auction_list.renew(now, LEDGER_AMOUNT_IN_1_MONTH);
            },
            None => {},
        }
    }

    /// Closes the auction under `auction_id`. `NotFound` where no such
    /// auction is alive, `BidIsOpen` up to its deadline. After it the
    /// auction is deleted, and: where nobody has bid, the cow, if alive, is
    /// taken off auction; where somebody has and the cow is no longer alive,
    /// the highest bid is refunded; where somebody has and the cow is alive,
    /// the highest bid is due to the seller, the cow moves from the seller's
    /// list to the winner's and is taken off auction, and the auction leaves
    /// the open auctions.
    pub fn finalize_auction(&mut self, auction_id: &String) -> (out: (AuctionResult, Vec<Effect>))
        requires
            old(self).well_formed(),
        ensures
            final(self).well_formed(),
            final(self)@ == farm::finalize_auction(old(self)@, auction_id@).state,
            out.0@ == farm::finalize_auction(old(self)@, auction_id@).result,
            views(out.1@) == farm::finalize_auction(old(self)@, auction_id@).effects,
    {
        let now: u32 = self.ledger;
        let ghost model = farm::finalize_auction(old(self)@, auction_id@);
        let mut effects: Vec<Effect> = Vec::new();
        let auction_data: AuctionData = match self.auctions.get(auction_id, now) {
            Some(auction_data) => auction_data.clone(),
            None => {
                return (AuctionResult::default(Status::NotFound), effects);
            },
        };
        if auction_data.auction_limit_ledger >= now {
            return (AuctionResult::default(Status::BidIsOpen), effects);
        }
        let is_cow_alive: bool = self.cows.has(&auction_data.cow_id, now);
        if !has_real_bid(&auction_data) {
            if is_cow_alive {
                self.release_cow(&auction_data.cow_id);
            }
            self.auctions.remove(auction_id);
            return (AuctionResult::default(Status::Success), effects);
        }
        let bid_amount: i128 = auction_data.highest_bidder.price * STROOPS_PER_UNIT;
        if !is_cow_alive {
            effects.push(
                Effect::Pay { to: auction_data.highest_bidder.user.clone(), amount: bid_amount },
            );
            let event = AuctionEventDetails {
                auction_id: auction_data.auction_id.clone(),
                bidder: auction_data.highest_bidder.user.clone(),
                price: auction_data.highest_bidder.price,
            };
            effects.push(Effect::AuctionEvent { topic: Topic::Refund, auction: event });
            self.auctions.remove(auction_id);
            return (AuctionResult::default(Status::Success), effects);
        }
        effects.push(Effect::Pay { to: auction_data.owner.clone(), amount: bid_amount });
        let _ = ownership_remove(&mut self.owners, &auction_data.owner, &auction_data.cow_id, now);
        let _ = ownership_add(
            &mut self.owners,
            &auction_data.highest_bidder.user,
            &auction_data.cow_id,
            now,
        );
        self.delist_auction(auction_id);
        self.release_cow(&auction_data.cow_id);
        self.auctions.remove(auction_id);
        let event = AuctionEventDetails {
            auction_id: auction_data.auction_id.clone(),
            bidder: auction_data.highest_bidder.user.clone(),
            price: auction_data.highest_bidder.price,
        };
        effects.push(Effect::AuctionEvent { topic: Topic::Auction, auction: event });
        let mut result: Vec<AuctionData> = Vec::new();
        result.push(auction_data);
        proof {
            assert(views(result@) =~= model.result.auction_data);
        }
        (AuctionResult { status: Status::Success, auction_data: result }, effects)
    }

    /// The store of cows, by id.
    pub fn cows(&self) -> (store: &Store<CowData>)
        requires
            self.well_formed(),
        ensures
            store.well_formed(),
            store@ == self@.cows,
    {
        &self.cows
    }

    /// The store of names, each with the id of the cow that bears it.
    pub fn names(&self) -> (store: &Store<String>)
        requires
            self.well_formed(),
        ensures
            store.well_formed(),
            store@ == self@.names,
    {
        &self.names
    }

    /// The store of ownership lists, by the owner's key.
    pub fn owners(&self) -> (store: &Store<IdList>)
        requires
            self.well_formed(),
        ensures
            store.well_formed(),
            store@ == self@.owners,
    {
        &self.owners
    }

    /// The store of auctions, by id.
    pub fn auctions(&self) -> (store: &Store<AuctionData>)
        requires
            self.well_formed(),
        ensures
            store.well_formed(),
            store@ == self@.auctions,
    {
        &self.auctions
    }

    /// The record of open auctions.
    pub fn auction_list(&self) -> (kept: &Kept<IdList>)
        ensures
            kept@ == self@.auction_list,
    {
        &self.auction_list
    }

    /// Puts back a configuration that was kept elsewhere.
    pub fn restore_config(&mut self, config: Config)
        requires
            old(self).well_formed(),
        ensures
            final(self).well_formed(),
            final(self)@ == (FarmView { config: Some(config@), ..old(self)@ }),
    {
        self.config = Some(config);
    }

    /// Puts back a cow that was kept elsewhere, under `key`, and says
    /// whether it did: a cow whose ledgers are not in order at the current
    /// ledger is not taken.
    pub fn restore_cow(&mut self, key: &String, cow: CowData, live_until: u32) -> (restored: bool)
        requires
            old(self).well_formed(),
        ensures
            final(self).well_formed(),
            restored == sound_at(cow@, old(self)@.ledger),
            final(self)@ == if restored {
                FarmView {
                    cows: old(self)@.cows.insert(key@, Record { value: cow@, live_until }),
                    ..old(self)@
                }
            } else {
                old(self)@
            },
    {
        if cow.born_ledger > cow.last_fed_ledger || cow.last_fed_ledger > self.ledger {
            return false;
        }
        let feedings: u64 = cow.feeding_stats.on_time as u64 + cow.feeding_stats.late as u64
            + cow.feeding_stats.forget as u64;
        if feedings > cow.last_fed_ledger as u64 {
            return false;
        }
        self.cows.restore(key, cow, live_until);
        true
    }

    /// Puts back the record of a name that was kept elsewhere.
    pub fn restore_name(&mut self, name: &String, cow_id: String, live_until: u32)
        requires
            old(self).well_formed(),
        ensures
            final(self).well_formed(),
            final(self)@ == (FarmView {
                names: old(self)@.names.insert(name@, Record { value: cow_id@, live_until }),
                ..old(self)@
            }),
    {
        self.names.restore(name, cow_id, live_until);
    }

    /// Puts back an ownership list that was kept elsewhere.
    pub fn restore_owner(&mut self, owner: &Address, list: IdList, live_until: u32)
        requires
            old(self).well_formed(),
        ensures
            final(self).well_formed(),
            final(self)@ == (FarmView {
                owners: old(self)@.owners.insert(owner@, Record { value: list@, live_until }),
                ..old(self)@
            }),
    {
        self.owners.restore(&owner.key, list, live_until);
    }

    /// Puts back an auction that was kept elsewhere, under `key`, and says
    /// whether it did: an auction whose prices are not those of bids, or
    /// whose highest bid is below its start price, is not taken.
    pub fn restore_auction(&mut self, key: &String, auction: AuctionData, live_until: u32) -> (restored:
        bool)
        requires
            old(self).well_formed(),
        ensures
            final(self).well_formed(),
            restored == farm::auction_is_sound(auction@),
            final(self)@ == if restored {
                FarmView {
                    auctions: old(self)@.auctions.insert(
                        key@,
                        Record { value: auction@, live_until },
                    ),
                    ..old(self)@
                }
            } else {
                old(self)@
            },
    {
        if auction.start_price < 0 || auction.start_price > auction.highest_bidder.price {
            return false;
        }
        if auction.highest_bidder.price > 4294967295 {
            return false;
        }
        self.auctions.restore(key, auction, live_until);
        true
    }

    /// Puts back the record of open auctions that was kept elsewhere.
    pub fn restore_auction_list(&mut self, list: IdList, live_until: u32)
        requires
            old(self).well_formed(),
        ensures
            final(self).well_formed(),
            final(self)@ == (FarmView {
                auction_list: Some(Record { value: list@, live_until }),
                ..old(self)@
            }),
    {
        self.auction_list = Kept::restore(list, live_until);
    }
}

} // verus!

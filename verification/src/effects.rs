//! What an operation asks of the host once the farm's state has changed:
//! payments on the payment rail and notifications, in the order in which
//! they are due.

use vstd::prelude::*;
use crate::types::{
    Address, AuctionEventDetails, AuctionEventDetailsView, CowEventDetails, CowEventDetailsView,
};

verus! {

/// The subject under which a notification is published.
#[derive(Clone, Copy, Debug, PartialEq, Eq, Structural)]
pub enum Topic {
    Buy,
    Sell,
    Feed,
    Register,
    Refund,
    Auction,
}

/// One thing for the host to do. Amounts are in stroops.
#[derive(Debug, PartialEq, Eq)]
pub enum Effect {
    /// Move `amount` from the user into the farm's custody.
    Collect { from: Address, amount: i128 },
    /// Move `amount` out of the farm's custody to the user.
    Pay { to: Address, amount: i128 },
    /// Publish what happened to a cow.
    CowEvent { topic: Topic, cow: CowEventDetails },
    /// Publish what happened at an auction.
    AuctionEvent { topic: Topic, auction: AuctionEventDetails },
}

/// The value of an [`Effect`].
pub ghost enum EffectView {
    Collect { from: Seq<char>, amount: int },
    Pay { to: Seq<char>, amount: int },
    CowEvent { topic: Topic, cow: CowEventDetailsView },
    AuctionEvent { topic: Topic, auction: AuctionEventDetailsView },
}

impl View for Effect {
    type V = EffectView;

    open spec fn view(&self) -> EffectView {
        match self {
            Effect::Collect { from, amount } => EffectView::Collect {
                from: from@,
                amount: *amount as int,
            },
            Effect::Pay { to, amount } => EffectView::Pay { to: to@, amount: *amount as int },
            Effect::CowEvent { topic, cow } => EffectView::CowEvent { topic: *topic, cow: cow@ },
            Effect::AuctionEvent { topic, auction } => EffectView::AuctionEvent {
                topic: *topic,
                auction: auction@,
            },
        }
    }
}

/// Whether the effect moves funds.
pub open spec fn moves_funds(effect: EffectView) -> bool {
    effect is Collect || effect is Pay
}

/// Whether no effect of the list moves funds.
pub open spec fn no_funds_move(effects: Seq<EffectView>) -> bool {
    forall|i: int| 0 <= i < effects.len() ==> !moves_funds(#[trigger] effects[i])
}

} // verus!

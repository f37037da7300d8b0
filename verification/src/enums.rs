//! The farm's plain enumerations.

use vstd::prelude::*;

verus! {

/// Keys of the farm's long-lived configuration and global indices.
#[derive(Clone, Copy, Debug, PartialEq, Eq, Structural, PartialOrd, Ord, Hash)]
pub enum DataKey {
    Admin,
    InitializedLedger,
    NativeToken,
    AuctionList,
}

/// How an operation ended. Anything but `Success` (and the informative
/// `Bumped` and `Upgraded`) means that the farm's state is as it was before the call.
#[derive(Clone, Copy, Debug, PartialEq, Eq, Structural, PartialOrd, Ord, Hash)]
pub enum Status {
    Success,
    Fail,
    AlreadyInitialized,
    NotInitialized,
    TryAgain,
    NotFound,
    Found,
    Saved,
    Bumped,
    Upgraded,
    Duplicate,
    InsufficientFund,
    Underage,
    MissingOwnership,
    FullStomach,
    OnAuction,
    BidIsOpen,
    BidIsClosed,
    CannotBidLower,
}

/// The six breeds on offer.
#[derive(Clone, Copy, Debug, PartialEq, Eq, Structural, PartialOrd, Ord, Hash)]
pub enum CowBreed {
    Jersey,
    Limousin,
    Hallikar,
    Hereford,
    Holstein,
    Simmental,
}

impl CowBreed {
    /// The number under which a breed is known outside the farm, from 1 to 6.
    pub open spec fn spec_code(self) -> int {
        match self {
            CowBreed::Jersey => 1,
            CowBreed::Limousin => 2,
            CowBreed::Hallikar => 3,
            CowBreed::Hereford => 4,
            CowBreed::Holstein => 5,
            CowBreed::Simmental => 6,
        }
    }

    /// The breed's number.
    pub fn code(&self) -> (n: u32)
        ensures
            n == self.spec_code(),
    {
        match self {
            CowBreed::Jersey => 1,
            CowBreed::Limousin => 2,
            CowBreed::Hallikar => 3,
            CowBreed::Hereford => 4,
            CowBreed::Holstein => 5,
            CowBreed::Simmental => 6,
        }
    }

    /// The breed with the given number, if there is one.
    pub fn from_code(n: u32) -> (breed: Option<CowBreed>)
        ensures
            breed is Some <==> 1 <= n <= 6,
            breed is Some ==> breed->Some_0.spec_code() == n,
    {
        if n == 1 {
            Some(CowBreed::Jersey)
        } else if n == 2 {
            Some(CowBreed::Limousin)
        } else if n == 3 {
            Some(CowBreed::Hallikar)
        } else if n == 4 {
            Some(CowBreed::Hereford)
        } else if n == 5 {
            Some(CowBreed::Holstein)
        } else if n == 6 {
            Some(CowBreed::Simmental)
        } else {
            None
        }
    }
}

} // verus!

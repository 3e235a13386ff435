use vstd::prelude::*;

use crate::types::{Auction, AuctionError, DataKey, Identity};

verus! {

/// The persisted aggregate, one optional value per storage slot. A fresh
/// deployment starts with every slot empty; operations fill and overwrite
/// slots but never delete one.
///
/// The `highest_bidder` slot itself stores an `Option<Identity>` (absent
/// until the first bid), so the slot as a whole is an option of an option:
/// the outer layer says whether the slot was ever written, the inner one
/// whether a bidder has been recorded.
#[verifier::ext_equal]
#[derive(Clone, Copy, Debug, PartialEq, Eq)]
pub struct Store {
    pub initialized: Option<bool>,
    pub owner: Option<Identity>,
    pub highest_bid: Option<i128>,
    pub highest_bidder: Option<Option<Identity>>,
    pub end_time: Option<u64>,
    pub reserve_price: Option<i128>,
}

impl Store {
    /// The empty store of a fresh deployment.
    pub open spec fn spec_empty() -> Store {
        Store {
            initialized: None,
            owner: None,
            highest_bid: None,
            highest_bidder: None,
            end_time: None,
            reserve_price: None,
        }
    }

    pub fn new() -> (s: Store)
        ensures
            s == Store::spec_empty(),
    {
        Store {
            initialized: None,
            owner: None,
            highest_bid: None,
            highest_bidder: None,
            end_time: None,
            reserve_price: None,
        }
    }

    /// Whether a slot has ever been written.
    pub open spec fn spec_has(self, key: DataKey) -> bool {
        match key {
            DataKey::Initialized => self.initialized is Some,
            DataKey::Owner => self.owner is Some,
            DataKey::HighestBid => self.highest_bid is Some,
            DataKey::HighestBidder => self.highest_bidder is Some,
            DataKey::EndTime => self.end_time is Some,
            DataKey::ReservePrice => self.reserve_price is Some,
        }
    }

    pub fn has(&self, key: DataKey) -> (r: bool)
        ensures
            r == self.spec_has(key),
    {
        match key {
            DataKey::Initialized => self.initialized.is_some(),
            DataKey::Owner => self.owner.is_some(),
            DataKey::HighestBid => self.highest_bid.is_some(),
            DataKey::HighestBidder => self.highest_bidder.is_some(),
            DataKey::EndTime => self.end_time.is_some(),
            DataKey::ReservePrice => self.reserve_price.is_some(),
        }
    }

    /// The initialized flag as every operation reads it: the stored flag,
    /// or `false` while the slot has never been written.
    pub open spec fn spec_initialized(self) -> bool {
        self.initialized == Some(true)
    }

    pub fn read_initialized(&self) -> (r: bool)
        ensures
            r == self.spec_initialized(),
    {
        match self.initialized {
            Some(flag) => flag,
            None => false,
        }
    }

    /// Live means initialized with the deadline still strictly ahead of the
    /// clock. Closure is never stored: it is recomputed from the deadline
    /// and the clock on every query.
    pub open spec fn spec_live(self, now: u64) -> bool {
        &&& self.spec_initialized()
        &&& self.end_time is Some
        &&& now < self.end_time->0
    }

    /// The derived status: 0 while uninitialized, 1 while live, 2 once the
    /// deadline has been reached.
    pub open spec fn spec_status(self, now: u64) -> u32 {
        if !self.spec_initialized() {
            0
        } else if self.end_time is None {
            0
        } else if now >= self.end_time->0 {
            2
        } else {
            1
        }
    }

    /// The snapshot `get_auction` reports, or `AuctionNotInitialized` when
    /// the flag, the owner, the deadline or the highest bid is missing.
    /// `starting_price` repeats the current highest bid; `reserve_price`
    /// falls back to the highest bid if no reserve was separately recorded
    /// (a defensive fallback: normal initialization writes both together).
    pub open spec fn spec_auction(self) -> Result<Auction, AuctionError> {
        if !self.spec_initialized() {
            Err(AuctionError::AuctionNotInitialized)
        } else if self.owner is None {
            Err(AuctionError::AuctionNotInitialized)
        } else if self.end_time is None {
            Err(AuctionError::AuctionNotInitialized)
        } else if self.highest_bid is None {
            Err(AuctionError::AuctionNotInitialized)
        } else {
            Ok(
                Auction {
                    owner: self.owner->0,
                    starting_price: self.highest_bid->0,
                    reserve_price: if self.reserve_price is Some {
                        self.reserve_price->0
                    } else {
                        self.highest_bid->0
                    },
                    end_time: self.end_time->0,
                    highest_bid: self.highest_bid->0,
                    highest_bidder: if self.highest_bidder is Some {
                        self.highest_bidder->0
                    } else {
                        None
                    },
                },
            )
        }
    }

    /// Well-formedness of every reachable store: the initialized flag is
    /// never written `false`, and once it is set the whole aggregate is
    /// present. `initialize` establishes this and every operation preserves
    /// it (see the laws module).
    pub open spec fn wf(self) -> bool {
        &&& self.initialized != Some(false)
        &&& self.spec_initialized() ==> {
            &&& self.owner is Some
            &&& self.highest_bid is Some
            &&& self.highest_bidder is Some
            &&& self.end_time is Some
            &&& self.reserve_price is Some
        }
    }
}

} // verus!

use vstd::prelude::*;

use crate::host::{contains_identity, AuctionEnv};
use crate::store::Store;
use crate::types::{
    Auction, AuctionError, AuctionEvent, AuctionInitializedEvent, BidPlacedEvent,
    EndTimeUpdatedEvent, Identity,
};

verus! {

/// The store `initialize` writes: the whole aggregate, in one piece.
pub open spec fn initialized_store(owner: Identity, starting_price: i128, end_time: u64) -> Store {
    Store {
        initialized: Some(true),
        owner: Some(owner),
        highest_bid: Some(starting_price),
        highest_bidder: Some(None),
        end_time: Some(end_time),
        reserve_price: Some(starting_price),
    }
}

/// What `initialize` returns: already initialized wins over a stale
/// deadline, which wins over a negative starting price.
pub open spec fn initialize_outcome(
    s: Store,
    now: u64,
    owner: Identity,
    starting_price: i128,
    end_time: u64,
) -> Result<(), AuctionError> {
    if s.spec_initialized() {
        Err(AuctionError::AlreadyInitialized)
    } else if end_time <= now {
        Err(AuctionError::InvalidEndTime)
    } else if starting_price < 0 {
        Err(AuctionError::BidTooLow)
    } else {
        Ok(())
    }
}

/// The store after `initialize`: rewritten wholesale on success, untouched
/// on failure.
pub open spec fn initialize_post(
    s: Store,
    now: u64,
    owner: Identity,
    starting_price: i128,
    end_time: u64,
) -> Store {
    if initialize_outcome(s, now, owner, starting_price, end_time) is Ok {
        initialized_store(owner, starting_price, end_time)
    } else {
        s
    }
}

/// What `place_bid` returns: it fails only when the caller has not proven
/// control of the bidding identity. No liveness, no initialization and no
/// amount check: see `AuctionContract::place_bid`.
pub open spec fn place_bid_outcome(auths: Seq<Identity>, bidder: Identity) -> Result<
    (),
    AuctionError,
> {
    if !auths.contains(bidder) {
        Err(AuctionError::Unauthorized)
    } else {
        Ok(())
    }
}

/// The store after `place_bid`: on success the bid and the bidder are
/// overwritten unconditionally, every other slot is untouched.
pub open spec fn place_bid_post(
    s: Store,
    auths: Seq<Identity>,
    bidder: Identity,
    amount: i128,
) -> Store {
    if place_bid_outcome(auths, bidder) is Ok {
        Store { highest_bid: Some(amount), highest_bidder: Some(Some(bidder)), ..s }
    } else {
        s
    }
}

/// What `set_end_time` returns, with the checks in the order the operation
/// makes them: initialization, then authentication, then ownership, then
/// the new deadline, then the bid freeze. `Unauthorized` stands both for a
/// caller who is not the owner and for an owner who moves after bidding has
/// started.
pub open spec fn set_end_time_outcome(
    s: Store,
    now: u64,
    auths: Seq<Identity>,
    caller: Identity,
    new_end_time: u64,
) -> Result<(), AuctionError> {
    if !s.spec_initialized() {
        Err(AuctionError::AuctionNotInitialized)
    } else if !auths.contains(caller) {
        Err(AuctionError::Unauthorized)
    } else if s.owner is None {
        Err(AuctionError::AuctionNotInitialized)
    } else if caller != s.owner->0 {
        Err(AuctionError::Unauthorized)
    } else if new_end_time <= now {
        Err(AuctionError::InvalidEndTime)
    } else if s.highest_bidder is Some && s.highest_bidder->0 is Some {
        Err(AuctionError::Unauthorized)
    } else {
        Ok(())
    }
}

/// The store after `set_end_time`: only the deadline moves, and only on
/// success.
pub open spec fn set_end_time_post(
    s: Store,
    now: u64,
    auths: Seq<Identity>,
    caller: Identity,
    new_end_time: u64,
) -> Store {
    if set_end_time_outcome(s, now, auths, caller, new_end_time) is Ok {
        Store { end_time: Some(new_end_time), ..s }
    } else {
        s
    }
}

/// The auction state machine. Every operation reads the injected
/// environment, validates against the stored state and the clock, and
/// either performs its full set of writes and records its notification or
/// performs none.
pub struct AuctionContract;

impl AuctionContract {
    /// Whether `initialize` has ever succeeded.
    pub fn is_initialized(env: &AuctionEnv) -> (r: bool)
        ensures
            r == env.store.spec_initialized(),
    {
        env.store.read_initialized()
    }

    /// Whether the auction is initialized with the deadline still ahead of
    /// the clock.
    pub fn is_live(env: &AuctionEnv) -> (r: bool)
        ensures
            r == env.store.spec_live(env.now),
    {
        if !env.store.read_initialized() {
            return false;
        }
        let end_time = match env.store.end_time {
            Some(t) => t,
            None => {
                return false;
            },
        };
        let now = env.now;
        now < end_time
    }

    /// The derived status: 0 uninitialized, 1 live, 2 closed. Never fails.
    pub fn get_auction_status(env: &AuctionEnv) -> (r: u32)
        ensures
            r == env.store.spec_status(env.now),
    {
        if !env.store.read_initialized() {
            return 0;
        }
        let end_time = match env.store.end_time {
            Some(t) => t,
            None => {
                return 0;
            },
        };
        let now = env.now;
        if now >= end_time {
            return 2;
        }
        1
    }

    /// Create the auction. The first caller to pass the checks becomes
    /// owner: by design no identity proof is demanded here, unlike in every
    /// other mutating operation.
    pub fn initialize(
        env: &mut AuctionEnv,
        owner: Identity,
        starting_price: i128,
        end_time: u64,
    ) -> (r: Result<(), AuctionError>)
        ensures
            r == initialize_outcome(old(env).store, old(env).now, owner, starting_price, end_time),
            final(env).store == initialize_post(
                old(env).store,
                old(env).now,
                owner,
                starting_price,
                end_time,
            ),
            final(env).now == old(env).now,
            final(env).auths@ == old(env).auths@,
            r is Ok ==> final(env).events@ == old(env).events@.push(
                AuctionEvent::Initialized(AuctionInitializedEvent { owner, end_time }),
            ),
            r is Err ==> final(env).events@ == old(env).events@,
    {
        if env.store.read_initialized() {
            return Err(AuctionError::AlreadyInitialized);
        }
        let now = env.now;
        if end_time <= now {
            return Err(AuctionError::InvalidEndTime);
        }
        if starting_price < 0 {
            return Err(AuctionError::BidTooLow);
        }
        env.store.owner = Some(owner);
        env.store.highest_bid = Some(starting_price);
        env.store.reserve_price = Some(starting_price);
        env.store.highest_bidder = Some(None);
        env.store.end_time = Some(end_time);
        env.store.initialized = Some(true);
        env.events.push(AuctionEvent::Initialized(AuctionInitializedEvent { owner, end_time }));
        Ok(())
    }

    /// Record a bid. The caller must have proven control of `bidder`;
    /// nothing else is checked: not initialization, not liveness against
    /// the deadline, and not the amount against the current leader or the
    /// reserve — the bid and the bidder are overwritten unconditionally.
    /// This permissive behaviour is the current contract of the operation,
    /// kept deliberately rather than hardened in silence; the unused error
    /// vocabulary (`AuctionEnded`, `BidTooLow`) marks the gap.
    pub fn place_bid(env: &mut AuctionEnv, bidder: Identity, amount: i128) -> (r: Result<
        (),
        AuctionError,
    >)
        ensures
            r == place_bid_outcome(old(env).auths@, bidder),
            final(env).store == place_bid_post(old(env).store, old(env).auths@, bidder, amount),
            final(env).now == old(env).now,
            final(env).auths@ == old(env).auths@,
            r is Ok ==> final(env).events@ == old(env).events@.push(
                AuctionEvent::BidPlaced(BidPlacedEvent { bidder, amount }),
            ),
            r is Err ==> final(env).events@ == old(env).events@,
    {
        if !contains_identity(&env.auths, bidder) {
            return Err(AuctionError::Unauthorized);
        }
        env.store.highest_bid = Some(amount);
        env.store.highest_bidder = Some(Some(bidder));
        env.events.push(AuctionEvent::BidPlaced(BidPlacedEvent { bidder, amount }));
        Ok(())
    }

    /// Move the deadline. Only the authenticated owner may, only to a time
    /// strictly ahead of the clock, and only while no bid has been
    /// recorded: once bidding has started the deadline is frozen so the
    /// owner cannot stretch or cut the auction against the bidders.
    pub fn set_end_time(env: &mut AuctionEnv, caller: Identity, new_end_time: u64) -> (r: Result<
        (),
        AuctionError,
    >)
        ensures
            r == set_end_time_outcome(
                old(env).store,
                old(env).now,
                old(env).auths@,
                caller,
                new_end_time,
            ),
            final(env).store == set_end_time_post(
                old(env).store,
                old(env).now,
                old(env).auths@,
                caller,
                new_end_time,
            ),
            final(env).now == old(env).now,
            final(env).auths@ == old(env).auths@,
            r is Ok ==> final(env).events@ == old(env).events@.push(
                AuctionEvent::EndTimeUpdated(
                    EndTimeUpdatedEvent { owner: old(env).store.owner->0, new_end_time },
                ),
            ),
            r is Err ==> final(env).events@ == old(env).events@,
    {
        if !env.store.read_initialized() {
            return Err(AuctionError::AuctionNotInitialized);
        }
        if !contains_identity(&env.auths, caller) {
            return Err(AuctionError::Unauthorized);
        }
        let owner = match env.store.owner {
            Some(o) => o,
            None => {
                return Err(AuctionError::AuctionNotInitialized);
            },
        };
        if caller != owner {
            return Err(AuctionError::Unauthorized);
        }
        let now = env.now;
        if new_end_time <= now {
            return Err(AuctionError::InvalidEndTime);
        }
        let highest_bidder = match env.store.highest_bidder {
            Some(hb) => hb,
            None => None,
        };
        if highest_bidder.is_some() {
            return Err(AuctionError::Unauthorized);
        }
        env.store.end_time = Some(new_end_time);
        env.events.push(
            AuctionEvent::EndTimeUpdated(EndTimeUpdatedEvent { owner, new_end_time }),
        );
        Ok(())
    }

    /// Report the aggregate, or `AuctionNotInitialized` when any required
    /// slot is missing. Reads only.
    pub fn get_auction(env: &AuctionEnv) -> (r: Result<Auction, AuctionError>)
        ensures
            r == env.store.spec_auction(),
    {
        if !env.store.read_initialized() {
            return Err(AuctionError::AuctionNotInitialized);
        }
        let owner = match env.store.owner {
            Some(o) => o,
            None => {
                return Err(AuctionError::AuctionNotInitialized);
            },
        };
        let end_time = match env.store.end_time {
            Some(t) => t,
            None => {
                return Err(AuctionError::AuctionNotInitialized);
            },
        };
        let reserve_price = match env.store.reserve_price {
            Some(rp) => rp,
            None => match env.store.highest_bid {
                Some(sp) => sp,
                None => 0,
            },
        };
        let highest_bid = match env.store.highest_bid {
            Some(b) => b,
            None => {
                return Err(AuctionError::AuctionNotInitialized);
            },
        };
        let highest_bidder = match env.store.highest_bidder {
            Some(hb) => hb,
            None => None,
        };
        let starting_price = highest_bid;
        Ok(
            Auction {
                owner,
                starting_price,
                reserve_price,
                end_time,
                highest_bid,
                highest_bidder,
            },
        )
    }

    /// The clock's reading, passed through unchanged.
    pub fn current_time(env: &AuctionEnv) -> (r: u64)
        ensures
            r == env.now,
    {
        env.now
    }
}

} // verus!

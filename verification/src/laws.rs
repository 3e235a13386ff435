use vstd::prelude::*;

use crate::machine::{
    initialize_outcome, initialize_post, initialized_store, place_bid_outcome, place_bid_post,
    set_end_time_outcome, set_end_time_post,
};
use crate::store::Store;
use crate::types::{Auction, AuctionError, Identity};

verus! {

/// Initialization succeeds exactly once: on an uninitialized store a call
/// with a non-negative price and a deadline ahead of the clock succeeds,
/// and any later call, with any arguments and at any time, returns
/// `AlreadyInitialized` and leaves the store unchanged.
pub proof fn lemma_initialize_exactly_once(
    s: Store,
    now: u64,
    owner: Identity,
    starting_price: i128,
    end_time: u64,
    now2: u64,
    owner2: Identity,
    starting_price2: i128,
    end_time2: u64,
)
    requires
        !s.spec_initialized(),
        starting_price >= 0,
        end_time > now,
    ensures
        initialize_outcome(s, now, owner, starting_price, end_time) is Ok,
        ({
            let s1 = initialize_post(s, now, owner, starting_price, end_time);
            &&& initialize_outcome(s1, now2, owner2, starting_price2, end_time2) == Err::<
                (),
                AuctionError,
            >(AuctionError::AlreadyInitialized)
            &&& initialize_post(s1, now2, owner2, starting_price2, end_time2) == s1
        }),
{
}

/// A deadline at or before the clock is always rejected with
/// `InvalidEndTime`, and nothing is written.
pub proof fn lemma_initialize_invalid_end_time(
    s: Store,
    now: u64,
    owner: Identity,
    starting_price: i128,
    end_time: u64,
)
    requires
        !s.spec_initialized(),
        end_time <= now,
    ensures
        initialize_outcome(s, now, owner, starting_price, end_time) == Err::<(), AuctionError>(
            AuctionError::InvalidEndTime,
        ),
        initialize_post(s, now, owner, starting_price, end_time) == s,
{
}

/// Right after a successful initialization the snapshot holds the owner,
/// the starting price as both highest bid and reserve, no bidder, and the
/// deadline.
pub proof fn lemma_snapshot_after_initialize(owner: Identity, starting_price: i128, end_time: u64)
    ensures
        initialized_store(owner, starting_price, end_time).spec_auction() == Ok::<
            Auction,
            AuctionError,
        >(
            Auction {
                owner,
                starting_price,
                reserve_price: starting_price,
                end_time,
                highest_bid: starting_price,
                highest_bidder: None,
            },
        ),
{
}

/// Bids are accepted unconditionally: two successive bids by authenticated
/// bidders both succeed, whatever the amounts, and the second one is the
/// leader afterwards — even when it is lower than the first.
pub proof fn lemma_second_bid_overwrites(
    s: Store,
    auths: Seq<Identity>,
    first_bidder: Identity,
    first_amount: i128,
    second_bidder: Identity,
    second_amount: i128,
)
    requires
        auths.contains(first_bidder),
        auths.contains(second_bidder),
    ensures
        place_bid_outcome(auths, first_bidder) is Ok,
        place_bid_outcome(auths, second_bidder) is Ok,
        ({
            let s2 = place_bid_post(
                place_bid_post(s, auths, first_bidder, first_amount),
                auths,
                second_bidder,
                second_amount,
            );
            &&& s2.highest_bid == Some(second_amount)
            &&& s2.highest_bidder == Some(Some(second_bidder))
        }),
{
}

/// A caller other than the stored owner can never move the deadline: the
/// operation returns `Unauthorized` — whether or not the caller
/// authenticated — and the store is unchanged.
pub proof fn lemma_set_end_time_non_owner(
    s: Store,
    now: u64,
    auths: Seq<Identity>,
    caller: Identity,
    new_end_time: u64,
)
    requires
        s.wf(),
        s.spec_initialized(),
        caller != s.owner->0,
    ensures
        set_end_time_outcome(s, now, auths, caller, new_end_time) == Err::<(), AuctionError>(
            AuctionError::Unauthorized,
        ),
        set_end_time_post(s, now, auths, caller, new_end_time) == s,
{
}

/// Once any bid has been recorded the deadline is frozen: even the owner,
/// authenticated and asking for a time strictly ahead of the clock, gets
/// `Unauthorized`, and the store stays as the bid left it.
pub proof fn lemma_deadline_frozen_after_bid(
    s: Store,
    now: u64,
    auths: Seq<Identity>,
    bidder: Identity,
    amount: i128,
    new_end_time: u64,
)
    requires
        s.wf(),
        s.spec_initialized(),
        auths.contains(bidder),
        new_end_time > now,
    ensures
        ({
            let s1 = place_bid_post(s, auths, bidder, amount);
            &&& set_end_time_outcome(s1, now, auths, s.owner->0, new_end_time) == Err::<
                (),
                AuctionError,
            >(AuctionError::Unauthorized)
            &&& set_end_time_post(s1, now, auths, s.owner->0, new_end_time) == s1
        }),
{
}

/// The derived statuses partition every well-formed state: status 1 holds
/// exactly while live, status 2 exactly once initialized and no longer
/// live, status 0 exactly while uninitialized; and live itself means
/// initialized with the clock strictly before the deadline.
pub proof fn lemma_status_classification(s: Store, now: u64)
    requires
        s.wf(),
    ensures
        s.spec_live(now) == (s.spec_initialized() && now < s.end_time->0),
        (s.spec_status(now) == 1) == s.spec_live(now),
        (s.spec_status(now) == 2) == (s.spec_initialized() && !s.spec_live(now)),
        (s.spec_status(now) == 0) == !s.spec_initialized(),
{
}

/// Every transition preserves well-formedness, never clears the
/// initialized flag, and never touches the owner once initialization has
/// succeeded.
pub proof fn lemma_transitions_preserve_invariants(
    s: Store,
    now: u64,
    auths: Seq<Identity>,
    who: Identity,
    amount: i128,
    time_arg: u64,
)
    requires
        s.wf(),
    ensures
        initialize_post(s, now, who, amount, time_arg).wf(),
        place_bid_post(s, auths, who, amount).wf(),
        set_end_time_post(s, now, auths, who, time_arg).wf(),
        s.spec_initialized() ==> initialize_post(s, now, who, amount, time_arg) == s,
        place_bid_post(s, auths, who, amount).spec_initialized() == s.spec_initialized(),
        set_end_time_post(s, now, auths, who, time_arg).spec_initialized() == s.spec_initialized(),
        place_bid_post(s, auths, who, amount).owner == s.owner,
        set_end_time_post(s, now, auths, who, time_arg).owner == s.owner,
{
}

} // verus!

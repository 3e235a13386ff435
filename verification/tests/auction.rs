use sealed_auction::host::AuctionEnv;
use sealed_auction::machine::AuctionContract;
use sealed_auction::store::Store;
use sealed_auction::types::{
    Auction, AuctionError, AuctionEvent, AuctionInitializedEvent, BidPlacedEvent, DataKey,
    EndTimeUpdatedEvent, Identity,
};

fn ident(id: u64) -> Identity {
    Identity { id }
}

fn fresh_env(now: u64, auths: Vec<Identity>) -> AuctionEnv {
    AuctionEnv {
        store: Store::new(),
        now,
        auths,
        events: vec![],
    }
}

#[test]
fn initialize_succeeds_exactly_once() {
    let owner = ident(1);
    let mut env = fresh_env(10, vec![]);
    assert_eq!(AuctionContract::initialize(&mut env, owner, 100, 50), Ok(()));
    assert!(AuctionContract::is_initialized(&env));

    let before = env.store;
    let events_before = env.events.clone();
    assert_eq!(
        AuctionContract::initialize(&mut env, ident(9), 7, 999),
        Err(AuctionError::AlreadyInitialized)
    );
    assert_eq!(env.store, before);
    assert_eq!(env.events, events_before);
}

#[test]
fn initialize_rejects_stale_end_time() {
    let mut env = fresh_env(100, vec![]);
    assert_eq!(
        AuctionContract::initialize(&mut env, ident(1), 5, 100),
        Err(AuctionError::InvalidEndTime)
    );
    assert_eq!(env.store, Store::new());
    assert!(env.events.is_empty());
    assert!(!AuctionContract::is_initialized(&env));
}

#[test]
fn initialize_rejects_negative_price() {
    let mut env = fresh_env(10, vec![]);
    assert_eq!(
        AuctionContract::initialize(&mut env, ident(1), -1, 50),
        Err(AuctionError::BidTooLow)
    );
    assert_eq!(env.store, Store::new());
    assert!(env.events.is_empty());
}

#[test]
fn snapshot_after_initialize() {
    let owner = ident(3);
    let mut env = fresh_env(10, vec![]);
    assert_eq!(AuctionContract::initialize(&mut env, owner, 100, 77), Ok(()));
    assert_eq!(
        AuctionContract::get_auction(&env),
        Ok(Auction {
            owner,
            starting_price: 100,
            reserve_price: 100,
            end_time: 77,
            highest_bid: 100,
            highest_bidder: None,
        })
    );
}

#[test]
fn second_lower_bid_overwrites() {
    let owner = ident(1);
    let b = ident(2);
    let c = ident(3);
    let mut env = fresh_env(10, vec![b, c]);
    assert_eq!(AuctionContract::initialize(&mut env, owner, 20, 50), Ok(()));
    assert_eq!(AuctionContract::place_bid(&mut env, b, 50), Ok(()));
    assert_eq!(AuctionContract::place_bid(&mut env, c, 10), Ok(()));
    let snap = AuctionContract::get_auction(&env).unwrap();
    assert_eq!(snap.highest_bid, 10);
    assert_eq!(snap.highest_bidder, Some(c));
}

#[test]
fn place_bid_requires_authentication() {
    let b = ident(2);
    let mut env = fresh_env(10, vec![ident(7)]);
    assert_eq!(AuctionContract::initialize(&mut env, ident(1), 0, 50), Ok(()));
    let before = env.store;
    let events_before = env.events.clone();
    assert_eq!(
        AuctionContract::place_bid(&mut env, b, 100),
        Err(AuctionError::Unauthorized)
    );
    assert_eq!(env.store, before);
    assert_eq!(env.events, events_before);
}

#[test]
fn place_bid_ignores_initialization_and_deadline() {
    // The permissive contract: a bid lands on an uninitialized auction,
    // and on a closed one, without complaint.
    let b = ident(2);
    let mut env = fresh_env(10, vec![b]);
    assert_eq!(AuctionContract::place_bid(&mut env, b, 5), Ok(()));
    assert_eq!(AuctionContract::get_auction_status(&env), 0);

    let mut env2 = fresh_env(10, vec![b]);
    assert_eq!(AuctionContract::initialize(&mut env2, ident(1), 0, 20), Ok(()));
    env2.now = 30;
    assert_eq!(AuctionContract::get_auction_status(&env2), 2);
    assert_eq!(AuctionContract::place_bid(&mut env2, b, 5), Ok(()));
    assert_eq!(AuctionContract::get_auction(&env2).unwrap().highest_bid, 5);
}

#[test]
fn set_end_time_by_non_owner_fails() {
    let owner = ident(1);
    let outsider = ident(2);
    let mut env = fresh_env(10, vec![outsider]);
    assert_eq!(AuctionContract::initialize(&mut env, owner, 0, 50), Ok(()));
    let before = env.store;
    assert_eq!(
        AuctionContract::set_end_time(&mut env, outsider, 500),
        Err(AuctionError::Unauthorized)
    );
    assert_eq!(env.store, before);
    assert_eq!(AuctionContract::get_auction(&env).unwrap().end_time, 50);
}

#[test]
fn set_end_time_by_unauthenticated_owner_fails() {
    let owner = ident(1);
    let mut env = fresh_env(10, vec![]);
    assert_eq!(AuctionContract::initialize(&mut env, owner, 0, 50), Ok(()));
    assert_eq!(
        AuctionContract::set_end_time(&mut env, owner, 500),
        Err(AuctionError::Unauthorized)
    );
    assert_eq!(AuctionContract::get_auction(&env).unwrap().end_time, 50);
}

#[test]
fn set_end_time_frozen_after_bid() {
    let owner = ident(1);
    let b = ident(2);
    let mut env = fresh_env(10, vec![owner, b]);
    assert_eq!(AuctionContract::initialize(&mut env, owner, 0, 50), Ok(()));
    assert_eq!(AuctionContract::place_bid(&mut env, b, 5), Ok(()));
    let before = env.store;
    assert_eq!(
        AuctionContract::set_end_time(&mut env, owner, 1_000_000),
        Err(AuctionError::Unauthorized)
    );
    assert_eq!(env.store, before);
    assert_eq!(AuctionContract::get_auction(&env).unwrap().end_time, 50);
}

#[test]
fn set_end_time_uninitialized_fails() {
    let owner = ident(1);
    let mut env = fresh_env(10, vec![owner]);
    assert_eq!(
        AuctionContract::set_end_time(&mut env, owner, 500),
        Err(AuctionError::AuctionNotInitialized)
    );
}

#[test]
fn set_end_time_rejects_stale_time() {
    let owner = ident(1);
    let mut env = fresh_env(10, vec![owner]);
    assert_eq!(AuctionContract::initialize(&mut env, owner, 0, 50), Ok(()));
    env.now = 60;
    assert_eq!(
        AuctionContract::set_end_time(&mut env, owner, 60),
        Err(AuctionError::InvalidEndTime)
    );
    assert_eq!(AuctionContract::get_auction(&env).unwrap().end_time, 50);
}

#[test]
fn set_end_time_success_before_any_bid() {
    let owner = ident(1);
    let mut env = fresh_env(10, vec![owner]);
    assert_eq!(AuctionContract::initialize(&mut env, owner, 0, 50), Ok(()));
    assert_eq!(AuctionContract::set_end_time(&mut env, owner, 90), Ok(()));
    assert_eq!(AuctionContract::get_auction(&env).unwrap().end_time, 90);
    assert_eq!(
        env.events.last(),
        Some(&AuctionEvent::EndTimeUpdated(EndTimeUpdatedEvent {
            owner,
            new_end_time: 90,
        }))
    );
}

#[test]
fn status_matches_liveness() {
    let mut env = fresh_env(10, vec![]);
    assert!(!AuctionContract::is_initialized(&env));
    assert!(!AuctionContract::is_live(&env));
    assert_eq!(AuctionContract::get_auction_status(&env), 0);

    assert_eq!(AuctionContract::initialize(&mut env, ident(1), 0, 50), Ok(()));
    assert!(AuctionContract::is_initialized(&env));
    assert!(AuctionContract::is_live(&env));
    assert_eq!(AuctionContract::get_auction_status(&env), 1);
    assert!(AuctionContract::current_time(&env) < 50);

    env.now = 50;
    assert!(AuctionContract::is_initialized(&env));
    assert!(!AuctionContract::is_live(&env));
    assert_eq!(AuctionContract::get_auction_status(&env), 2);
}

#[test]
fn reads_are_idempotent() {
    let mut env = fresh_env(10, vec![]);
    assert_eq!(AuctionContract::initialize(&mut env, ident(1), 25, 50), Ok(()));
    assert_eq!(
        AuctionContract::is_initialized(&env),
        AuctionContract::is_initialized(&env)
    );
    assert_eq!(AuctionContract::is_live(&env), AuctionContract::is_live(&env));
    assert_eq!(
        AuctionContract::get_auction_status(&env),
        AuctionContract::get_auction_status(&env)
    );
    assert_eq!(
        AuctionContract::get_auction(&env),
        AuctionContract::get_auction(&env)
    );
    assert_eq!(
        AuctionContract::current_time(&env),
        AuctionContract::current_time(&env)
    );
}

#[test]
fn zero_price_closes_by_clock_alone() {
    let owner = ident(5);
    let mut env = fresh_env(10, vec![]);
    assert_eq!(AuctionContract::initialize(&mut env, owner, 0, 100), Ok(()));
    assert_eq!(AuctionContract::get_auction_status(&env), 1);
    env.now = 150;
    assert_eq!(AuctionContract::get_auction_status(&env), 2);
}

#[test]
fn get_auction_uninitialized_fails() {
    let env = fresh_env(10, vec![]);
    assert_eq!(
        AuctionContract::get_auction(&env),
        Err(AuctionError::AuctionNotInitialized)
    );
}

#[test]
fn get_auction_reserve_falls_back_to_highest_bid() {
    // A store where the reserve slot was never written: the snapshot
    // reports the current highest bid in its place.
    let env = AuctionEnv {
        store: Store {
            initialized: Some(true),
            owner: Some(ident(1)),
            highest_bid: Some(7),
            highest_bidder: None,
            end_time: Some(50),
            reserve_price: None,
        },
        now: 10,
        auths: vec![],
        events: vec![],
    };
    let snap = AuctionContract::get_auction(&env).unwrap();
    assert_eq!(snap.reserve_price, 7);
    assert_eq!(snap.starting_price, 7);
    assert_eq!(snap.highest_bidder, None);
}

#[test]
fn events_are_recorded_in_order() {
    let owner = ident(1);
    let b = ident(2);
    let mut env = fresh_env(10, vec![b]);
    assert_eq!(AuctionContract::initialize(&mut env, owner, 4, 50), Ok(()));
    assert_eq!(AuctionContract::place_bid(&mut env, b, 9), Ok(()));
    assert_eq!(
        env.events,
        vec![
            AuctionEvent::Initialized(AuctionInitializedEvent {
                owner,
                end_time: 50,
            }),
            AuctionEvent::BidPlaced(BidPlacedEvent { bidder: b, amount: 9 }),
        ]
    );
}

#[test]
fn store_reports_written_slots() {
    let mut env = fresh_env(10, vec![]);
    assert!(!env.store.has(DataKey::Initialized));
    assert!(!env.store.has(DataKey::Owner));
    assert!(!env.store.has(DataKey::HighestBidder));
    assert_eq!(AuctionContract::initialize(&mut env, ident(1), 0, 50), Ok(()));
    assert!(env.store.has(DataKey::Initialized));
    assert!(env.store.has(DataKey::Owner));
    assert!(env.store.has(DataKey::HighestBid));
    assert!(env.store.has(DataKey::HighestBidder));
    assert!(env.store.has(DataKey::EndTime));
    assert!(env.store.has(DataKey::ReservePrice));
}

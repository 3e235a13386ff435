use vstd::prelude::*;

verus! {

/// An opaque principal that the host environment can authenticate: an
/// account, a key holder. Inside the machine an identity is only ever
/// compared for equality, so it is carried as a plain number that the host
/// assigns injectively.
#[derive(Clone, Copy, Debug, PartialEq, Eq, Hash, Structural)]
pub struct Identity {
    pub id: u64,
}

/// The fixed enumeration of slots under which the single auction aggregate
/// is persisted. There is exactly one aggregate per deployment, so the keys
/// name fields, not records.
#[derive(Clone, Copy, Debug, PartialEq, Eq, Structural)]
pub enum DataKey {
    Initialized,
    Owner,
    HighestBid,
    HighestBidder,
    EndTime,
    ReservePrice,
}

/// Every way an operation can fail. `AuctionEnded` is part of the public
/// vocabulary but no operation currently produces it: `place_bid` does not
/// check liveness (see `AuctionContract::place_bid`).
#[derive(Clone, Copy, Debug, PartialEq, Eq, Structural)]
pub enum AuctionError {
    AuctionNotInitialized,
    AuctionEnded,
    BidTooLow,
    Unauthorized,
    AlreadyInitialized,
    InvalidEndTime,
}

/// Notification recorded by a successful `place_bid`.
#[derive(Clone, Copy, Debug, PartialEq, Eq)]
pub struct BidPlacedEvent {
    pub bidder: Identity,
    pub amount: i128,
}

/// Notification recorded by a successful `initialize`.
#[derive(Clone, Copy, Debug, PartialEq, Eq)]
pub struct AuctionInitializedEvent {
    pub owner: Identity,
    pub end_time: u64,
}

/// Notification recorded by a successful `set_end_time`.
#[derive(Clone, Copy, Debug, PartialEq, Eq)]
pub struct EndTimeUpdatedEvent {
    pub owner: Identity,
    pub new_end_time: u64,
}

/// One notification, published exactly once per successful mutation, in the
/// order the mutations happened.
#[derive(Clone, Copy, Debug, PartialEq, Eq)]
pub enum AuctionEvent {
    Initialized(AuctionInitializedEvent),
    BidPlaced(BidPlacedEvent),
    EndTimeUpdated(EndTimeUpdatedEvent),
}

/// The snapshot `get_auction` reports. `starting_price` is populated from
/// the current highest bid, not from the price recorded at initialization:
/// a naming artifact of the public interface that is kept as it stands.
#[derive(Clone, Copy, Debug, PartialEq, Eq)]
pub struct Auction {
    pub owner: Identity,
    pub starting_price: i128,
    pub reserve_price: i128,
    pub end_time: u64,
    pub highest_bid: i128,
    pub highest_bidder: Option<Identity>,
}

} // verus!
